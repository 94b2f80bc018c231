//! The disjunction of two conditions.
use vstd::prelude::*;
use crate::pipeline::Pipeline;
use crate::pipeline::ctx::{Ctx, CtxView};
use crate::pipeline::items::logical_and::AndModifier;

verus! {

/// Tests the left pipeline, and the right one only where the left one says no.
/// The value is left as it is; the validity becomes the answer.
pub struct OrModifier {
    pub lhs: Pipeline,
    pub rhs: Pipeline,
}

impl OrModifier {
    /// The disjunction of `lhs` and `rhs`.
    pub fn new(lhs: Pipeline, rhs: Pipeline) -> (r: Self)
        ensures
            r.lhs == lhs,
            r.rhs == rhs,
    {
        Self { lhs, rhs }
    }

    /// What the operation makes of `ctx`, where no host function has a say in
    /// it.
    pub open spec fn eval(self, ctx: CtxView) -> Option<CtxView>
        decreases self,
    {
        if !ctx.is_valid() {
            Some(ctx)
        } else {
            match self.lhs.eval(ctx) {
                None => None,
                Some(l) => if l.validity.signal() {
                    Some(AndModifier::answered(ctx, true))
                } else {
                    match self.rhs.eval(ctx) {
                        None => None,
                        Some(r) => Some(AndModifier::answered(ctx, r.validity.signal())),
                    }
                },
            }
        }
    }

    /// Whether the operation, run on `ctx`, may leave `out`: the answer yes
    /// where the left pipeline may say yes, and else the answer that the right
    /// pipeline may give.
    pub open spec fn yields(self, ctx: CtxView, out: CtxView) -> bool
        decreases self,
    {
        if !ctx.is_valid() {
            out == ctx
        } else {
            exists|left: CtxView|
                self.lhs.yields(ctx, left) && if #[trigger] left.validity.signal() {
                    out == AndModifier::answered(ctx, true)
                } else {
                    exists|right: CtxView|
                        self.rhs.yields(ctx, right) && out == AndModifier::answered(
                            ctx,
                            #[trigger] right.validity.signal(),
                        )
                }
        }
    }

    /// Runs the operation on `ctx`.
    pub fn call<'a>(&self, ctx: Ctx<'a>) -> (r: Ctx<'a>)
        ensures
            self.eval(ctx@) matches Some(c) ==> r@ == c,
            self.yields(ctx@, r@),
            !ctx@.is_valid() ==> r@ == ctx@,
            r@.framed_like(ctx@),
        decreases self,
    {
        if !ctx.is_valid() {
            return ctx;
        }
        let left = self.lhs.process(ctx.clone());
        if left.signal() {
            return AndModifier::answer(ctx, true);
        }
        let right = self.rhs.process(ctx.clone());
        let yes = right.signal();
        AndModifier::answer(ctx, yes)
    }
}

} // verus!
