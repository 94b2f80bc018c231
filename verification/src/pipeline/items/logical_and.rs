//! The conjunction of two conditions.
use vstd::prelude::*;
use crate::pipeline::Pipeline;
use crate::pipeline::ctx::{Ctx, CtxView, Validity, ValidityView};

verus! {

/// Tests the left pipeline, and the right one only where the left one says yes.
/// The value is left as it is; the validity becomes the answer.
pub struct AndModifier {
    pub lhs: Pipeline,
    pub rhs: Pipeline,
}

impl AndModifier {
    /// The conjunction of `lhs` and `rhs`.
    pub fn new(lhs: Pipeline, rhs: Pipeline) -> (r: Self)
        ensures
            r.lhs == lhs,
            r.rhs == rhs,
    {
        Self { lhs, rhs }
    }

    /// The context with the answer `yes` as its validity.
    pub open spec fn answered(ctx: CtxView, yes: bool) -> CtxView {
        ctx.with_validity(
            if yes {
                ValidityView::ConditionTrue
            } else {
                ValidityView::ConditionFalse
            },
        )
    }

    /// What the operation makes of `ctx`, where no host function has a say in
    /// it.
    pub open spec fn eval(self, ctx: CtxView) -> Option<CtxView>
        decreases self,
    {
        if !ctx.is_valid() {
            Some(ctx)
        } else {
            match self.lhs.eval(ctx) {
                None => None,
                Some(l) => if !l.validity.signal() {
                    Some(Self::answered(ctx, false))
                } else {
                    match self.rhs.eval(ctx) {
                        None => None,
                        Some(r) => Some(Self::answered(ctx, r.validity.signal())),
                    }
                },
            }
        }
    }

    /// Whether the operation, run on `ctx`, may leave `out`: the answer no
    /// where the left pipeline may say no, and else the answer that the right
    /// pipeline may give.
    pub open spec fn yields(self, ctx: CtxView, out: CtxView) -> bool
        decreases self,
    {
        if !ctx.is_valid() {
            out == ctx
        } else {
            exists|left: CtxView|
                self.lhs.yields(ctx, left) && if !(#[trigger] left.validity.signal()) {
                    out == Self::answered(ctx, false)
                } else {
                    exists|right: CtxView|
                        self.rhs.yields(ctx, right) && out == Self::answered(
                            ctx,
                            #[trigger] right.validity.signal(),
                        )
                }
        }
    }

    /// Puts the answer `yes` in the context.
    pub fn answer<'a>(ctx: Ctx<'a>, yes: bool) -> (r: Ctx<'a>)
        ensures
            r@ == Self::answered(ctx@, yes),
    {
        if yes {
            ctx.with_validity(Validity::ConditionTrue)
        } else {
            ctx.with_validity(Validity::ConditionFalse)
        }
    }

    /// Runs the operation on `ctx`.
    pub fn call<'a>(&self, ctx: Ctx<'a>) -> (r: Ctx<'a>)
        ensures
            self.eval(ctx@) matches Some(c) ==> r@ == c,
            self.yields(ctx@, r@),
            !ctx@.is_valid() ==> r@ == ctx@,
            r@.framed_like(ctx@),
        decreases self,
    {
        if !ctx.is_valid() {
            return ctx;
        }
        let left = self.lhs.process(ctx.clone());
        if !left.signal() {
            return Self::answer(ctx, false);
        }
        let right = self.rhs.process(ctx.clone());
        let yes = right.signal();
        Self::answer(ctx, yes)
    }
}

} // verus!
