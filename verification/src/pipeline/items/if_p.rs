//! The branch on a condition.
use vstd::prelude::*;
use crate::pipeline::Pipeline;
use crate::pipeline::ctx::{Ctx, CtxView};

verus! {

/// Tests the condition on the context and runs one of two pipelines on the
/// context: the first where the condition says yes, the second where it says
/// no.
pub struct IfModifier {
    pub condition: Pipeline,
    pub when_true: Pipeline,
    pub when_false: Pipeline,
}

impl IfModifier {
    /// The branch on `condition`, to `when_true` or to `when_false`.
    pub fn new(condition: Pipeline, when_true: Pipeline, when_false: Pipeline) -> (r: Self)
        ensures
            r.condition == condition,
            r.when_true == when_true,
            r.when_false == when_false,
    {
        Self { condition, when_true, when_false }
    }

    /// What the operation makes of `ctx`, where no host function has a say in
    /// it.
    pub open spec fn eval(self, ctx: CtxView) -> Option<CtxView>
        decreases self,
    {
        if !ctx.is_valid() {
            Some(ctx)
        } else {
            match self.condition.eval(ctx) {
                None => None,
                Some(c) => if c.validity.signal() {
                    self.when_true.eval(ctx)
                } else {
                    self.when_false.eval(ctx)
                },
            }
        }
    }

    /// Whether the operation, run on `ctx`, may leave `out`: what one of the
    /// two pipelines may leave, the first where the condition may say yes, the
    /// second where it may say no.
    pub open spec fn yields(self, ctx: CtxView, out: CtxView) -> bool
        decreases self,
    {
        if !ctx.is_valid() {
            out == ctx
        } else {
            exists|tested: CtxView|
                self.condition.yields(ctx, tested) && if #[trigger] tested.validity.signal() {
                    self.when_true.yields(ctx, out)
                } else {
                    self.when_false.yields(ctx, out)
                }
        }
    }

    /// Runs the operation on `ctx`.
    pub fn call<'a>(&self, ctx: Ctx<'a>) -> (r: Ctx<'a>)
        ensures
            self.eval(ctx@) matches Some(c) ==> r@ == c,
            self.yields(ctx@, r@),
            !ctx@.is_valid() ==> r@ == ctx@,
            r@.framed_like(ctx@),
        decreases self,
    {
        if !ctx.is_valid() {
            return ctx;
        }
        let tested = self.condition.process(ctx.clone());
        if tested.signal() {
            self.when_true.process(ctx)
        } else {
            self.when_false.process(ctx)
        }
    }
}

} // verus!
