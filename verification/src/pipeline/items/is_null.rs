//! The test for null.
use vstd::prelude::*;
use crate::pipeline::ctx::{Ctx, CtxView};
use crate::pipeline::items::logical_and::AndModifier;

verus! {

/// Answers whether the value is null. The value is left as it is; the validity
/// becomes the answer.
#[derive(Debug, Copy, Clone)]
pub struct IsNullModifier {}

impl IsNullModifier {
    /// The test for null.
    pub fn new() -> (r: Self) {
        Self {  }
    }

    /// What the operation makes of `ctx`.
    pub open spec fn eval(self, ctx: CtxView) -> Option<CtxView> {
        if !ctx.is_valid() {
            Some(ctx)
        } else {
            Some(AndModifier::answered(ctx, ctx.value is Null))
        }
    }

    /// Runs the operation on `ctx`.
    pub fn call<'a>(&self, ctx: Ctx<'a>) -> (r: Ctx<'a>)
        ensures
            Some(r@) == self.eval(ctx@),
            r@.framed_like(ctx@),
    {
        if !ctx.is_valid() {
            return ctx;
        }
        let yes = ctx.value.is_null();
        AndModifier::answer(ctx, yes)
    }
}

} // verus!
