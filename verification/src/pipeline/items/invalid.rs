//! The operation that refuses every value.
use vstd::prelude::*;
use crate::pipeline::ctx::{Ctx, CtxView};

verus! {

/// Marks the context invalid, whatever its value.
#[derive(Debug, Copy, Clone)]
pub struct InvalidModifier {}

impl InvalidModifier {
    /// The operation that refuses every value.
    pub fn new() -> (r: Self) {
        Self {  }
    }

    /// What the operation makes of `ctx`.
    pub open spec fn eval(self, ctx: CtxView) -> Option<CtxView> {
        if !ctx.is_valid() {
            Some(ctx)
        } else {
            Some(ctx.invalid("Value is invalid."@))
        }
    }

    /// Runs the operation on `ctx`.
    pub fn call<'a>(&self, ctx: Ctx<'a>) -> (r: Ctx<'a>)
        ensures
            Some(r@) == self.eval(ctx@),
            r@.framed_like(ctx@),
    {
        if !ctx.is_valid() {
            return ctx;
        }
        ctx.invalid("Value is invalid.")
    }
}

} // verus!
