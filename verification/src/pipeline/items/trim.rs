//! The operation that takes the whitespace off the ends of a string.
use vstd::prelude::*;
use crate::pipeline::ctx::{Ctx, CtxView};
use crate::text::{trim, trimmed};
use crate::value::{Value, ValueView};

verus! {

/// Takes the whitespace off the start and the end of a string, and refuses a
/// value that is no string.
#[derive(Debug, Copy, Clone)]
pub struct TrimModifier {}

impl TrimModifier {
    /// The operation that trims a string.
    pub fn new() -> (r: Self) {
        Self {  }
    }

    /// What the operation makes of `ctx`.
    pub open spec fn eval(self, ctx: CtxView) -> Option<CtxView> {
        if !ctx.is_valid() {
            Some(ctx)
        } else {
            match ctx.value {
                ValueView::String(s) => Some(ctx.with_value(ValueView::String(trimmed(s)))),
                _ => Some(ctx.invalid("Value is not string."@)),
            }
        }
    }

    /// Runs the operation on `ctx`.
    pub fn call<'a>(&self, ctx: Ctx<'a>) -> (r: Ctx<'a>)
        ensures
            Some(r@) == self.eval(ctx@),
            r@.framed_like(ctx@),
    {
        if !ctx.is_valid() {
            return ctx;
        }
        let cut = match &ctx.value {
            Value::String(s) => Some(trim(s.as_str())),
            _ => None,
        };
        match cut {
            Some(s) => ctx.with_value(Value::String(s)),
            None => ctx.invalid("Value is not string."),
        }
    }
}

} // verus!
