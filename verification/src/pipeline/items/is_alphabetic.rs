//! The check that a string holds letters only.
use vstd::prelude::*;
use crate::pipeline::ctx::{Ctx, CtxView};
use crate::text::{all_alphabetic, is_all_alphabetic};
use crate::value::{Value, ValueView};

verus! {

/// Refuses a value that is no string, and a string with a character that is
/// not alphabetic.
#[derive(Debug, Copy, Clone)]
pub struct IsAlphabeticModifier {}

impl IsAlphabeticModifier {
    /// The check for letters only.
    pub fn new() -> (r: Self) {
        Self {  }
    }

    /// What the operation makes of `ctx`.
    pub open spec fn eval(self, ctx: CtxView) -> Option<CtxView> {
        if !ctx.is_valid() {
            Some(ctx)
        } else {
            match ctx.value {
                ValueView::String(s) => if all_alphabetic(s) {
                    Some(ctx)
                } else {
                    Some(ctx.invalid("Value is not alphabetic."@))
                },
                _ => Some(ctx.invalid("Value is not string."@)),
            }
        }
    }

    /// Runs the operation on `ctx`.
    pub fn call<'a>(&self, ctx: Ctx<'a>) -> (r: Ctx<'a>)
        ensures
            Some(r@) == self.eval(ctx@),
            r@.framed_like(ctx@),
    {
        if !ctx.is_valid() {
            return ctx;
        }
        let letters = match &ctx.value {
            Value::String(s) => Some(is_all_alphabetic(s.as_str())),
            _ => None,
        };
        match letters {
            None => ctx.invalid("Value is not string."),
            Some(true) => ctx,
            Some(false) => ctx.invalid("Value is not alphabetic."),
        }
    }
}

} // verus!
