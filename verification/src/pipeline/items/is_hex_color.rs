//! The check that a string is a colour in six hexadecimal digits.
use vstd::prelude::*;
use crate::pattern::{regex_is_match, regex_match};
use crate::pipeline::ctx::{Ctx, CtxView};
use crate::value::{Value, ValueView};

verus! {

/// The regular expression of a colour in six hexadecimal digits.
pub open spec fn hex_color_pattern() -> Seq<char> {
    "^[A-Fa-f0-9]{6}$"@
}

/// Refuses a value that is no string, and a string that the expression of a
/// hexadecimal colour does not match.
#[derive(Debug, Copy, Clone)]
pub struct IsHexColorModifier {}

impl IsHexColorModifier {
    /// The check for a colour in six hexadecimal digits.
    pub fn new() -> (r: Self) {
        return IsHexColorModifier {  };
    }

    /// What the check makes of a context that stands, `matched` being what the
    /// expression answered on its value: `None` where the value is no string.
    pub open spec fn outcome(ctx: CtxView, matched: Option<Option<bool>>) -> CtxView {
        match matched {
            None => ctx.invalid("Value is not string."@),
            Some(Some(true)) => ctx,
            Some(_) => ctx.invalid("String is not hex color."@),
        }
    }

    /// What the expression of a hexadecimal colour answers on `value`: `None`
    /// where the value is no string.
    pub open spec fn matched(value: ValueView) -> Option<Option<bool>> {
        match value {
            ValueView::String(s) => Some(regex_match(hex_color_pattern(), s)),
            _ => None,
        }
    }

    /// What the operation makes of `ctx`.
    pub open spec fn eval(self, ctx: CtxView) -> Option<CtxView> {
        if !ctx.is_valid() {
            Some(ctx)
        } else {
            Some(Self::outcome(ctx, Self::matched(ctx.value)))
        }
    }

    /// Runs the check on a context that stands, `matched` being what the
    /// expression answered on its value.
    pub fn apply<'a>(ctx: Ctx<'a>, matched: Option<Option<bool>>) -> (r: Ctx<'a>)
        ensures
            r@ == Self::outcome(ctx@, matched),
    {
        match matched {
            None => ctx.invalid("Value is not string."),
            Some(Some(true)) => ctx,
            Some(_) => ctx.invalid("String is not hex color."),
        }
    }

    /// Runs the operation on `ctx`.
    pub fn call<'a>(&self, ctx: Ctx<'a>) -> (r: Ctx<'a>)
        ensures
            Some(r@) == self.eval(ctx@),
            r@.framed_like(ctx@),
    {
        if !ctx.is_valid() {
            return ctx;
        }
        let matched = match &ctx.value {
            Value::String(s) => Some(regex_is_match("^[A-Fa-f0-9]{6}$", s.as_str())),
            _ => None,
        };
        Self::apply(ctx, matched)
    }
}

} // verus!
