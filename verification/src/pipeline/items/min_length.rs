//! The check that a string or a list is not too short.
use vstd::prelude::*;
use crate::pipeline::Argument;
use crate::pipeline::ctx::{Ctx, CtxView};
use crate::value::{Value, ValueView};

verus! {

/// Refuses a string with fewer characters, or a list with fewer items, than the
/// argument says.
pub struct MinLengthModifier {
    pub argument: Argument,
}

impl MinLengthModifier {
    /// The check against the least length `argument`.
    pub fn new(argument: Argument) -> (r: Self)
        ensures
            r.argument == argument,
    {
        Self { argument }
    }

    /// What the check makes of a context that stands, the argument being
    /// `argument`.
    pub open spec fn outcome(ctx: CtxView, argument: ValueView) -> CtxView {
        match argument.number() {
            Some(n) if 0 <= n <= usize::MAX => match ctx.value.length() {
                Some(len) => if len >= n {
                    ctx
                } else {
                    ctx.invalid("Value is too short."@)
                },
                None => ctx.invalid("Value is not string or vector."@),
            },
            _ => ctx.invalid("Argument is not an unsigned integer."@),
        }
    }

    /// What the operation makes of `ctx`, where no host function has a say in
    /// it.
    pub open spec fn eval(self, ctx: CtxView) -> Option<CtxView>
        decreases self,
    {
        if !ctx.is_valid() {
            Some(ctx)
        } else {
            match self.argument.resolved(ctx) {
                Some(argument) => Some(Self::outcome(ctx, argument)),
                None => None,
            }
        }
    }

    /// Whether the operation, run on `ctx`, may leave `out`: a context that does
    /// not stand is left as it is; one that stands becomes what the operation
    /// makes of it with a value that the argument may resolve to.
    pub open spec fn yields(self, ctx: CtxView, out: CtxView) -> bool
        decreases self,
    {
        if !ctx.is_valid() {
            out == ctx
        } else {
            exists|argument: ValueView|
                self.argument.may_resolve(ctx, argument) && out == #[trigger] Self::outcome(
                    ctx,
                    argument,
                )
        }
    }

    /// Runs the check on a context that stands, the argument being `argument`.
    pub fn apply<'a>(ctx: Ctx<'a>, argument: &Value) -> (r: Ctx<'a>)
        ensures
            r@ == Self::outcome(ctx@, argument@),
    {
        let n = match argument.as_usize() {
            Some(n) => n,
            None => {
                return ctx.invalid("Argument is not an unsigned integer.");
            },
        };
        let len = match &ctx.value {
            Value::String(s) => Some(s.as_str().unicode_len()),
            Value::Vec(v) => Some(v.len()),
            _ => None,
        };
        match len {
            Some(len) => if len >= n {
                ctx
            } else {
                ctx.invalid("Value is too short.")
            },
            None => ctx.invalid("Value is not string or vector."),
        }
    }

    /// Runs the operation on `ctx`.
    pub fn call<'a>(&self, ctx: Ctx<'a>) -> (r: Ctx<'a>)
        ensures
            self.eval(ctx@) matches Some(c) ==> r@ == c,
            self.yields(ctx@, r@),
            !ctx@.is_valid() ==> r@ == ctx@,
            r@.framed_like(ctx@),
        decreases self,
    {
        if !ctx.is_valid() {
            return ctx;
        }
        let argument = self.argument.resolve(&ctx);
        Self::apply(ctx, &argument)
    }
}

} // verus!
