//! The operation that caps a number.
use vstd::prelude::*;
use crate::pipeline::Argument;
use crate::pipeline::ctx::{Ctx, CtxView};
use crate::value::{Order, Value, ValueView};

verus! {

/// Puts the argument in place of a number that is above it.
pub struct MaxModifier {
    pub argument: Argument,
}

impl MaxModifier {
    /// The cap at `argument`.
    pub fn new(argument: Argument) -> (r: Self)
        ensures
            r.argument == argument,
    {
        Self { argument }
    }

    /// What the operation makes of a context that stands, the argument being
    /// `argument`: a number that is not above the argument stays; one that is
    /// above it gives way to the argument, in the variant of the value; a value
    /// or an argument that is no number, and an argument that the variant of the
    /// value cannot hold, make the context invalid.
    pub open spec fn outcome(ctx: CtxView, argument: ValueView) -> CtxView {
        match ctx.value.number() {
            None => ctx.invalid("Value is not number."@),
            Some(v) => match argument.number() {
                None => ctx.invalid("Argument is not number."@),
                Some(a) => if v <= a {
                    ctx
                } else if ctx.value.holds(a) {
                    ctx.with_value(ctx.value.with_number(a))
                } else {
                    ctx.invalid("Argument is out of range."@)
                },
            },
        }
    }

    /// What the operation makes of `ctx`, where no host function has a say in
    /// it.
    pub open spec fn eval(self, ctx: CtxView) -> Option<CtxView>
        decreases self,
    {
        if !ctx.is_valid() {
            Some(ctx)
        } else {
            match self.argument.resolved(ctx) {
                Some(argument) => Some(Self::outcome(ctx, argument)),
                None => None,
            }
        }
    }

    /// Whether the operation, run on `ctx`, may leave `out`: a context that does
    /// not stand is left as it is; one that stands becomes what the operation
    /// makes of it with a value that the argument may resolve to.
    pub open spec fn yields(self, ctx: CtxView, out: CtxView) -> bool
        decreases self,
    {
        if !ctx.is_valid() {
            out == ctx
        } else {
            exists|argument: ValueView|
                self.argument.may_resolve(ctx, argument) && out == #[trigger] Self::outcome(
                    ctx,
                    argument,
                )
        }
    }

    /// Runs the operation on a context that stands, the argument being
    /// `argument`.
    pub fn apply<'a>(ctx: Ctx<'a>, argument: &Value) -> (r: Ctx<'a>)
        ensures
            r@ == Self::outcome(ctx@, argument@),
    {
        let v = match ctx.value.as_whole() {
            Some(v) => v,
            None => {
                return ctx.invalid("Value is not number.");
            },
        };
        let a = match argument.as_whole() {
            Some(a) => a,
            None => {
                return ctx.invalid("Argument is not number.");
            },
        };
        match v.compare(&a) {
            Order::Greater => {},
            _ => {
                return ctx;
            },
        }
        match ctx.value.with_whole(a) {
            Some(capped) => ctx.with_value(capped),
            None => ctx.invalid("Argument is out of range."),
        }
    }

    /// Runs the operation on `ctx`.
    pub fn call<'a>(&self, ctx: Ctx<'a>) -> (r: Ctx<'a>)
        ensures
            self.eval(ctx@) matches Some(c) ==> r@ == c,
            self.yields(ctx@, r@),
            !ctx@.is_valid() ==> r@ == ctx@,
            r@.framed_like(ctx@),
        decreases self,
    {
        if !ctx.is_valid() {
            return ctx;
        }
        let argument = self.argument.resolve(&ctx);
        Self::apply(ctx, &argument)
    }
}

} // verus!
