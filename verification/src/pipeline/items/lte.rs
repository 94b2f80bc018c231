//! The check that a value is not above a bound.
use vstd::prelude::*;
use crate::pipeline::Argument;
use crate::pipeline::ctx::{Ctx, CtxView};
use crate::value::{Order, Value, ValueView};

verus! {

/// Refuses a value that is not less than or equal to the argument.
pub struct LteModifier {
    pub argument: Argument,
}

impl LteModifier {
    /// The check against the bound `argument`.
    pub fn new(argument: Argument) -> (r: Self)
        ensures
            r.argument == argument,
    {
        Self { argument }
    }

    /// The name of the operation.
    pub fn name(&self) -> (r: &'static str)
        ensures
            r@ == "lte"@,
    {
        "lte"
    }

    /// What the check makes of a context that stands, the argument being `rhs`:
    /// the context as it is where its value is ordered with `rhs` and not
    /// greater, else the context marked invalid.
    pub open spec fn outcome(ctx: CtxView, rhs: ValueView) -> CtxView {
        match ctx.value.order(rhs) {
            Some(Order::Less) | Some(Order::Equal) => ctx,
            _ => ctx.invalid("Value is not less than or equal to rhs."@),
        }
    }

    /// What the operation makes of `ctx`, where no host function has a say in
    /// it.
    pub open spec fn eval(self, ctx: CtxView) -> Option<CtxView>
        decreases self,
    {
        if !ctx.is_valid() {
            Some(ctx)
        } else {
            match self.argument.resolved(ctx) {
                Some(rhs) => Some(Self::outcome(ctx, rhs)),
                None => None,
            }
        }
    }

    /// Whether the operation, run on `ctx`, may leave `out`: a context that does
    /// not stand is left as it is; one that stands becomes what the operation
    /// makes of it with a value that the argument may resolve to.
    pub open spec fn yields(self, ctx: CtxView, out: CtxView) -> bool
        decreases self,
    {
        if !ctx.is_valid() {
            out == ctx
        } else {
            exists|argument: ValueView|
                self.argument.may_resolve(ctx, argument) && out == #[trigger] Self::outcome(
                    ctx,
                    argument,
                )
        }
    }

    /// Runs the check on a context that stands, the argument being `rhs`.
    pub fn apply<'a>(ctx: Ctx<'a>, rhs: &Value) -> (r: Ctx<'a>)
        ensures
            r@ == Self::outcome(ctx@, rhs@),
    {
        match ctx.value.compare(rhs) {
            Some(Order::Less) => ctx,
            Some(Order::Equal) => ctx,
            _ => ctx.invalid("Value is not less than or equal to rhs."),
        }
    }

    /// Runs the operation on `ctx`.
    pub fn call<'a>(&self, ctx: Ctx<'a>) -> (r: Ctx<'a>)
        ensures
            self.eval(ctx@) matches Some(c) ==> r@ == c,
            self.yields(ctx@, r@),
            !ctx@.is_valid() ==> r@ == ctx@,
            r@.framed_like(ctx@),
        decreases self,
    {
        if !ctx.is_valid() {
            return ctx;
        }
        let rhs = self.argument.resolve(&ctx);
        Self::apply(ctx, &rhs)
    }
}

} // verus!
