//! The operation that runs a pipeline aside.
use vstd::prelude::*;
use crate::pipeline::Pipeline;
use crate::pipeline::ctx::{Ctx, CtxView, Validity, ValidityView};

verus! {

/// Runs its pipeline on the context and keeps the value that the context had.
/// Where the pipeline refuses the value, so does the operation, for the same
/// reason; whatever else the pipeline leaves is dropped.
pub struct DoModifier {
    pub pipeline: Pipeline,
}

impl DoModifier {
    /// The operation that runs `pipeline` aside.
    pub fn new(pipeline: Pipeline) -> (r: Self)
        ensures
            r.pipeline == pipeline,
    {
        Self { pipeline }
    }

    /// What the operation makes of a context that stands, `inner` being the
    /// validity that its pipeline left.
    pub open spec fn outcome(ctx: CtxView, inner: ValidityView) -> CtxView {
        match inner {
            ValidityView::Invalid(reason) => ctx.invalid(reason),
            _ => ctx,
        }
    }

    /// What the operation makes of `ctx`, where no host function has a say in
    /// it.
    pub open spec fn eval(self, ctx: CtxView) -> Option<CtxView>
        decreases self,
    {
        if !ctx.is_valid() {
            Some(ctx)
        } else {
            match self.pipeline.eval(ctx) {
                None => None,
                Some(inner) => Some(Self::outcome(ctx, inner.validity)),
            }
        }
    }

    /// Whether the operation, run on `ctx`, may leave `out`: what it makes of
    /// the context with a validity that its pipeline may leave.
    pub open spec fn yields(self, ctx: CtxView, out: CtxView) -> bool
        decreases self,
    {
        if !ctx.is_valid() {
            out == ctx
        } else {
            exists|inner: CtxView|
                self.pipeline.yields(ctx, inner) && out == #[trigger] Self::outcome(
                    ctx,
                    inner.validity,
                )
        }
    }

    /// The context that stands, after its pipeline left the validity `inner`.
    pub fn restore<'a>(ctx: Ctx<'a>, inner: Validity) -> (r: Ctx<'a>)
        ensures
            r@ == Self::outcome(ctx@, inner@),
    {
        match inner {
            Validity::Invalid(reason) => ctx.with_validity(Validity::Invalid(reason)),
            _ => ctx,
        }
    }

    /// Runs the operation on `ctx`.
    pub fn call<'a>(&self, ctx: Ctx<'a>) -> (r: Ctx<'a>)
        ensures
            self.eval(ctx@) matches Some(c) ==> r@ == c,
            self.yields(ctx@, r@),
            !ctx@.is_valid() ==> r@ == ctx@,
            r@.framed_like(ctx@),
            r@.value == ctx@.value,
        decreases self,
    {
        if !ctx.is_valid() {
            return ctx;
        }
        let inner = self.pipeline.process(ctx.clone());
        Self::restore(ctx, inner.validity)
    }
}

} // verus!
