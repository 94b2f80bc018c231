//! The operation that runs a pipeline under some actions only.
//!
//! The action that decides is that of the record which the context belongs to.
use vstd::prelude::*;
use crate::action::Action;
use crate::pipeline::Pipeline;
use crate::pipeline::ctx::{Ctx, CtxView};

verus! {

/// Runs its pipeline where the action of the attached record meets one of its
/// actions, and leaves the context as it is where it meets none. Where no
/// record is attached, the value is refused.
pub struct WhenModifier {
    pub actions: Vec<Action>,
    pub pipeline: Pipeline,
}

impl WhenModifier {
    /// The operation that runs `pipeline` under `actions` only.
    pub fn new(actions: Vec<Action>, pipeline: Pipeline) -> (r: Self)
        ensures
            r.actions == actions,
            r.pipeline == pipeline,
    {
        return WhenModifier { actions, pipeline };
    }

    /// What the operation makes of `ctx`, where no host function has a say in
    /// it.
    pub open spec fn eval(self, ctx: CtxView) -> Option<CtxView>
        decreases self,
    {
        if !ctx.is_valid() {
            Some(ctx)
        } else {
            match ctx.object {
                None => Some(ctx.invalid("No record is attached."@)),
                Some(o) => if o.action.passes_any(self.actions@) {
                    self.pipeline.eval(ctx)
                } else {
                    Some(ctx)
                },
            }
        }
    }

    /// Whether the operation, run on `ctx`, may leave `out`.
    pub open spec fn yields(self, ctx: CtxView, out: CtxView) -> bool
        decreases self,
    {
        if !ctx.is_valid() {
            out == ctx
        } else {
            match ctx.object {
                None => out == ctx.invalid("No record is attached."@),
                Some(o) => if o.action.passes_any(self.actions@) {
                    self.pipeline.yields(ctx, out)
                } else {
                    out == ctx
                },
            }
        }
    }

    /// Runs the operation on `ctx`.
    pub fn call<'a>(&self, ctx: Ctx<'a>) -> (r: Ctx<'a>)
        ensures
            self.eval(ctx@) matches Some(c) ==> r@ == c,
            self.yields(ctx@, r@),
            !ctx@.is_valid() ==> r@ == ctx@,
            r@.framed_like(ctx@),
        decreases self,
    {
        if !ctx.is_valid() {
            return ctx;
        }
        match ctx.object {
            None => ctx.invalid("No record is attached."),
            Some(o) => if o.action.passes(&self.actions) {
                self.pipeline.process(ctx)
            } else {
                ctx
            },
        }
    }
}

} // verus!
