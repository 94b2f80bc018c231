//! The operation that reads a field of the record.
use vstd::prelude::*;
use crate::pipeline::ctx::{Ctx, CtxView};
use crate::value::Value;

verus! {

/// Puts in place of the value what the record holds under a key, null where it
/// holds nothing there, and refuses the value where no record is attached.
pub struct ObjectValueModifier {
    pub key: String,
}

impl ObjectValueModifier {
    /// The operation that reads the field `key` of the record.
    pub fn new(key: &str) -> (r: Self)
        ensures
            r.key@ == key@,
    {
        Self { key: String::from_str(key) }
    }

    /// What the operation makes of `ctx`.
    pub open spec fn eval(self, ctx: CtxView) -> Option<CtxView> {
        if !ctx.is_valid() {
            Some(ctx)
        } else {
            match ctx.object {
                Some(o) => Some(ctx.with_value(o.stored(self.key@))),
                None => Some(ctx.invalid("No record is attached."@)),
            }
        }
    }

    /// Runs the operation on `ctx`.
    pub fn call<'a>(&self, ctx: Ctx<'a>) -> (r: Ctx<'a>)
        ensures
            Some(r@) == self.eval(ctx@),
            r@.framed_like(ctx@),
    {
        if !ctx.is_valid() {
            return ctx;
        }
        match ctx.object {
            Some(o) => {
                let value = match o.value_map.get(self.key.as_str()) {
                    Some(v) => v.clone(),
                    None => Value::Null,
                };
                ctx.with_value(value)
            },
            None => ctx.invalid("No record is attached."),
        }
    }
}

} // verus!
