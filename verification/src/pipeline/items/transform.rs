//! The operation that hands the value to a host function.
//!
//! Nothing is known of a host function but its own contract. What the operation
//! says of its result is said through that contract: the value of the result is
//! one that the host function may answer to the value of the context.
use vstd::prelude::*;
use crate::pipeline::TransformArgument;
use crate::pipeline::ctx::{Ctx, CtxView};
use crate::value::{Value, ValueView};

verus! {

/// Whether the host function `host` may answer a value of the content `answer`
/// when it is handed a value of the content `value`: whether its own contract,
/// whatever that is, lets it.
pub open spec fn answers<T: TransformArgument + ?Sized>(
    host: &T,
    value: ValueView,
    answer: ValueView,
) -> bool {
    exists|given: Value, got: Value|
        given@ == value && got@ == answer && call_ensures(T::call, (host, given), got)
}

/// Hands `value` to the host function `host` and takes its answer.
pub fn ask<T: TransformArgument + ?Sized>(host: &T, value: Value) -> (r: Value)
    ensures
        answers(host, value@, r@),
{
    let ghost given = value;
    let got = host.call(value);
    assert(call_ensures(T::call, (host, given), got));
    got
}

/// A host function in a box is a host function: it answers what the function in
/// the box answers.
impl TransformArgument for Box<dyn TransformArgument> {
    fn call(&self, value: Value) -> (r: Value)
        ensures
            answers::<dyn TransformArgument>(&**self, value@, r@),
    {
        ask::<dyn TransformArgument>(&**self, value)
    }
}

/// Puts the answer of a host function in place of the value.
///
/// A pipeline holds the operation with its host function in a box.
pub struct TransformModifier<F: TransformArgument = Box<dyn TransformArgument>> {
    pub callback: F,
}

impl TransformModifier {
    /// The context that stands, with the answer `value` of the host function in
    /// place of its value.
    pub fn transformed<'a>(ctx: Ctx<'a>, value: Value) -> (r: Ctx<'a>)
        ensures
            r@ == ctx@.with_value(value@),
    {
        ctx.with_value(value)
    }
}

impl<F: TransformArgument> TransformModifier<F> {
    /// The operation that asks the host function `f`.
    pub fn new(f: F) -> (r: TransformModifier<F>)
        ensures
            r.callback == f,
    {
        return TransformModifier { callback: f };
    }

    /// What the operation makes of `ctx`, where the host function has no say in
    /// it: a context that does not stand is left as it is.
    pub open spec fn eval(self, ctx: CtxView) -> Option<CtxView> {
        if !ctx.is_valid() {
            Some(ctx)
        } else {
            None
        }
    }

    /// Whether the operation, run on `ctx`, may leave `out`: a context that does
    /// not stand is left as it is; one that stands gets a value that the host
    /// function may answer to its value.
    pub open spec fn yields(self, ctx: CtxView, out: CtxView) -> bool {
        if !ctx.is_valid() {
            out == ctx
        } else {
            answers(&self.callback, ctx.value, out.value) && out == ctx.with_value(out.value)
        }
    }

    /// Runs the operation on `ctx`: a context that stands has its value handed
    /// to the host function, and the answer put in its place.
    pub fn call<'a>(&self, ctx: Ctx<'a>) -> (r: Ctx<'a>)
        ensures
            self.eval(ctx@) matches Some(c) ==> r@ == c,
            self.yields(ctx@, r@),
            !ctx@.is_valid() ==> r@ == ctx@,
            r@.framed_like(ctx@),
            r@ == ctx@.with_value(r@.value),
            ctx@.is_valid() ==> answers(&self.callback, ctx@.value, r@.value),
    {
        if !ctx.is_valid() {
            return ctx;
        }
        let value = ask(&self.callback, ctx.value.clone());
        TransformModifier::transformed(ctx, value)
    }
}

} // verus!
