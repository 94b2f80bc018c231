//! Pipelines: ordered lists of operations, and the arguments that operations
//! take.
//!
//! What a pipeline does to a context is said twice. The spec function
//! [`Pipeline::eval`] gives the one context that [`Pipeline::process`] returns,
//! and is `None` where the outcome depends on what a host function answers. The
//! relation [`Pipeline::yields`] holds of every context that `process` may
//! return, a host function answering what its own contract lets it answer; where
//! `eval` gives a context, `yields` admits that context only
//! ([`pipeline_yields_one`]).
pub mod ctx;

pub mod items;

use vstd::prelude::*;
use crate::pipeline::ctx::{Ctx, CtxView};
use crate::pipeline::items::do_p::DoModifier;
use crate::pipeline::items::gte::GteModifier;
use crate::pipeline::items::if_p::IfModifier;
use crate::pipeline::items::invalid::InvalidModifier;
use crate::pipeline::items::is_alphabetic::IsAlphabeticModifier;
use crate::pipeline::items::is_hex_color::IsHexColorModifier;
use crate::pipeline::items::is_null::IsNullModifier;
use crate::pipeline::items::logical_and::AndModifier;
use crate::pipeline::items::logical_or::OrModifier;
use crate::pipeline::items::lte::LteModifier;
use crate::pipeline::items::max::MaxModifier;
use crate::pipeline::items::min_length::MinLengthModifier;
use crate::pipeline::items::object_value::ObjectValueModifier;
use crate::pipeline::items::trim::TrimModifier;
use crate::pipeline::items::transform::{TransformModifier, answers, ask};
use crate::pipeline::items::truncate::TruncateModifier;
use crate::pipeline::items::when::WhenModifier;
use crate::value::{Value, ValueView};

verus! {

/// A function that the host supplies.
///
/// The library hands it a value and takes the value that it answers. Nothing is
/// known of the answer, and nothing is claimed of it.
pub trait TransformArgument {
    fn call(&self, value: Value) -> Value;
}

/// An input of an operation, resolved when the operation runs.
pub enum Argument {
    /// The value itself.
    ValueArgument(Value),
    /// The value that the pipeline leaves when it is run on the current context.
    PipelineArgument(Pipeline),
    /// The answer of a host function to the current value.
    FunctionArgument(Box<dyn TransformArgument>),
}

/// One operation of a pipeline.
pub enum Item {
    Invalid(InvalidModifier),
    Truncate(TruncateModifier),
    Max(MaxModifier),
    Gte(GteModifier),
    Lte(LteModifier),
    IsAlphabetic(IsAlphabeticModifier),
    IsHexColor(IsHexColorModifier),
    Trim(TrimModifier),
    MinLength(MinLengthModifier),
    IsNull(IsNullModifier),
    ObjectValue(ObjectValueModifier),
    When(WhenModifier),
    If(IfModifier),
    And(AndModifier),
    Or(OrModifier),
    Do(DoModifier),
    Transform(TransformModifier),
}

/// An ordered list of operations.
pub struct Pipeline {
    pub items: Vec<Item>,
}

/// What the operations `items`, run one after the other, make of `ctx`.
pub open spec fn eval_items(items: Seq<Item>, ctx: CtxView) -> Option<CtxView>
    decreases items, items.len(),
{
    if items.len() == 0 {
        Some(ctx)
    } else {
        match eval_items(items.drop_last(), ctx) {
            Some(c) => items.last().eval(c),
            None => None,
        }
    }
}

/// Whether the operations `items`, run one after the other on `ctx`, may leave
/// `out`: each operation runs on what the one before it left.
pub open spec fn items_yield(items: Seq<Item>, ctx: CtxView, out: CtxView) -> bool
    decreases items, items.len(),
{
    if items.len() == 0 {
        out == ctx
    } else {
        exists|mid: CtxView|
            #[trigger] mid.framed_like(ctx) && items_yield(items.drop_last(), ctx, mid)
                && items.last().yields(mid, out)
    }
}

/// A value is the literal argument that holds it.
impl From<Value> for Argument {
    fn from(value: Value) -> (r: Argument) {
        Argument::ValueArgument(value)
    }
}

impl vstd::std_specs::convert::FromSpecImpl<Value> for Argument {
    open spec fn obeys_from_spec() -> bool {
        true
    }

    open spec fn from_spec(value: Value) -> Argument {
        Argument::ValueArgument(value)
    }
}

/// A pipeline is the argument that runs it.
impl From<Pipeline> for Argument {
    fn from(pipeline: Pipeline) -> (r: Argument) {
        Argument::PipelineArgument(pipeline)
    }
}

impl vstd::std_specs::convert::FromSpecImpl<Pipeline> for Argument {
    open spec fn obeys_from_spec() -> bool {
        true
    }

    open spec fn from_spec(pipeline: Pipeline) -> Argument {
        Argument::PipelineArgument(pipeline)
    }
}

impl Argument {
    /// The literal argument `value`.
    pub fn from_value(value: Value) -> (r: Argument)
        ensures
            r == Argument::ValueArgument(value),
    {
        Argument::ValueArgument(value)
    }

    /// The value of a literal argument.
    pub fn as_value(&self) -> (r: Option<&Value>)
        ensures
            r == match *self {
                Argument::ValueArgument(v) => Some(&v),
                _ => None,
            },
    {
        match self {
            Argument::ValueArgument(v) => Some(v),
            _ => None,
        }
    }

    /// The pipeline of an argument that runs one.
    pub fn as_pipeline(&self) -> (r: Option<&Pipeline>)
        ensures
            r == match *self {
                Argument::PipelineArgument(p) => Some(&p),
                _ => None,
            },
    {
        match self {
            Argument::PipelineArgument(p) => Some(p),
            _ => None,
        }
    }

    /// The value that the argument resolves to on `ctx`, where no host function
    /// has a say in it.
    pub open spec fn resolved(self, ctx: CtxView) -> Option<ValueView>
        decreases self,
    {
        match self {
            Argument::ValueArgument(v) => Some(v@),
            Argument::PipelineArgument(p) => match p.eval(ctx) {
                Some(c) => Some(c.value),
                None => None,
            },
            Argument::FunctionArgument(_) => None,
        }
    }

    /// Whether the argument may resolve to `value` on `ctx`: a literal to
    /// itself, a pipeline to the value of a context that it may leave, a host
    /// function to what it may answer to the value of the context.
    pub open spec fn may_resolve(self, ctx: CtxView, value: ValueView) -> bool
        decreases self,
    {
        match self {
            Argument::ValueArgument(v) => value == v@,
            Argument::PipelineArgument(p) => exists|out: CtxView|
                p.yields(ctx, out) && #[trigger] out.leaves(value),
            Argument::FunctionArgument(f) => answers(&f, ctx.value, value),
        }
    }

    /// Resolves the argument on `ctx`: a literal is itself, a pipeline is run on
    /// the context and leaves its value, a host function is asked with the
    /// current value.
    pub fn resolve<'a>(&self, ctx: &Ctx<'a>) -> (r: Value)
        ensures
            self.resolved(ctx@) matches Some(v) ==> r@ == v,
            self.may_resolve(ctx@, r@),
        decreases self,
    {
        match self {
            Argument::ValueArgument(v) => v.clone(),
            Argument::PipelineArgument(p) => {
                let out = p.process(ctx.clone());
                assert(out@.leaves(out.value@));
                out.value
            },
            Argument::FunctionArgument(f) => ask(f, ctx.value.clone()),
        }
    }
}

impl Item {
    /// What the operation makes of `ctx`, where no host function has a say in
    /// it.
    pub open spec fn eval(self, ctx: CtxView) -> Option<CtxView>
        decreases self,
    {
        match self {
            Item::Invalid(m) => m.eval(ctx),
            Item::Truncate(m) => m.eval(ctx),
            Item::Max(m) => m.eval(ctx),
            Item::Gte(m) => m.eval(ctx),
            Item::Lte(m) => m.eval(ctx),
            Item::IsAlphabetic(m) => m.eval(ctx),
            Item::IsHexColor(m) => m.eval(ctx),
            Item::Trim(m) => m.eval(ctx),
            Item::MinLength(m) => m.eval(ctx),
            Item::IsNull(m) => m.eval(ctx),
            Item::ObjectValue(m) => m.eval(ctx),
            Item::When(m) => m.eval(ctx),
            Item::If(m) => m.eval(ctx),
            Item::And(m) => m.eval(ctx),
            Item::Or(m) => m.eval(ctx),
            Item::Do(m) => m.eval(ctx),
            Item::Transform(m) => m.eval(ctx),
        }
    }

    /// Whether the operation, run on `ctx`, may leave `out`. Where no host
    /// function has a say, that is the one context of [`Item::eval`]; where one
    /// has, it is a context that comes of an answer which the host function may
    /// give.
    pub open spec fn yields(self, ctx: CtxView, out: CtxView) -> bool
        decreases self,
    {
        match self {
            Item::Invalid(m) => m.eval(ctx) == Some(out),
            Item::Truncate(m) => m.yields(ctx, out),
            Item::Max(m) => m.yields(ctx, out),
            Item::Gte(m) => m.yields(ctx, out),
            Item::Lte(m) => m.yields(ctx, out),
            Item::IsAlphabetic(m) => m.eval(ctx) == Some(out),
            Item::IsHexColor(m) => m.eval(ctx) == Some(out),
            Item::Trim(m) => m.eval(ctx) == Some(out),
            Item::MinLength(m) => m.yields(ctx, out),
            Item::IsNull(m) => m.eval(ctx) == Some(out),
            Item::ObjectValue(m) => m.eval(ctx) == Some(out),
            Item::When(m) => m.yields(ctx, out),
            Item::If(m) => m.yields(ctx, out),
            Item::And(m) => m.yields(ctx, out),
            Item::Or(m) => m.yields(ctx, out),
            Item::Do(m) => m.yields(ctx, out),
            Item::Transform(m) => m.yields(ctx, out),
        }
    }

    /// Runs the operation on `ctx`.
    pub fn call<'a>(&self, ctx: Ctx<'a>) -> (r: Ctx<'a>)
        ensures
            self.eval(ctx@) matches Some(c) ==> r@ == c,
            self.yields(ctx@, r@),
            !ctx@.is_valid() ==> r@ == ctx@,
            r@.framed_like(ctx@),
        decreases self,
    {
        match self {
            Item::Invalid(m) => m.call(ctx),
            Item::Truncate(m) => m.call(ctx),
            Item::Max(m) => m.call(ctx),
            Item::Gte(m) => m.call(ctx),
            Item::Lte(m) => m.call(ctx),
            Item::IsAlphabetic(m) => m.call(ctx),
            Item::IsHexColor(m) => m.call(ctx),
            Item::Trim(m) => m.call(ctx),
            Item::MinLength(m) => m.call(ctx),
            Item::IsNull(m) => m.call(ctx),
            Item::ObjectValue(m) => m.call(ctx),
            Item::When(m) => m.call(ctx),
            Item::If(m) => m.call(ctx),
            Item::And(m) => m.call(ctx),
            Item::Or(m) => m.call(ctx),
            Item::Do(m) => m.call(ctx),
            Item::Transform(m) => m.call(ctx),
        }
    }
}

impl Pipeline {
    /// The pipeline without operations.
    pub fn new() -> (r: Pipeline)
        ensures
            r.items@.len() == 0,
    {
        Pipeline { items: Vec::new() }
    }

    /// The pipeline of the operations `items`.
    pub fn from_items(items: Vec<Item>) -> (r: Pipeline)
        ensures
            r.items == items,
    {
        Pipeline { items }
    }

    /// Adds `item` at the end of the pipeline.
    pub fn push(&mut self, item: Item)
        ensures
            final(self).items@ == old(self).items@.push(item),
    {
        self.items.push(item);
    }

    /// Whether the pipeline holds an operation.
    pub fn has_any_modifier(&self) -> (r: bool)
        ensures
            r == (self.items@.len() > 0),
    {
        self.items.len() > 0
    }

    /// What the pipeline makes of `ctx`, where no host function has a say in it.
    pub open spec fn eval(self, ctx: CtxView) -> Option<CtxView>
        decreases self,
    {
        eval_items(self.items@, ctx)
    }

    /// Whether the pipeline, run on `ctx`, may leave `out`.
    pub open spec fn yields(self, ctx: CtxView, out: CtxView) -> bool
        decreases self,
    {
        items_yield(self.items@, ctx, out)
    }

    /// Runs the operations of the pipeline on `ctx`, in order, each on what the
    /// one before it left.
    pub fn process<'a>(&self, ctx: Ctx<'a>) -> (r: Ctx<'a>)
        ensures
            self.eval(ctx@) matches Some(c) ==> r@ == c,
            self.yields(ctx@, r@),
            !ctx@.is_valid() ==> r@ == ctx@,
            r@.framed_like(ctx@),
        decreases self,
    {
        let ghost start = ctx@;
        let mut cur = ctx;
        let mut i: usize = 0;
        while i < self.items.len()
            invariant
                i <= self.items.len(),
                eval_items(self.items@.take(i as int), start) matches Some(c) ==> cur@ == c,
                eval_items(self.items@, start) is Some ==> eval_items(
                    self.items@.take(i as int),
                    start,
                ) is Some,
                !start.is_valid() ==> cur@ == start,
                cur@.framed_like(start),
                items_yield(self.items@.take(i as int), start, cur@),
            decreases self.items.len() - i,
        {
            let ghost before = cur@;
            proof {
                vstd::std_specs::vec::axiom_vec_index_decreases(self.items, i as int);
                assert(self.items@.take(i + 1).drop_last() =~= self.items@.take(i as int));
                eval_items_prefix(self.items@, start, i + 1);
            }
            cur = self.items[i].call(cur);
            proof {
                let more = self.items@.take(i + 1);
                assert(more.drop_last() == self.items@.take(i as int));
                assert(more.last() == self.items@[i as int]);
                assert(before.framed_like(start));
                assert(items_yield(more.drop_last(), start, before));
            }
            i += 1;
        }
        proof {
            assert(self.items@.take(i as int) =~= self.items@);
        }
        cur
    }
}

/// Where a list of operations has an outcome, so has each of its prefixes.
pub proof fn eval_items_prefix(items: Seq<Item>, ctx: CtxView, n: int)
    requires
        0 <= n <= items.len(),
    ensures
        eval_items(items, ctx) is Some ==> eval_items(items.take(n), ctx) is Some,
    decreases items.len(),
{
    if n == items.len() {
        assert(items.take(n) =~= items);
    } else {
        eval_items_prefix(items.drop_last(), ctx, n);
        assert(items.drop_last().take(n) =~= items.take(n));
    }
}

} // verus!

verus! {

/// An operation leaves a context that does not stand as it is.
pub proof fn item_leaves_invalid(item: Item, ctx: CtxView)
    requires
        !ctx.is_valid(),
    ensures
        item.eval(ctx) == Some(ctx),
{
}

/// A list of operations leaves a context that does not stand as it is.
pub proof fn items_leave_invalid(items: Seq<Item>, ctx: CtxView)
    requires
        !ctx.is_valid(),
    ensures
        eval_items(items, ctx) == Some(ctx),
    decreases items.len(),
{
    if items.len() > 0 {
        items_leave_invalid(items.drop_last(), ctx);
        item_leaves_invalid(items.last(), ctx);
    }
}

/// A context that is already invalid goes through every pipeline unchanged:
/// its value, the reason of its refusal and all the rest are what they were.
/// The same holds of a context that carries a condition signal.
pub proof fn pipeline_leaves_invalid(pipeline: Pipeline, ctx: CtxView)
    requires
        !ctx.is_valid(),
    ensures
        pipeline.eval(ctx) == Some(ctx),
{
    items_leave_invalid(pipeline.items@, ctx);
}

/// Each operation of a pipeline sees exactly the context that the one before
/// it left: a pipeline with one more operation does what the pipeline does, and
/// then what the operation does.
pub proof fn pipeline_runs_in_order(items: Seq<Item>, item: Item, ctx: CtxView)
    ensures
        eval_items(items.push(item), ctx) == match eval_items(items, ctx) {
            Some(c) => item.eval(c),
            None => None,
        },
{
    assert(items.push(item).drop_last() =~= items);
}

/// The conjunction cuts short: where the left pipeline says no, the answer is
/// no whatever the right pipeline is, a host function in it or not. The right
/// pipeline is not run.
pub proof fn and_cuts_short(lhs: Pipeline, rhs: Pipeline, ctx: CtxView)
    requires
        ctx.is_valid(),
        lhs.eval(ctx) matches Some(l) && !l.validity.signal(),
    ensures
        (AndModifier { lhs, rhs }).eval(ctx) == Some(AndModifier::answered(ctx, false)),
{
}

/// The disjunction cuts short: where the left pipeline says yes, the answer is
/// yes whatever the right pipeline is, a host function in it or not. The right
/// pipeline is not run.
pub proof fn or_cuts_short(lhs: Pipeline, rhs: Pipeline, ctx: CtxView)
    requires
        ctx.is_valid(),
        lhs.eval(ctx) matches Some(l) && l.validity.signal(),
    ensures
        (OrModifier { lhs, rhs }).eval(ctx) == Some(AndModifier::answered(ctx, true)),
{
}

} // verus!

verus! {

/// Where no host function has a say in what an argument resolves to, it may
/// resolve to that value and to no other.
pub proof fn argument_resolves_to_one(argument: Argument, ctx: CtxView, value: ValueView)
    requires
        argument.resolved(ctx) is Some,
        argument.may_resolve(ctx, value),
    ensures
        argument.resolved(ctx) == Some(value),
    decreases argument,
{
    match argument {
        Argument::PipelineArgument(p) => {
            let out = choose|out: CtxView| p.yields(ctx, out) && #[trigger] out.leaves(value);
            pipeline_yields_one(p, ctx, out);
        },
        _ => {},
    }
}

/// Where no host function has a say in what an operation makes of a context,
/// it may leave that context and no other.
pub proof fn item_yields_one(item: Item, ctx: CtxView, out: CtxView)
    requires
        item.eval(ctx) is Some,
        item.yields(ctx, out),
    ensures
        item.eval(ctx) == Some(out),
    decreases item,
{
    if ctx.is_valid() {
        match item {
            Item::Truncate(m) => {
                let a = choose|a: ValueView|
                    m.argument.may_resolve(ctx, a) && out == #[trigger] TruncateModifier::outcome(
                        ctx,
                        a,
                    );
                argument_resolves_to_one(m.argument, ctx, a);
            },
            Item::Max(m) => {
                let a = choose|a: ValueView|
                    m.argument.may_resolve(ctx, a) && out == #[trigger] MaxModifier::outcome(
                        ctx,
                        a,
                    );
                argument_resolves_to_one(m.argument, ctx, a);
            },
            Item::Gte(m) => {
                let a = choose|a: ValueView|
                    m.argument.may_resolve(ctx, a) && out == #[trigger] GteModifier::outcome(
                        ctx,
                        a,
                    );
                argument_resolves_to_one(m.argument, ctx, a);
            },
            Item::Lte(m) => {
                let a = choose|a: ValueView|
                    m.argument.may_resolve(ctx, a) && out == #[trigger] LteModifier::outcome(
                        ctx,
                        a,
                    );
                argument_resolves_to_one(m.argument, ctx, a);
            },
            Item::MinLength(m) => {
                let a = choose|a: ValueView|
                    m.argument.may_resolve(ctx, a) && out
                        == #[trigger] MinLengthModifier::outcome(ctx, a);
                argument_resolves_to_one(m.argument, ctx, a);
            },
            Item::When(m) => {
                match ctx.object {
                    Some(o) => {
                        if o.action.passes_any(m.actions@) {
                            pipeline_yields_one(m.pipeline, ctx, out);
                        }
                    },
                    None => {},
                }
            },
            Item::If(m) => {
                let tested = choose|tested: CtxView|
                    m.condition.yields(ctx, tested) && if #[trigger] tested.validity.signal() {
                        m.when_true.yields(ctx, out)
                    } else {
                        m.when_false.yields(ctx, out)
                    };
                pipeline_yields_one(m.condition, ctx, tested);
                if tested.validity.signal() {
                    pipeline_yields_one(m.when_true, ctx, out);
                } else {
                    pipeline_yields_one(m.when_false, ctx, out);
                }
            },
            Item::And(m) => {
                let left = choose|left: CtxView|
                    m.lhs.yields(ctx, left) && if !(#[trigger] left.validity.signal()) {
                        out == AndModifier::answered(ctx, false)
                    } else {
                        exists|right: CtxView|
                            m.rhs.yields(ctx, right) && out == AndModifier::answered(
                                ctx,
                                #[trigger] right.validity.signal(),
                            )
                    };
                pipeline_yields_one(m.lhs, ctx, left);
                if left.validity.signal() {
                    let right = choose|right: CtxView|
                        m.rhs.yields(ctx, right) && out == AndModifier::answered(
                            ctx,
                            #[trigger] right.validity.signal(),
                        );
                    pipeline_yields_one(m.rhs, ctx, right);
                }
            },
            Item::Or(m) => {
                let left = choose|left: CtxView|
                    m.lhs.yields(ctx, left) && if #[trigger] left.validity.signal() {
                        out == AndModifier::answered(ctx, true)
                    } else {
                        exists|right: CtxView|
                            m.rhs.yields(ctx, right) && out == AndModifier::answered(
                                ctx,
                                #[trigger] right.validity.signal(),
                            )
                    };
                pipeline_yields_one(m.lhs, ctx, left);
                if !left.validity.signal() {
                    let right = choose|right: CtxView|
                        m.rhs.yields(ctx, right) && out == AndModifier::answered(
                            ctx,
                            #[trigger] right.validity.signal(),
                        );
                    pipeline_yields_one(m.rhs, ctx, right);
                }
            },
            Item::Do(m) => {
                let inner = choose|inner: CtxView|
                    m.pipeline.yields(ctx, inner) && out == #[trigger] DoModifier::outcome(
                        ctx,
                        inner.validity,
                    );
                pipeline_yields_one(m.pipeline, ctx, inner);
            },
            _ => {},
        }
    }
}

/// Where no host function has a say in what a list of operations makes of a
/// context, it may leave that context and no other.
pub proof fn items_yield_one(items: Seq<Item>, ctx: CtxView, out: CtxView)
    requires
        eval_items(items, ctx) is Some,
        items_yield(items, ctx, out),
    ensures
        eval_items(items, ctx) == Some(out),
    decreases items, items.len(),
{
    if items.len() > 0 {
        let mid = choose|mid: CtxView|
            #[trigger] mid.framed_like(ctx) && items_yield(items.drop_last(), ctx, mid)
                && items.last().yields(mid, out);
        items_yield_one(items.drop_last(), ctx, mid);
        item_yields_one(items.last(), mid, out);
    }
}

/// Where no host function has a say in what a pipeline makes of a context, the
/// pipeline may leave that context and no other: what [`Pipeline::yields`]
/// admits is then exactly what [`Pipeline::eval`] gives.
pub proof fn pipeline_yields_one(pipeline: Pipeline, ctx: CtxView, out: CtxView)
    requires
        pipeline.eval(ctx) is Some,
        pipeline.yields(ctx, out),
    ensures
        pipeline.eval(ctx) == Some(out),
    decreases pipeline,
{
    items_yield_one(pipeline.items@, ctx, out);
}

} // verus!
