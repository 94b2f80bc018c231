//! What assignment from input guarantees: that a record takes its defaults
//! once, and that a key which is not allowed touches nothing.
use vstd::prelude::*;
use crate::error::ActionErrorView;
use crate::json::{JsonView, json_has};
use crate::model::Model;
use crate::json::{decoded, json_get};
use crate::object::{
    ObjectView, Outcome, allowed_keys, assign_key, assign_key_yields, assign_step, assigned,
    assigned_keys, assigned_keys_yield, assigned_yields, default_may_be, default_of,
    defaulted_to, entry_keys, field_ctx, has_unallowed_key, keys_allowed, made_initial, settled,
    stop, taken,
};
use crate::pipeline::ctx::CtxView;
use crate::pipeline::{Argument, pipeline_yields_one};
use crate::text::texts;
use crate::value::ValueView;

verus! {

/// Assignment from an input without `key` leaves the field under `key` alone
/// where the record was assigned before.
proof fn assignment_leaves_unnamed(
    model: Model,
    state: ObjectView,
    entries: Seq<(Seq<char>, JsonView)>,
    n: int,
    validate: bool,
    key: Seq<char>,
)
    requires
        n <= entries.len(),
        !json_has(entries, key),
    ensures
        assigned_keys(model, state, entries, entry_keys(entries), n, validate) matches Some(o)
            ==> o.state.value_map.contains_key(key) == state.value_map.contains_key(key)
            && o.state.stored(key) == state.stored(key),
    decreases n,
{
    if n > 0 {
        assignment_leaves_unnamed(model, state, entries, n - 1, validate, key);
        assert(entries[n - 1].0 != key);
        assert(entry_keys(entries)[n - 1] == entries[n - 1].0);
    }
}

/// Defaults are applied once: a record that was assigned before takes no
/// default. An assignment touches the fields that its input names; a field that
/// the input does not name keeps what it holds, be it null, and stays empty
/// where it held nothing.
pub proof fn initialized_record_takes_no_default(
    model: Model,
    state: ObjectView,
    json: JsonView,
    validate: bool,
    key: Seq<char>,
)
    requires
        state.is_initialized,
        json matches JsonView::Object(entries) && !json_has(entries, key),
    ensures
        assigned(model, state, json, validate) matches Some(o)
            ==> o.state.value_map.contains_key(key) == state.value_map.contains_key(key)
            && o.state.stored(key) == state.stored(key),
{
    let entries = json->Object_0;
    assignment_leaves_unnamed(model, state, entries, entries.len() as int, validate, key);
    assert(entry_keys(entries).len() == entries.len());
}

/// A key that the model does not allow fails the whole assignment before any
/// field is touched: the record is left as it was.
pub proof fn unallowed_key_touches_nothing(
    model: Model,
    state: ObjectView,
    json: JsonView,
    validate: bool,
)
    requires
        has_unallowed_key(json, allowed_keys(model, validate)),
    ensures
        assigned(model, state, json, validate) == Some(
            stop(state, ActionErrorView::KeysUnallowed),
        ),
{
}

/// Where no host function has a say in a default, it may come to that one
/// value or error and to no other.
pub proof fn default_may_be_one(
    argument: Argument,
    state: ObjectView,
    key: Seq<char>,
    d: Result<ValueView, ActionErrorView>,
)
    requires
        default_of(argument, state, key) is Some,
        default_may_be(argument, state, key, d),
    ensures
        default_of(argument, state, key) == Some(d),
{
    match argument {
        Argument::PipelineArgument(p) => {
            let ctx = field_ctx(state, key, ValueView::Null);
            let out = choose|out: CtxView| p.yields(ctx, out) && d == #[trigger] settled(out, key);
            pipeline_yields_one(p, ctx, out);
        },
        _ => {},
    }
}

/// Where no host function has a say in the assignment of a key, it may end in
/// that one outcome and in no other.
pub proof fn assign_key_yields_one(
    model: Model,
    state: ObjectView,
    entries: Seq<(Seq<char>, JsonView)>,
    key: Seq<char>,
    validate: bool,
    o: Outcome,
)
    requires
        assign_key(model, state, entries, key, validate) is Some,
        assign_key_yields(model, state, entries, key, validate, o),
    ensures
        assign_key(model, state, entries, key, validate) == Some(o),
{
    match model.field_of(key) {
        Some(field) => match json_get(entries, key) {
            Some(json) => match decoded(field.field_type, json) {
                Some(value) => {
                    if validate {
                        let ctx = field_ctx(state, key, value);
                        let out = choose|out: CtxView|
                            field.on_set_pipeline.yields(ctx, out) && o == #[trigger] taken(
                                state,
                                key,
                                out,
                            );
                        pipeline_yields_one(field.on_set_pipeline, ctx, out);
                    }
                },
                None => {},
            },
            None => {
                if !state.is_initialized && state.is_new {
                    match field.default {
                        Some(argument) => {
                            let d = choose|d: Result<ValueView, ActionErrorView>|
                                default_may_be(argument, state, key, d) && o
                                    == #[trigger] defaulted_to(state, key, d);
                            default_may_be_one(argument, state, key, d);
                        },
                        None => {},
                    }
                }
            },
        },
        None => {},
    }
}

/// Where no host function has a say in the assignment of some keys, it may end
/// in that one outcome and in no other.
pub proof fn assigned_keys_yield_one(
    model: Model,
    state: ObjectView,
    entries: Seq<(Seq<char>, JsonView)>,
    keys: Seq<Seq<char>>,
    n: int,
    validate: bool,
    o: Outcome,
)
    requires
        assigned_keys(model, state, entries, keys, n, validate) is Some,
        assigned_keys_yield(model, state, entries, keys, n, validate, o),
    ensures
        assigned_keys(model, state, entries, keys, n, validate) == Some(o),
    decreases n,
{
    if n > 0 {
        let before = choose|before: Outcome|
            assigned_keys_yield(model, state, entries, keys, n - 1, validate, before)
                && #[trigger] assign_step(model, before, entries, keys[n - 1], validate, o);
        assigned_keys_yield_one(model, state, entries, keys, n - 1, validate, before);
        if before.error is None {
            assign_key_yields_one(model, before.state, entries, keys[n - 1], validate, o);
        }
    }
}

/// Where no host function has a say in an assignment, the assignment may end in
/// the one outcome of [`assigned`] and in no other: what [`assigned_yields`]
/// admits is then exactly what [`assigned`] gives.
pub proof fn assigned_yields_one(
    model: Model,
    state: ObjectView,
    json: JsonView,
    validate: bool,
    o: Outcome,
)
    requires
        assigned(model, state, json, validate) is Some,
        assigned_yields(model, state, json, validate, o),
    ensures
        assigned(model, state, json, validate) == Some(o),
{
    match json {
        JsonView::Object(entries) => {
            let allowed = allowed_keys(model, validate);
            if keys_allowed(entries, allowed) {
                let keys = if state.is_initialized {
                    entry_keys(entries)
                } else {
                    texts(allowed)
                };
                let mid = choose|mid: Outcome|
                    assigned_keys_yield(
                        model,
                        state,
                        entries,
                        keys,
                        keys.len() as int,
                        validate,
                        mid,
                    ) && o == #[trigger] made_initial(mid);
                assigned_keys_yield_one(
                    model,
                    state,
                    entries,
                    keys,
                    keys.len() as int,
                    validate,
                    mid,
                );
            }
        },
        _ => {},
    }
}

} // verus!
