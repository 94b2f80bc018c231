//! What saving guarantees: when it changes nothing, what it leaves alone, and
//! that it consults no default.
use vstd::prelude::*;
use crate::model::{Field, Model, field_place, field_place_is_first};
use crate::object::{
    ObjectView, Outcome, field_ctx, go, save_key, save_key_yields, save_step, saved, saved_yields,
    taken,
};
use crate::pipeline::ctx::CtxView;
use crate::pipeline::pipeline_yields_one;
use crate::pipeline::Pipeline;
use crate::value::ValueView;

verus! {

/// Whether the field under `key` has an on-save pipeline.
pub open spec fn piped(model: Model, key: Seq<char>) -> bool {
    match model.field_of(key) {
        Some(field) => field.on_save_pipeline.items@.len() > 0,
        None => false,
    }
}

/// Whether `pipeline`, run on the value stored under `key`, lets the value
/// stand and leaves it as it is.
pub open spec fn keeps_value(pipeline: Pipeline, state: ObjectView, key: Seq<char>) -> bool {
    match pipeline.eval(field_ctx(state, key, state.stored(key))) {
        Some(out) => out.validity is Valid && out.value == state.stored(key),
        None => false,
    }
}

/// Whether saving has no effect on the field under `key`: the field is there,
/// and its on-save pipeline, if it has one, lets every stored value stand and
/// leaves it as it is, whatever the record holds.
pub open spec fn keeps_on_save(model: Model, key: Seq<char>) -> bool {
    match model.field_of(key) {
        Some(field) => field.on_save_pipeline.items@.len() == 0 || forall|state: ObjectView|
            #[trigger] keeps_value(field.on_save_pipeline, state, key),
        None => false,
    }
}

/// Saving, where it has no effect on any field, goes through and changes no
/// stored value; it stores null where a field with a pipeline held nothing.
proof fn save_without_effect(model: Model, state: ObjectView, keys: Seq<String>, n: int)
    requires
        0 <= n <= keys.len(),
        forall|i: int| 0 <= i < keys.len() ==> keeps_on_save(model, (#[trigger] keys[i])@),
    ensures
        saved(model, state, keys, n) matches Some(o) && o.error is None && (forall|k: Seq<char>|
            o.state.stored(k) == state.stored(k)) && (forall|i: int|
            0 <= i < n && piped(model, (#[trigger] keys[i])@) ==> o.state.value_map.contains_key(
                keys[i]@,
            )) && (forall|k: Seq<char>|
            state.value_map.contains_key(k) ==> o.state.value_map.contains_key(k)),
    decreases n,
{
    if n > 0 {
        save_without_effect(model, state, keys, n - 1);
        let before = saved(model, state, keys, n - 1)->0.state;
        let key = keys[n - 1]@;
        assert(keeps_on_save(model, keys[n - 1]@));
        let field = model.field_of(key)->0;
        if field.on_save_pipeline.items@.len() > 0 {
            assert(keeps_value(field.on_save_pipeline, before, key));
        }
    }
}

/// Saving a record that holds a value for every field with a pipeline, where
/// saving has no effect on any field, leaves the stored values exactly as they
/// are.
proof fn save_again_without_effect(model: Model, state: ObjectView, keys: Seq<String>, n: int)
    requires
        0 <= n <= keys.len(),
        forall|i: int| 0 <= i < keys.len() ==> keeps_on_save(model, (#[trigger] keys[i])@),
        forall|i: int|
            0 <= i < keys.len() && piped(model, (#[trigger] keys[i])@)
                ==> state.value_map.contains_key(keys[i]@),
    ensures
        saved(model, state, keys, n) matches Some(o) && o.error is None && o.state.value_map
            == state.value_map,
    decreases n,
{
    if n > 0 {
        save_again_without_effect(model, state, keys, n - 1);
        let before = saved(model, state, keys, n - 1)->0.state;
        let key = keys[n - 1]@;
        assert(keeps_on_save(model, keys[n - 1]@));
        let field = model.field_of(key)->0;
        if field.on_save_pipeline.items@.len() > 0 {
            assert(keeps_value(field.on_save_pipeline, before, key));
            assert(piped(model, keys[n - 1]@));
            assert(before.value_map.insert(key, before.value_map[key]) =~= before.value_map);
        }
    }
}

/// Saving twice stores the same values both times, where saving has no effect
/// on any field: where every on-save pipeline lets every stored value stand and
/// leaves it as it is. Both calls go through, the first changes no stored
/// value, and the second leaves the stored values exactly as the first left
/// them.
pub proof fn save_twice_stores_the_same(model: Model, state: ObjectView)
    requires
        forall|i: int|
            0 <= i < model.save_keys@.len() ==> keeps_on_save(
                model,
                (#[trigger] model.save_keys@[i])@,
            ),
    ensures
        ({
            let keys = model.save_keys@;
            let n = keys.len() as int;
            &&& saved(model, state, keys, n) matches Some(first)
            &&& first.error is None
            &&& forall|k: Seq<char>| first.state.stored(k) == state.stored(k)
            &&& saved(model, first.state, keys, n) matches Some(second)
            &&& second.error is None
            &&& second.state.value_map == first.state.value_map
        }),
{
    let keys = model.save_keys@;
    let n = keys.len() as int;
    save_without_effect(model, state, keys, n);
    let first = saved(model, state, keys, n)->0;
    save_again_without_effect(model, first.state, keys, n);
}

/// Saving leaves alone every field without on-save pipeline: what is stored
/// under its key, and whether anything is, stays as it was. No default is
/// consulted.
pub proof fn save_leaves_unpiped(
    model: Model,
    state: ObjectView,
    keys: Seq<String>,
    n: int,
    key: Seq<char>,
)
    requires
        !piped(model, key),
    ensures
        saved(model, state, keys, n) matches Some(o) ==> o.state.value_map.contains_key(key)
            == state.value_map.contains_key(key) && o.state.stored(key) == state.stored(key),
    decreases n,
{
    if n > 0 {
        save_leaves_unpiped(model, state, keys, n - 1, key);
    }
}

/// A field that was cleared is not given its default again: after null was
/// written under the key of a field without on-save pipeline, saving leaves
/// null there, whatever default the field declares.
pub proof fn cleared_field_stays_cleared(model: Model, state: ObjectView, key: Seq<char>)
    requires
        !piped(model, key),
    ensures
        saved(
            model,
            state.written(key, ValueView::Null),
            model.save_keys@,
            model.save_keys@.len() as int,
        ) matches Some(o) ==> o.state.value_map.contains_key(key) && o.state.value_map[key]
            == ValueView::Null,
{
    save_leaves_unpiped(
        model,
        state.written(key, ValueView::Null),
        model.save_keys@,
        model.save_keys@.len() as int,
        key,
    );
}

/// Whether the on-save pipeline of the field under `key`, run on what the
/// record `state` stores there, lets the value stand and leaves `value`.
pub open spec fn leaves_on_save(model: Model, state: ObjectView, key: Seq<char>, value: ValueView) -> bool {
    match model.field_of(key) {
        Some(field) => match field.on_save_pipeline.eval(
            field_ctx(state, key, state.stored(key)),
        ) {
            Some(out) => out.validity is Valid && out.value == value,
            None => false,
        },
        None => false,
    }
}

/// Whether `pipeline` lets through again, in the record `second`, what it left
/// in the record `first`: no host function has a say in what it makes of the
/// value that `first` stores under `key`, and where it lets that value stand and
/// `second` stores what it left, it lets that stand too and leaves it as it
/// is.
pub open spec fn lets_through_again(
    pipeline: Pipeline,
    first: ObjectView,
    second: ObjectView,
    key: Seq<char>,
) -> bool {
    match pipeline.eval(field_ctx(first, key, first.stored(key))) {
        Some(out) => out.validity is Valid && second.stored(key) == out.value ==> keeps_value(
            pipeline,
            second,
            key,
        ),
        None => false,
    }
}

/// Whether saving settles the field under `key`: the field is there, and its
/// on-save pipeline, if it has one, lets through again what it left, whatever
/// the records hold.
pub open spec fn settles_on_save(model: Model, key: Seq<char>) -> bool {
    match model.field_of(key) {
        Some(field) => field.on_save_pipeline.items@.len() == 0 || forall|
            first: ObjectView,
            second: ObjectView,
        | #[trigger] lets_through_again(field.on_save_pipeline, first, second, key),
        None => false,
    }
}

/// Whether the record `state` holds, for each of the first `n` of `keys` that
/// has an on-save pipeline, a value that the pipeline left, and counts as
/// modified in that field if it is not new.
pub open spec fn holds_saved(model: Model, keys: Seq<String>, n: int, state: ObjectView) -> bool {
    forall|j: int|
        0 <= j < n && piped(model, (#[trigger] keys[j])@) ==> {
            &&& state.value_map.contains_key(keys[j]@)
            &&& exists|from: ObjectView| #[trigger]
                leaves_on_save(model, from, keys[j]@, state.value_map[keys[j]@])
            &&& !state.is_new ==> state.is_modified && state.modified_fields.contains(keys[j]@)
        }
}

/// After a save that went through, the record holds what the pipelines left.
proof fn save_leaves_saved(model: Model, state: ObjectView, keys: Seq<String>, n: int)
    requires
        0 <= n <= keys.len(),
        saved(model, state, keys, n) matches Some(o) && o.error is None,
    ensures
        holds_saved(model, keys, n, saved(model, state, keys, n)->0.state),
    decreases n,
{
    if n > 0 {
        let before = saved(model, state, keys, n - 1)->0;
        save_leaves_saved(model, state, keys, n - 1);
        let after = saved(model, state, keys, n)->0.state;
        let key = keys[n - 1]@;
        assert forall|j: int| 0 <= j < n && piped(model, (#[trigger] keys[j])@) implies {
            &&& after.value_map.contains_key(keys[j]@)
            &&& exists|from: ObjectView| #[trigger]
                leaves_on_save(model, from, keys[j]@, after.value_map[keys[j]@])
            &&& !after.is_new ==> after.is_modified && after.modified_fields.contains(keys[j]@)
        } by {
            if keys[j]@ == key {
                assert(leaves_on_save(model, before.state, key, after.value_map[key]));
            } else {
                let from = choose|from: ObjectView| #[trigger]
                    leaves_on_save(model, from, keys[j]@, before.state.value_map[keys[j]@]);
                assert(leaves_on_save(model, from, keys[j]@, after.value_map[keys[j]@]));
            }
        }
    }
}

/// Saving a record that holds what the pipelines left leaves it exactly as it
/// is, where saving settles every field.
proof fn save_of_saved(model: Model, state: ObjectView, keys: Seq<String>, n: int)
    requires
        0 <= n <= keys.len(),
        forall|i: int| 0 <= i < keys.len() ==> settles_on_save(model, (#[trigger] keys[i])@),
        holds_saved(model, keys, keys.len() as int, state),
    ensures
        saved(model, state, keys, n) == Some(go(state)),
    decreases n,
{
    if n > 0 {
        save_of_saved(model, state, keys, n - 1);
        let key = keys[n - 1]@;
        assert(settles_on_save(model, keys[n - 1]@));
        let field = model.field_of(key)->0;
        if field.on_save_pipeline.items@.len() > 0 {
            assert(piped(model, keys[n - 1]@));
            let from = choose|from: ObjectView| #[trigger]
                leaves_on_save(model, from, key, state.value_map[key]);
            assert(lets_through_again(field.on_save_pipeline, from, state, key));
            assert(keeps_value(field.on_save_pipeline, state, key));
            let again = state.written(key, state.stored(key));
            assert(again.value_map =~= state.value_map);
            assert(again.modified_fields =~= state.modified_fields);
            assert(again == state);
        }
    }
}

/// Saving again changes nothing. After a save that went through, a second save
/// goes through and leaves the record exactly as the first left it, stored
/// values and all, where saving settles every field: where every on-save
/// pipeline is free of host functions and lets through again, unchanged, what
/// it once left.
pub proof fn save_again_changes_nothing(model: Model, state: ObjectView)
    requires
        forall|i: int|
            0 <= i < model.save_keys@.len() ==> settles_on_save(
                model,
                (#[trigger] model.save_keys@[i])@,
            ),
        saved(model, state, model.save_keys@, model.save_keys@.len() as int) matches Some(first)
            && first.error is None,
    ensures
        ({
            let keys = model.save_keys@;
            let n = keys.len() as int;
            let first = saved(model, state, keys, n)->0;
            saved(model, first.state, keys, n) == Some(go(first.state))
        }),
{
    let keys = model.save_keys@;
    let n = keys.len() as int;
    save_leaves_saved(model, state, keys, n);
    save_of_saved(model, saved(model, state, keys, n)->0.state, keys, n);
}

/// Whether two models have the same fields but for their defaults, the types of
/// their values and their on-set pipelines: as many fields, each of the same
/// name and with the same on-save pipeline as the field at its place in the
/// other model.
pub open spec fn same_on_save(a: Model, b: Model) -> bool {
    &&& a.fields@.len() == b.fields@.len()
    &&& forall|i: int|
        0 <= i < a.fields@.len() ==> (#[trigger] a.fields@[i]).name@ == b.fields@[i].name@
            && a.fields@[i].on_save_pipeline == b.fields@[i].on_save_pipeline
}

/// Fields of the same names stand at the same places.
proof fn same_names_same_places(
    a: Seq<Field>,
    b: Seq<Field>,
    key: Seq<char>,
)
    requires
        a.len() == b.len(),
        forall|i: int| 0 <= i < a.len() ==> (#[trigger] a[i]).name@ == b[i].name@,
    ensures
        field_place(a, key) == field_place(b, key),
    decreases a.len(),
{
    if a.len() > 0 {
        assert(a[0].name@ == b[0].name@);
        if a[0].name@ != key {
            let x = a.skip(1);
            let y = b.skip(1);
            assert forall|i: int| 0 <= i < x.len() implies (#[trigger] x[i]).name@ == y[i].name@ by {
                assert(a[i + 1].name@ == b[i + 1].name@);
            }
            same_names_same_places(x, y, key);
        }
    }
}

/// Saving consults no default: what it does to a record is the same under two
/// models that differ in the defaults of their fields only. A field that was
/// given its default once is not given it again by a save, whatever it holds by
/// then.
pub proof fn save_consults_no_default(
    a: Model,
    b: Model,
    state: ObjectView,
    keys: Seq<String>,
    n: int,
)
    requires
        same_on_save(a, b),
    ensures
        saved(a, state, keys, n) == saved(b, state, keys, n),
    decreases n,
{
    if n > 0 {
        save_consults_no_default(a, b, state, keys, n - 1);
        let key = keys[n - 1]@;
        same_names_same_places(a.fields@, b.fields@, key);
        let i = field_place(a.fields@, key);
        field_place_is_first(a.fields@, key);
        if i < a.fields@.len() {
            assert(a.fields@[i].on_save_pipeline == b.fields@[i].on_save_pipeline);
        }
    }
}

/// Where no host function has a say in the saving of a key, it may end in that
/// one outcome and in no other.
pub proof fn save_key_yields_one(model: Model, state: ObjectView, key: Seq<char>, o: Outcome)
    requires
        save_key(model, state, key) is Some,
        save_key_yields(model, state, key, o),
    ensures
        save_key(model, state, key) == Some(o),
{
    if piped(model, key) {
        let field = model.field_of(key)->0;
        let ctx = field_ctx(state, key, state.stored(key));
        let out = choose|out: CtxView|
            field.on_save_pipeline.yields(ctx, out) && o == #[trigger] taken(state, key, out);
        pipeline_yields_one(field.on_save_pipeline, ctx, out);
    }
}

/// Where no host function has a say in a save, the save may end in the one
/// outcome of [`saved`] and in no other: what [`saved_yields`] admits is then
/// exactly what [`saved`] gives.
pub proof fn saved_yields_one(
    model: Model,
    state: ObjectView,
    keys: Seq<String>,
    n: int,
    o: Outcome,
)
    requires
        saved(model, state, keys, n) is Some,
        saved_yields(model, state, keys, n, o),
    ensures
        saved(model, state, keys, n) == Some(o),
    decreases n,
{
    if n > 0 {
        let before = choose|before: Outcome|
            saved_yields(model, state, keys, n - 1, before) && #[trigger] save_step(
                model,
                before,
                keys[n - 1]@,
                o,
            );
        saved_yields_one(model, state, keys, n - 1, before);
        if before.error is None {
            save_key_yields_one(model, before.state, keys[n - 1]@, o);
        }
    }
}

} // verus!
