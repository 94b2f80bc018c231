//! A record: the values of its fields and the state of its life cycle.
//!
//! A record is made empty and new. Its first assignment from input runs every
//! supplied value through the on-set pipeline of its field and gives every other
//! field of a new record its default. Saving runs the stored value of every
//! field through the on-save pipeline of the field.
pub mod assigning;

pub mod saving;

use vstd::prelude::*;
use crate::action::Action;
use crate::collections::{KeySet, ValueMap, contains_key, has_key, keys_of};
use crate::error::{ActionError, ActionErrorView, misplaced_condition, missing_field};
use crate::json::{Json, JsonView, decoded, json_get, json_has, json_place_is_first};
use crate::model::Model;
use crate::pipeline::Argument;
use crate::pipeline::items::transform::{answers, ask};
use crate::pipeline::ctx::{Ctx, CtxView, PathItem, PathItemView, Validity, ValidityView, path_view};
use crate::text::texts;
use crate::value::{Value, ValueView};

verus! {

/// A record of a model.
pub struct Object<'a> {
    pub model: &'a Model,
    pub action: Action,
    pub is_initialized: bool,
    pub is_new: bool,
    pub is_modified: bool,
    pub is_partial: bool,
    pub is_deleted: bool,
    pub selected_fields: KeySet,
    pub modified_fields: KeySet,
    pub previous_values: ValueMap,
    pub value_map: ValueMap,
}

/// The mathematical content of an [`Object`], its model left aside.
pub struct ObjectView {
    pub action: Action,
    pub is_initialized: bool,
    pub is_new: bool,
    pub is_modified: bool,
    pub is_partial: bool,
    pub is_deleted: bool,
    pub selected_fields: Set<Seq<char>>,
    pub modified_fields: Set<Seq<char>>,
    pub previous_values: Map<Seq<char>, ValueView>,
    pub value_map: Map<Seq<char>, ValueView>,
}

impl<'a> View for Object<'a> {
    type V = ObjectView;

    open spec fn view(&self) -> ObjectView {
        ObjectView {
            action: self.action,
            is_initialized: self.is_initialized,
            is_new: self.is_new,
            is_modified: self.is_modified,
            is_partial: self.is_partial,
            is_deleted: self.is_deleted,
            selected_fields: self.selected_fields@,
            modified_fields: self.modified_fields@,
            previous_values: self.previous_values@,
            value_map: self.value_map@,
        }
    }
}

/// Where a piece of work on a record got to: the state of the record, and the
/// error that stopped the work, if one did.
pub struct Outcome {
    pub state: ObjectView,
    pub error: Option<ActionErrorView>,
}

/// The work goes on from `state`.
pub open spec fn go(state: ObjectView) -> Outcome {
    Outcome { state, error: None }
}

/// The work stops at `state` on `error`.
pub open spec fn stop(state: ObjectView, error: ActionErrorView) -> Outcome {
    Outcome { state, error: Some(error) }
}

impl ObjectView {
    /// The record as it is made: new, with nothing set, selected or modified.
    pub open spec fn fresh() -> ObjectView {
        ObjectView {
            action: Action { value: 0 },
            is_initialized: false,
            is_new: true,
            is_modified: false,
            is_partial: false,
            is_deleted: false,
            selected_fields: Set::empty(),
            modified_fields: Set::empty(),
            previous_values: Map::empty(),
            value_map: Map::empty(),
        }
    }

    /// The value stored under `key`, null where none is.
    pub open spec fn stored(self, key: Seq<char>) -> ValueView {
        if self.value_map.contains_key(key) {
            self.value_map[key]
        } else {
            ValueView::Null
        }
    }

    /// The record after `value` was written under `key`: the value is stored,
    /// and a record that is not new counts as modified, in this field.
    pub open spec fn written(self, key: Seq<char>, value: ValueView) -> ObjectView {
        ObjectView {
            value_map: self.value_map.insert(key, value),
            is_modified: !self.is_new || self.is_modified,
            modified_fields: if self.is_new {
                self.modified_fields
            } else {
                self.modified_fields.insert(key)
            },
            ..self
        }
    }

    /// Whether the record is `old` but for the stored values and the marks of
    /// modification: whether all that neither writing nor saving touches is as
    /// it is in `old`.
    pub open spec fn rewritten_from(self, old: ObjectView) -> bool {
        &&& self.action == old.action
        &&& self.is_initialized == old.is_initialized
        &&& self.is_new == old.is_new
        &&& self.is_partial == old.is_partial
        &&& self.is_deleted == old.is_deleted
        &&& self.selected_fields == old.selected_fields
        &&& self.previous_values == old.previous_values
    }

    /// The record after the default `value` was stored under `key`.
    pub open spec fn defaulted(self, key: Seq<char>, value: ValueView) -> ObjectView {
        ObjectView { value_map: self.value_map.insert(key, value), ..self }
    }
}

/// The context in which the pipeline of the field `key` starts on `value`: the
/// value stands, the path leads to the field, the record is attached and the
/// action is that of the record.
pub open spec fn field_ctx(state: ObjectView, key: Seq<char>, value: ValueView) -> CtxView {
    CtxView {
        value,
        validity: ValidityView::Valid,
        path: seq![PathItemView::Key(key)],
        object: Some(state),
        action: state.action,
    }
}

/// What the record layer takes from the context that the pipeline of the field
/// `key` left: the value where it stands, a validation failure at the field
/// where it was refused, and an inconsistency where a condition signal was
/// left over.
pub open spec fn settled(out: CtxView, key: Seq<char>) -> Result<ValueView, ActionErrorView> {
    match out.validity {
        ValidityView::Valid => Ok(out.value),
        ValidityView::Invalid(reason) => Err(
            ActionErrorView::ValidationFailed { path: seq![PathItemView::Key(key)], reason },
        ),
        _ => Err(ActionErrorView::InternalInconsistency { reason: misplaced_condition() }),
    }
}

/// What saving does for the one key `key`.
///
/// A field with an on-save pipeline has its stored value, or null, run through
/// it; what the pipeline leaves is written back. A field without one is left
/// alone. `None` where a host function has a say in it.
pub open spec fn save_key(model: Model, state: ObjectView, key: Seq<char>) -> Option<Outcome> {
    match model.field_of(key) {
        None => Some(
            stop(state, ActionErrorView::InternalInconsistency { reason: missing_field() }),
        ),
        Some(field) => if field.on_save_pipeline.items@.len() == 0 {
            Some(go(state))
        } else {
            match field.on_save_pipeline.eval(field_ctx(state, key, state.stored(key))) {
                None => None,
                Some(out) => match settled(out, key) {
                    Ok(value) => Some(go(state.written(key, value))),
                    Err(error) => Some(stop(state, error)),
                },
            }
        },
    }
}

/// What saving does for the first `n` of `keys`, one after the other, up to the
/// first that fails. What was written before a failure stays written.
pub open spec fn saved(model: Model, state: ObjectView, keys: Seq<String>, n: int) -> Option<
    Outcome,
>
    decreases n,
{
    if n <= 0 {
        Some(go(state))
    } else {
        match saved(model, state, keys, n - 1) {
            None => None,
            Some(before) => if before.error is Some {
                Some(before)
            } else {
                save_key(model, before.state, keys[n - 1]@)
            },
        }
    }
}

/// The default that `argument` gives the field `key`. `None` where a host
/// function has a say in it.
pub open spec fn default_of(argument: Argument, state: ObjectView, key: Seq<char>) -> Option<
    Result<ValueView, ActionErrorView>,
> {
    match argument {
        Argument::ValueArgument(v) => Some(Ok(v@)),
        Argument::PipelineArgument(p) => match p.eval(field_ctx(state, key, ValueView::Null)) {
            None => None,
            Some(out) => Some(settled(out, key)),
        },
        Argument::FunctionArgument(_) => None,
    }
}

/// What assignment from the JSON object with `entries` does for the one key
/// `key`.
///
/// Where the input holds the key, its entry is read as a value of the type of
/// the field, run through the on-set pipeline if `validate` says so, and
/// written. Where it does not, a new record that was never assigned gets the
/// default of the field. `None` where a host function has a say in it.
pub open spec fn assign_key(
    model: Model,
    state: ObjectView,
    entries: Seq<(Seq<char>, JsonView)>,
    key: Seq<char>,
    validate: bool,
) -> Option<Outcome> {
    match model.field_of(key) {
        None => Some(
            stop(state, ActionErrorView::InternalInconsistency { reason: missing_field() }),
        ),
        Some(field) => match json_get(entries, key) {
            Some(json) => match decoded(field.field_type, json) {
                None => Some(
                    stop(
                        state,
                        ActionErrorView::TypeMismatch { path: seq![PathItemView::Key(key)] },
                    ),
                ),
                Some(value) => if validate {
                    match field.on_set_pipeline.eval(field_ctx(state, key, value)) {
                        None => None,
                        Some(out) => match settled(out, key) {
                            Ok(v) => Some(go(state.written(key, v))),
                            Err(error) => Some(stop(state, error)),
                        },
                    }
                } else {
                    Some(go(state.written(key, value)))
                },
            },
            None => if !state.is_initialized && state.is_new {
                match field.default {
                    None => Some(go(state)),
                    Some(argument) => match default_of(argument, state, key) {
                        None => None,
                        Some(Ok(value)) => Some(go(state.defaulted(key, value))),
                        Some(Err(error)) => Some(stop(state, error)),
                    },
                }
            } else {
                Some(go(state))
            },
        },
    }
}

/// What assignment does for the first `n` of `keys`, one after the other, up to
/// the first that fails.
pub open spec fn assigned_keys(
    model: Model,
    state: ObjectView,
    entries: Seq<(Seq<char>, JsonView)>,
    keys: Seq<Seq<char>>,
    n: int,
    validate: bool,
) -> Option<Outcome>
    decreases n,
{
    if n <= 0 {
        Some(go(state))
    } else {
        match assigned_keys(model, state, entries, keys, n - 1, validate) {
            None => None,
            Some(before) => if before.error is Some {
                Some(before)
            } else {
                assign_key(model, before.state, entries, keys[n - 1], validate)
            },
        }
    }
}

/// The keys of `entries`, in order.
pub open spec fn entry_keys(entries: Seq<(Seq<char>, JsonView)>) -> Seq<Seq<char>> {
    Seq::new(entries.len(), |i: int| entries[i].0)
}

/// Whether every key of `entries` is among `allowed`.
pub open spec fn keys_allowed(entries: Seq<(Seq<char>, JsonView)>, allowed: Seq<String>) -> bool {
    forall|i: int| 0 <= i < entries.len() ==> has_key(allowed, (#[trigger] entries[i]).0)
}

/// Whether `json` is an object with a key that is not among `allowed`.
pub open spec fn has_unallowed_key(json: JsonView, allowed: Seq<String>) -> bool {
    match json {
        JsonView::Object(entries) => !keys_allowed(entries, allowed),
        _ => false,
    }
}

/// Whether `r` is the failure on a key that the model does not allow.
pub open spec fn is_keys_unallowed(r: Result<(), ActionError>) -> bool {
    match r {
        Err(e) => e@ == ActionErrorView::KeysUnallowed,
        Ok(_) => false,
    }
}

/// The keys that an assignment may touch: the input keys of the model where the
/// input is validated, its save keys where it is not.
pub open spec fn allowed_keys(model: Model, validate: bool) -> Seq<String> {
    if validate {
        model.input_keys@
    } else {
        model.save_keys@
    }
}

/// What assignment from `json` does to a record.
///
/// The input must be an object, and each of its keys among the allowed keys:
/// else nothing is touched. A record that was never assigned goes through the
/// allowed keys in the order of the model; one that was goes through the keys of
/// the input. Where all goes well the record counts as initialized. `None`
/// where a host function has a say in it.
pub open spec fn assigned(model: Model, state: ObjectView, json: JsonView, validate: bool) -> Option<
    Outcome,
> {
    match json {
        JsonView::Object(entries) => {
            let allowed = allowed_keys(model, validate);
            if !keys_allowed(entries, allowed) {
                Some(stop(state, ActionErrorView::KeysUnallowed))
            } else {
                let keys = if state.is_initialized {
                    entry_keys(entries)
                } else {
                    texts(allowed)
                };
                match assigned_keys(model, state, entries, keys, keys.len() as int, validate) {
                    None => None,
                    Some(o) => if o.error is Some {
                        Some(o)
                    } else {
                        Some(go(ObjectView { is_initialized: true, ..o.state }))
                    },
                }
            }
        },
        _ => Some(stop(state, ActionErrorView::TypeMismatch { path: Seq::empty() })),
    }
}

/// Where saving has an outcome for `n` keys, it has one for fewer.
pub proof fn saved_prefix(model: Model, state: ObjectView, keys: Seq<String>, n: int, m: int)
    requires
        m <= n,
    ensures
        saved(model, state, keys, n) is Some ==> saved(model, state, keys, m) is Some,
    decreases n - m,
{
    if m < n && n > 0 {
        saved_prefix(model, state, keys, n - 1, m);
    }
}

/// Where assignment has an outcome for `n` keys, it has one for fewer.
pub proof fn assigned_prefix(
    model: Model,
    state: ObjectView,
    entries: Seq<(Seq<char>, JsonView)>,
    keys: Seq<Seq<char>>,
    n: int,
    m: int,
    validate: bool,
)
    requires
        m <= n,
    ensures
        assigned_keys(model, state, entries, keys, n, validate) is Some ==> assigned_keys(
            model,
            state,
            entries,
            keys,
            m,
            validate,
        ) is Some,
    decreases n - m,
{
    if m < n && n > 0 {
        assigned_prefix(model, state, entries, keys, n - 1, m, validate);
    }
}

/// How a call on a record ended: the state in which it left the record, and the
/// error that it returned, if it returned one.
pub open spec fn ended(state: ObjectView, result: Result<(), ActionError>) -> Outcome {
    Outcome {
        state,
        error: match result {
            Ok(_) => None,
            Err(e) => Some(e@),
        },
    }
}

/// What the record layer makes of the context `out` that the pipeline of the
/// field `key` left: the value is written where it stands, and the work stops
/// where it does not.
pub open spec fn taken(state: ObjectView, key: Seq<char>, out: CtxView) -> Outcome {
    match settled(out, key) {
        Ok(value) => go(state.written(key, value)),
        Err(error) => stop(state, error),
    }
}

/// Whether saving the one key `key` may end in `o`. Where no host function has
/// a say, that is the one outcome of [`save_key`]; where one has, it is what
/// comes of a context that the on-save pipeline may leave.
pub open spec fn save_key_yields(model: Model, state: ObjectView, key: Seq<char>, o: Outcome) -> bool {
    match model.field_of(key) {
        None => o == stop(
            state,
            ActionErrorView::InternalInconsistency { reason: missing_field() },
        ),
        Some(field) => if field.on_save_pipeline.items@.len() == 0 {
            o == go(state)
        } else {
            exists|out: CtxView|
                field.on_save_pipeline.yields(field_ctx(state, key, state.stored(key)), out) && o
                    == #[trigger] taken(state, key, out)
        },
    }
}

/// Whether saving the key `key` behind the outcome `before` may end in `o`:
/// nothing more is done once the work has stopped.
pub open spec fn save_step(model: Model, before: Outcome, key: Seq<char>, o: Outcome) -> bool {
    if before.error is Some {
        o == before
    } else {
        save_key_yields(model, before.state, key, o)
    }
}

/// Whether saving the first `n` of `keys`, one after the other, may end in `o`.
pub open spec fn saved_yields(
    model: Model,
    state: ObjectView,
    keys: Seq<String>,
    n: int,
    o: Outcome,
) -> bool
    decreases n,
{
    if n <= 0 {
        o == go(state)
    } else {
        exists|before: Outcome|
            saved_yields(model, state, keys, n - 1, before) && #[trigger] save_step(
                model,
                before,
                keys[n - 1]@,
                o,
            )
    }
}

/// Once saving may have stopped on an error, it may end there.
pub proof fn save_yields_stops(
    model: Model,
    state: ObjectView,
    keys: Seq<String>,
    m: int,
    n: int,
    o: Outcome,
)
    requires
        0 <= m <= n,
        saved_yields(model, state, keys, m, o),
        o.error is Some,
    ensures
        saved_yields(model, state, keys, n, o),
    decreases n - m,
{
    if m < n {
        save_yields_stops(model, state, keys, m, n - 1, o);
        assert(save_step(model, o, keys[n - 1]@, o));
    }
}

/// What a default came to, as contracts speak of it.
pub open spec fn settled_as(result: Result<Value, ActionError>) -> Result<
    ValueView,
    ActionErrorView,
> {
    match result {
        Ok(v) => Ok(v@),
        Err(e) => Err(e@),
    }
}

/// Whether the default that `argument` gives the field `key` may come to `d`: a
/// literal to itself, a pipeline to what the record layer takes from a context
/// that it may leave on null, a host function to a value that it may answer to
/// null.
pub open spec fn default_may_be(
    argument: Argument,
    state: ObjectView,
    key: Seq<char>,
    d: Result<ValueView, ActionErrorView>,
) -> bool {
    match argument {
        Argument::ValueArgument(v) => d == Ok::<ValueView, ActionErrorView>(v@),
        Argument::PipelineArgument(p) => exists|out: CtxView|
            p.yields(field_ctx(state, key, ValueView::Null), out) && d == #[trigger] settled(
                out,
                key,
            ),
        Argument::FunctionArgument(f) => match d {
            Ok(v) => answers(&f, ValueView::Null, v),
            Err(_) => false,
        },
    }
}

/// What the record layer makes of the default `d` of the field `key`: the value
/// is stored, and the work stops on an error.
pub open spec fn defaulted_to(
    state: ObjectView,
    key: Seq<char>,
    d: Result<ValueView, ActionErrorView>,
) -> Outcome {
    match d {
        Ok(value) => go(state.defaulted(key, value)),
        Err(error) => stop(state, error),
    }
}

/// Whether assignment of the one key `key` from the JSON object with `entries`
/// may end in `o`. Where no host function has a say, that is the one outcome of
/// [`assign_key`]; where one has, it is what comes of a context that the on-set
/// pipeline may leave, or of a default that the field may be given.
pub open spec fn assign_key_yields(
    model: Model,
    state: ObjectView,
    entries: Seq<(Seq<char>, JsonView)>,
    key: Seq<char>,
    validate: bool,
    o: Outcome,
) -> bool {
    match model.field_of(key) {
        None => o == stop(
            state,
            ActionErrorView::InternalInconsistency { reason: missing_field() },
        ),
        Some(field) => match json_get(entries, key) {
            Some(json) => match decoded(field.field_type, json) {
                None => o == stop(
                    state,
                    ActionErrorView::TypeMismatch { path: seq![PathItemView::Key(key)] },
                ),
                Some(value) => if validate {
                    exists|out: CtxView|
                        field.on_set_pipeline.yields(field_ctx(state, key, value), out) && o
                            == #[trigger] taken(state, key, out)
                } else {
                    o == go(state.written(key, value))
                },
            },
            None => if !state.is_initialized && state.is_new {
                match field.default {
                    None => o == go(state),
                    Some(argument) => exists|d: Result<ValueView, ActionErrorView>|
                        default_may_be(argument, state, key, d) && o == #[trigger] defaulted_to(
                            state,
                            key,
                            d,
                        ),
                }
            } else {
                o == go(state)
            },
        },
    }
}

/// Whether assignment of the key `key` behind the outcome `before` may end in
/// `o`: nothing more is done once the work has stopped.
pub open spec fn assign_step(
    model: Model,
    before: Outcome,
    entries: Seq<(Seq<char>, JsonView)>,
    key: Seq<char>,
    validate: bool,
    o: Outcome,
) -> bool {
    if before.error is Some {
        o == before
    } else {
        assign_key_yields(model, before.state, entries, key, validate, o)
    }
}

/// Whether assignment of the first `n` of `keys`, one after the other, may end
/// in `o`.
pub open spec fn assigned_keys_yield(
    model: Model,
    state: ObjectView,
    entries: Seq<(Seq<char>, JsonView)>,
    keys: Seq<Seq<char>>,
    n: int,
    validate: bool,
    o: Outcome,
) -> bool
    decreases n,
{
    if n <= 0 {
        o == go(state)
    } else {
        exists|before: Outcome|
            assigned_keys_yield(model, state, entries, keys, n - 1, validate, before)
                && #[trigger] assign_step(model, before, entries, keys[n - 1], validate, o)
    }
}

/// Once assignment may have stopped on an error, it may end there.
pub proof fn assign_yields_stops(
    model: Model,
    state: ObjectView,
    entries: Seq<(Seq<char>, JsonView)>,
    keys: Seq<Seq<char>>,
    m: int,
    n: int,
    validate: bool,
    o: Outcome,
)
    requires
        0 <= m <= n,
        assigned_keys_yield(model, state, entries, keys, m, validate, o),
        o.error is Some,
    ensures
        assigned_keys_yield(model, state, entries, keys, n, validate, o),
    decreases n - m,
{
    if m < n {
        assign_yields_stops(model, state, entries, keys, m, n - 1, validate, o);
        assert(assign_step(model, o, entries, keys[n - 1], validate, o));
    }
}

/// The outcome of an assignment whose keys ended in `mid`: where all went well
/// the record counts as initialized.
pub open spec fn made_initial(mid: Outcome) -> Outcome {
    if mid.error is Some {
        mid
    } else {
        go(ObjectView { is_initialized: true, ..mid.state })
    }
}

/// Whether assignment from `json` may end in `o`. Where no host function has a
/// say, that is the one outcome of [`assigned`].
pub open spec fn assigned_yields(
    model: Model,
    state: ObjectView,
    json: JsonView,
    validate: bool,
    o: Outcome,
) -> bool {
    match json {
        JsonView::Object(entries) => {
            let allowed = allowed_keys(model, validate);
            if !keys_allowed(entries, allowed) {
                o == stop(state, ActionErrorView::KeysUnallowed)
            } else {
                let keys = if state.is_initialized {
                    entry_keys(entries)
                } else {
                    texts(allowed)
                };
                exists|mid: Outcome|
                    assigned_keys_yield(
                        model,
                        state,
                        entries,
                        keys,
                        keys.len() as int,
                        validate,
                        mid,
                    ) && o == #[trigger] made_initial(mid)
            }
        },
        _ => o == stop(state, ActionErrorView::TypeMismatch { path: Seq::empty() }),
    }
}

/// What the record layer takes from the value and the validity that the
/// pipeline of the field `key` left.
pub fn settle(value: Value, validity: Validity, key: &str) -> (r: Result<Value, ActionError>)
    ensures
        match r {
            Ok(v) => validity@ is Valid && v@ == value@,
            Err(e) => match validity@ {
                ValidityView::Valid => false,
                ValidityView::Invalid(reason) => e@ == (ActionErrorView::ValidationFailed {
                    path: seq![PathItemView::Key(key@)],
                    reason,
                }),
                _ => e@ == (ActionErrorView::InternalInconsistency {
                    reason: misplaced_condition(),
                }),
            },
        },
{
    match validity {
        Validity::Valid => Ok(value),
        Validity::Invalid(reason) => Err(ActionError::invalid_input(key, reason)),
        _ => Err(
            ActionError::internal_server_error(String::from_str("Pipeline modifiers are invalid.")),
        ),
    }
}

impl<'a> Object<'a> {
    /// A new record of `model`.
    pub fn new(model: &'a Model) -> (r: Object<'a>)
        ensures
            r.model == model,
            r@ == ObjectView::fresh(),
    {
        Object {
            model,
            action: Action { value: 0 },
            is_initialized: false,
            is_new: true,
            is_modified: false,
            is_partial: false,
            is_deleted: false,
            selected_fields: KeySet::new(),
            modified_fields: KeySet::new(),
            previous_values: ValueMap::new(),
            value_map: ValueMap::new(),
        }
    }

    /// The context in which the pipeline of the field `key` starts on `value`.
    fn field_ctx<'b>(&'b self, key: &str, value: Value) -> (r: Ctx<'b>)
        ensures
            r@ == field_ctx(self@, key@, value@),
    {
        let mut path: Vec<PathItem> = Vec::new();
        path.push(PathItem::Key(String::from_str(key)));
        assert(path_view(path@) =~= seq![PathItemView::Key(key@)]);
        Ctx { value, validity: Validity::Valid, path, object: Some(self), action: self.action }
    }

    /// The value stored under `key`, null where none is.
    fn stored(&self, key: &str) -> (r: Value)
        ensures
            r@ == self@.stored(key@),
    {
        match self.value_map.get(key) {
            Some(v) => v.clone(),
            None => Value::Null,
        }
    }

    /// Writes `value` under `key`.
    fn write(&mut self, key: &str, value: Value)
        ensures
            final(self).model == old(self).model,
            final(self)@ == old(self)@.written(key@, value@),
    {
        self.value_map.insert(String::from_str(key), value);
        if !self.is_new {
            self.is_modified = true;
            self.modified_fields.insert(String::from_str(key));
        }
    }

    /// Sets the field `key` to `value`.
    ///
    /// The key must be among the save keys of the model: else the call fails
    /// and the record is left as it was.
    pub fn set_value(&mut self, key: &str, value: Value) -> (r: Result<(), ActionError>)
        ensures
            final(self).model == old(self).model,
            match r {
                Ok(()) => has_key(old(self).model.save_keys@, key@) && final(self)@ == old(
                    self,
                )@.written(key@, value@),
                Err(e) => !has_key(old(self).model.save_keys@, key@) && e@
                    == ActionErrorView::KeysUnallowed && final(self)@ == old(self)@,
            },
    {
        if !contains_key(&self.model.save_keys, key) {
            return Err(ActionError::keys_unallowed());
        }
        self.write(key, value);
        Ok(())
    }

    /// The value of the field `key`, where one is stored.
    ///
    /// The key must be among the keys of the model that can be read: else the
    /// call fails.
    pub fn get_value(&self, key: &str) -> (r: Result<Option<Value>, ActionError>)
        ensures
            match r {
                Ok(found) => has_key(self.model.all_getable_keys@, key@) && match found {
                    Some(v) => self@.value_map.contains_key(key@) && v@ == self@.value_map[key@],
                    None => !self@.value_map.contains_key(key@),
                },
                Err(e) => !has_key(self.model.all_getable_keys@, key@) && e@
                    == ActionErrorView::KeysUnallowed,
            },
    {
        if !contains_key(&self.model.all_getable_keys, key) {
            return Err(ActionError::keys_unallowed());
        }
        match self.value_map.get(key) {
            Some(value) => Ok(Some(value.clone())),
            None => Ok(None),
        }
    }

    /// Adds `keys` to the fields that are given out.
    pub fn select(&mut self, keys: &Vec<String>) -> (r: Result<(), ActionError>)
        ensures
            r is Ok,
            final(self).model == old(self).model,
            final(self)@ == (ObjectView {
                selected_fields: old(self)@.selected_fields.union(keys_of(keys@)),
                ..old(self)@
            }),
    {
        self.selected_fields.extend(keys);
        return Ok(());
    }

    /// Takes `keys` out of the fields that are given out. Where none was
    /// selected, all output keys of the model count as selected before.
    pub fn deselect(&mut self, keys: &Vec<String>) -> (r: Result<(), ActionError>)
        ensures
            r is Ok,
            final(self).model == old(self).model,
            final(self)@ == (ObjectView {
                selected_fields: (if old(self)@.selected_fields == Set::<Seq<char>>::empty() {
                    keys_of(old(self).model.output_keys@)
                } else {
                    old(self)@.selected_fields
                }).difference(keys_of(keys@)),
                ..old(self)@
            }),
    {
        if self.selected_fields.is_empty() {
            self.selected_fields.extend(&self.model.output_keys);
            assert(self.selected_fields@ =~= keys_of(self.model.output_keys@));
        }
        let ghost base = self.selected_fields@;
        let mut i: usize = 0;
        proof {
            crate::collections::keys_of_empty();
            assert(keys@.take(0) =~= Seq::<String>::empty());
            assert(self.selected_fields@ =~= base.difference(keys_of(keys@.take(0))));
        }
        while i < keys.len()
            invariant
                i <= keys.len(),
                self.model == old(self).model,
                self@ == (ObjectView { selected_fields: self@.selected_fields, ..old(self)@ }),
                self.selected_fields@ == base.difference(keys_of(keys@.take(i as int))),
            decreases keys.len() - i,
        {
            proof {
                crate::collections::keys_of_push(keys@.take(i as int), keys[i as int]);
                assert(keys@.take(i + 1) =~= keys@.take(i as int).push(keys[i as int]));
            }
            self.selected_fields.remove(keys[i].as_str());
            assert(self.selected_fields@ =~= base.difference(keys_of(keys@.take(i + 1))));
            i += 1;
        }
        assert(keys@.take(i as int) =~= keys@);
        return Ok(());
    }

    /// Saves the one key `key`.
    fn save_key(&mut self, key: &str) -> (r: Result<(), ActionError>)
        ensures
            final(self).model == old(self).model,
            final(self)@.rewritten_from(old(self)@),
            save_key_yields(*old(self).model, old(self)@, key@, ended(final(self)@, r)),
            save_key(*old(self).model, old(self)@, key@) matches Some(o) ==> final(self)@ == o.state
                && match r {
                Ok(()) => o.error is None,
                Err(e) => o.error == Some(e@),
            },
    {
        let model = self.model;
        let field = match model.field(key) {
            Some(field) => field,
            None => {
                return Err(
                    ActionError::internal_server_error(String::from_str("Key names no field.")),
                );
            },
        };
        if !field.on_save_pipeline.has_any_modifier() {
            return Ok(());
        }
        let value = self.stored(key);
        let out = field.on_save_pipeline.process(self.field_ctx(key, value));
        let ghost left = out@;
        let ghost before = self@;
        match settle(out.value, out.validity, key) {
            Ok(value) => {
                self.write(key, value);
                assert(ended(self@, Ok(())) == taken(before, key@, left));
                Ok(())
            },
            Err(error) => {
                assert(ended(self@, Err(error)) == taken(before, key@, left));
                Err(error)
            },
        }
    }

    /// Saves the record: runs the stored value of every save key of the model,
    /// in the order of the model, through the on-save pipeline of its field, and
    /// writes back what the pipeline leaves.
    ///
    /// The call fails at the first field whose pipeline refuses the value, or
    /// leaves a condition signal. What was written for the fields before it
    /// stays written.
    pub fn save(&mut self) -> (r: Result<(), ActionError>)
        ensures
            final(self).model == old(self).model,
            final(self)@.rewritten_from(old(self)@),
            saved_yields(
                *old(self).model,
                old(self)@,
                old(self).model.save_keys@,
                old(self).model.save_keys@.len() as int,
                ended(final(self)@, r),
            ),
            saved(
                *old(self).model,
                old(self)@,
                old(self).model.save_keys@,
                old(self).model.save_keys@.len() as int,
            ) matches Some(o) ==> final(self)@ == o.state && match r {
                Ok(()) => o.error is None,
                Err(e) => o.error == Some(e@),
            },
    {
        let model = self.model;
        let ghost start = self@;
        let ghost keys = model.save_keys@;
        let mut i: usize = 0;
        while i < model.save_keys.len()
            invariant
                i <= model.save_keys.len(),
                model == self.model,
                model == old(self).model,
                keys == model.save_keys@,
                start == old(self)@,
                self@.rewritten_from(start),
                saved(*model, start, keys, i as int) matches Some(o) ==> o.error is None && self@
                    == o.state,
                saved_yields(*model, start, keys, i as int, go(self@)),
            decreases model.save_keys.len() - i,
        {
            proof {
                saved_prefix(*model, start, keys, keys.len() as int, i + 1);
                saved_prefix(*model, start, keys, i + 1, i as int);
            }
            let ghost before = go(self@);
            let step = self.save_key(model.save_keys[i].as_str());
            proof {
                assert(save_step(*model, before, keys[i as int]@, ended(self@, step)));
            }
            match step {
                Ok(()) => {},
                Err(error) => {
                    proof {
                        save_stops(*model, start, keys, i + 1, keys.len() as int);
                        save_yields_stops(
                            *model,
                            start,
                            keys,
                            i + 1,
                            keys.len() as int,
                            ended(self@, Err(error)),
                        );
                    }
                    return Err(error);
                },
            }
            i += 1;
        }
        Ok(())
    }

    /// Marks the record for deletion. Nothing is done yet: the record is given
    /// back as it is.
    pub fn delete(&self) -> (r: &Object<'a>)
        ensures
            r == self,
    {
        return self;
    }

    /// The record in its wire form. Nothing is done yet: the record is given
    /// back as it is.
    pub fn to_json(&self) -> (r: &Self)
        ensures
            r == self,
    {
        return self;
    }

    /// The default that `argument` gives the field `key`.
    fn default_value(&self, argument: &Argument, key: &str) -> (r: Result<Value, ActionError>)
        ensures
            default_of(*argument, self@, key@) matches Some(d) ==> match r {
                Ok(v) => d == Ok::<ValueView, ActionErrorView>(v@),
                Err(e) => d == Err::<ValueView, ActionErrorView>(e@),
            },
            default_may_be(*argument, self@, key@, settled_as(r)),
    {
        match argument {
            Argument::ValueArgument(value) => Ok(value.clone()),
            Argument::PipelineArgument(pipeline) => {
                let out = pipeline.process(self.field_ctx(key, Value::Null));
                let ghost left = out@;
                let r = settle(out.value, out.validity, key);
                assert(settled_as(r) == settled(left, key@));
                r
            },
            Argument::FunctionArgument(function) => Ok(ask(function, Value::Null)),
        }
    }

    /// Assigns the one key `key` from the JSON object `json`.
    fn assign_key(&mut self, json: &Json, key: &str, validate: bool) -> (r: Result<
        (),
        ActionError,
    >)
        requires
            json@ is Object,
        ensures
            final(self).model == old(self).model,
            final(self)@.rewritten_from(old(self)@),
            assign_key_yields(
                *old(self).model,
                old(self)@,
                json@->Object_0,
                key@,
                validate,
                ended(final(self)@, r),
            ),
            assign_key(*old(self).model, old(self)@, json@->Object_0, key@, validate) matches Some(
                o,
            ) ==> final(self)@ == o.state && match r {
                Ok(()) => o.error is None,
                Err(e) => o.error == Some(e@),
            },
    {
        let model = self.model;
        proof {
            json_place_is_first(json@->Object_0, key@);
        }
        let field = match model.field(key) {
            Some(field) => field,
            None => {
                return Err(
                    ActionError::internal_server_error(String::from_str("Key names no field.")),
                );
            },
        };
        match json.get(key) {
            Some(entry) => {
                let value = match Value::from_json(field.field_type, entry) {
                    Some(value) => value,
                    None => {
                        return Err(ActionError::type_mismatch(key));
                    },
                };
                if validate {
                    let out = field.on_set_pipeline.process(self.field_ctx(key, value));
                    let ghost left = out@;
                    let ghost before = self@;
                    match settle(out.value, out.validity, key) {
                        Ok(value) => {
                            self.write(key, value);
                            assert(ended(self@, Ok(())) == taken(before, key@, left));
                            Ok(())
                        },
                        Err(error) => {
                            assert(ended(self@, Err(error)) == taken(before, key@, left));
                            Err(error)
                        },
                    }
                } else {
                    self.write(key, value);
                    Ok(())
                }
            },
            None => {
                if !self.is_initialized && self.is_new {
                    match &field.default {
                        None => Ok(()),
                        Some(argument) => {
                            let ghost before = self@;
                            let given = self.default_value(argument, key);
                            let ghost d = settled_as(given);
                            match given {
                                Ok(value) => {
                                    self.value_map.insert(String::from_str(key), value);
                                    assert(ended(self@, Ok(())) == defaulted_to(before, key@, d));
                                    Ok(())
                                },
                                Err(error) => {
                                    assert(ended(self@, Err(error)) == defaulted_to(
                                        before,
                                        key@,
                                        d,
                                    ));
                                    Err(error)
                                },
                            }
                        },
                    }
                } else {
                    Ok(())
                }
            },
        }
    }

    /// Assigns the record from the JSON object `json`, through the on-set
    /// pipelines where `validate_and_transform` says so; see [`assigned`].
    ///
    /// A key of the input that is not among the allowed keys fails the call
    /// before any field is touched: no pipeline is run and no default is
    /// taken.
    pub fn set_or_update_json(&mut self, json: &Json, validate_and_transform: bool) -> (r: Result<
        (),
        ActionError,
    >)
        ensures
            final(self).model == old(self).model,
            final(self)@.rewritten_from(
                ObjectView { is_initialized: final(self)@.is_initialized, ..old(self)@ },
            ),
            final(self)@.is_initialized == (old(self)@.is_initialized || r is Ok),
            assigned_yields(
                *old(self).model,
                old(self)@,
                json@,
                validate_and_transform,
                ended(final(self)@, r),
            ),
            assigned(*old(self).model, old(self)@, json@, validate_and_transform) matches Some(o)
                ==> final(self)@ == o.state && match r {
                Ok(()) => o.error is None,
                Err(e) => o.error == Some(e@),
            },
            has_unallowed_key(json@, allowed_keys(*old(self).model, validate_and_transform))
                ==> final(self)@ == old(self)@ && is_keys_unallowed(r),
    {
        let model = self.model;
        let json_object = match json {
            Json::Object(json_object) => json_object,
            _ => {
                let path: Vec<PathItem> = Vec::new();
                assert(path_view(path@) =~= Seq::empty());
                return Err(ActionError::TypeMismatch { path });
            },
        };
        let ghost entries = json@->Object_0;
        let ghost start = self@;
        assert(entries.len() == json_object@.len());
        assert(forall|i: int|
            0 <= i < entries.len() ==> (#[trigger] entries[i]).0 == json_object@[i].0@);
        // check keys first
        let model_keys = if validate_and_transform {
            &model.input_keys
        } else {
            &model.save_keys
        };
        let mut k: usize = 0;
        while k < json_object.len()
            invariant
                k <= json_object.len(),
                self@ == old(self)@,
                self.model == old(self).model,
                model == self.model,
                model_keys@ == allowed_keys(*model, validate_and_transform),
                json@ is Object,
                entries == json@->Object_0,
                entries.len() == json_object@.len(),
                forall|i: int|
                    0 <= i < entries.len() ==> (#[trigger] entries[i]).0 == json_object@[i].0@,
                forall|i: int| 0 <= i < k ==> has_key(model_keys@, (#[trigger] entries[i]).0),
            decreases json_object.len() - k,
        {
            if !contains_key(model_keys, json_object[k].0.as_str()) {
                assert(!has_key(model_keys@, entries[k as int].0));
                return Err(ActionError::keys_unallowed());
            }
            k += 1;
        }
        // assign values
        let initialized = self.is_initialized;
        let ghost keys = if initialized {
            entry_keys(entries)
        } else {
            texts(model_keys@)
        };
        let count = if initialized {
            json_object.len()
        } else {
            model_keys.len()
        };
        let mut i: usize = 0;
        while i < count
            invariant
                i <= count,
                count == keys.len(),
                model == self.model,
                model == old(self).model,
                start == old(self)@,
                self@.rewritten_from(start),
                initialized == start.is_initialized,
                model_keys@ == allowed_keys(*model, validate_and_transform),
                keys_allowed(entries, model_keys@),
                json@ is Object,
                entries == json@->Object_0,
                entries.len() == json_object@.len(),
                forall|i: int|
                    0 <= i < entries.len() ==> (#[trigger] entries[i]).0 == json_object@[i].0@,
                keys == if initialized {
                    entry_keys(entries)
                } else {
                    texts(model_keys@)
                },
                count == if initialized {
                    json_object@.len()
                } else {
                    model_keys@.len()
                },
                assigned_keys(*model, start, entries, keys, i as int, validate_and_transform)
                    matches Some(o) ==> o.error is None && self@ == o.state,
                assigned_keys_yield(
                    *model,
                    start,
                    entries,
                    keys,
                    i as int,
                    validate_and_transform,
                    go(self@),
                ),
            decreases count - i,
        {
            proof {
                assigned_prefix(
                    *model,
                    start,
                    entries,
                    keys,
                    keys.len() as int,
                    i + 1,
                    validate_and_transform,
                );
                assigned_prefix(*model, start, entries, keys, i + 1, i as int, validate_and_transform);
            }
            let key = if initialized {
                json_object[i].0.as_str()
            } else {
                model_keys[i].as_str()
            };
            assert(key@ == keys[i as int]);
            let ghost before = go(self@);
            let step = self.assign_key(json, key, validate_and_transform);
            proof {
                assert(assign_step(
                    *model,
                    before,
                    entries,
                    keys[i as int],
                    validate_and_transform,
                    ended(self@, step),
                ));
            }
            match step {
                Ok(()) => {},
                Err(error) => {
                    proof {
                        assign_stops(
                            *model,
                            start,
                            entries,
                            keys,
                            i + 1,
                            keys.len() as int,
                            validate_and_transform,
                        );
                        let o = ended(self@, Err(error));
                        assign_yields_stops(
                            *model,
                            start,
                            entries,
                            keys,
                            i + 1,
                            keys.len() as int,
                            validate_and_transform,
                            o,
                        );
                        assert(o == made_initial(o));
                    }
                    return Err(error);
                },
            }
            i += 1;
        }
        // set flag
        proof {
            let mid = go(self@);
            assert(go(ObjectView { is_initialized: true, ..self@ }) == made_initial(mid));
        }
        self.is_initialized = true;
        Ok(())
    }

    /// Assigns the record from the JSON object `json`, each value through the
    /// on-set pipeline of its field; see [`assigned`].
    ///
    /// A key of the input that is not among the input keys of the model fails
    /// the call before any field is touched.
    pub fn set_json(&mut self, json: &Json) -> (r: Result<(), ActionError>)
        ensures
            final(self).model == old(self).model,
            assigned_yields(*old(self).model, old(self)@, json@, true, ended(final(self)@, r)),
            final(self)@.rewritten_from(
                ObjectView { is_initialized: final(self)@.is_initialized, ..old(self)@ },
            ),
            final(self)@.is_initialized == (old(self)@.is_initialized || r is Ok),
            assigned(*old(self).model, old(self)@, json@, true) matches Some(o) ==> final(self)@
                == o.state && match r {
                Ok(()) => o.error is None,
                Err(e) => o.error == Some(e@),
            },
            has_unallowed_key(json@, old(self).model.input_keys@) ==> final(self)@ == old(self)@
                && is_keys_unallowed(r),
    {
        self.set_or_update_json(json, true)
    }

    /// Assigns the record from the JSON object `json` as it is, without the
    /// on-set pipelines; see [`assigned`].
    ///
    /// A key of the input that is not among the save keys of the model fails the
    /// call before any field is touched.
    pub fn update_json(&mut self, json: &Json) -> (r: Result<(), ActionError>)
        ensures
            final(self).model == old(self).model,
            assigned_yields(*old(self).model, old(self)@, json@, false, ended(final(self)@, r)),
            final(self)@.rewritten_from(
                ObjectView { is_initialized: final(self)@.is_initialized, ..old(self)@ },
            ),
            final(self)@.is_initialized == (old(self)@.is_initialized || r is Ok),
            assigned(*old(self).model, old(self)@, json@, false) matches Some(o) ==> final(self)@
                == o.state && match r {
                Ok(()) => o.error is None,
                Err(e) => o.error == Some(e@),
            },
            has_unallowed_key(json@, old(self).model.save_keys@) ==> final(self)@ == old(self)@
                && is_keys_unallowed(r),
    {
        self.set_or_update_json(json, false)
    }
}

/// Once saving has stopped on an error, it stays there.
pub proof fn save_stops(model: Model, state: ObjectView, keys: Seq<String>, m: int, n: int)
    requires
        m <= n,
    ensures
        saved(model, state, keys, m) matches Some(o) && o.error is Some ==> saved(
            model,
            state,
            keys,
            n,
        ) == saved(model, state, keys, m),
    decreases n - m,
{
    if m < n {
        save_stops(model, state, keys, m, n - 1);
    }
}

/// Once assignment has stopped on an error, it stays there.
pub proof fn assign_stops(
    model: Model,
    state: ObjectView,
    entries: Seq<(Seq<char>, JsonView)>,
    keys: Seq<Seq<char>>,
    m: int,
    n: int,
    validate: bool,
)
    requires
        m <= n,
    ensures
        assigned_keys(model, state, entries, keys, m, validate) matches Some(o) && o.error is Some
            ==> assigned_keys(model, state, entries, keys, n, validate) == assigned_keys(
            model,
            state,
            entries,
            keys,
            m,
            validate,
        ),
    decreases n - m,
{
    if m < n {
        assign_stops(model, state, entries, keys, m, n - 1, validate);
    }
}

} // verus!
