//! What the handlers take from the input of a request, and what they give back
//! for many records at once.
use vstd::prelude::*;
use crate::action::{
    Action, CREATE, CREATE_HANDLER, CREATE_MANY_HANDLER, ENTRY, SINGLE, UPDATE, UPSERT,
};
use crate::pipeline::ctx::{PathItem, PathItemView, path_view};
use crate::server::error::{Error, ErrorView, key_path};
use crate::value::{Value, ValueView, views};

verus! {

/// What `input` holds under `key`, or a dictionary without entries where it
/// holds nothing there.
pub fn sub_input(input: &Value, key: &str) -> (r: Value)
    ensures
        r@ == match input@.entry(key@) {
            Some(v) => v,
            None => ValueView::Dictionary(Seq::empty()),
        },
{
    match input.get(key) {
        Some(v) => v.clone(),
        None => Value::empty_dictionary(),
    }
}

/// What a record is created from: the dictionary `create`, or one without
/// entries where none is given. Anything but a dictionary is refused, at
/// `path`.
pub fn create_input(create: Option<&Value>, path: Vec<PathItem>) -> (r: Result<Value, Error>)
    ensures
        match create {
            None => r matches Ok(v) && v@ == ValueView::Dictionary(Seq::empty()),
            Some(c) => if c@ is Dictionary {
                r matches Ok(v) && v@ == c@
            } else {
                r matches Err(e) && e@ == (ErrorView::UnexpectedInputType {
                    expected: "object"@,
                    path: path_view(path@),
                })
            },
        },
{
    match create {
        Some(create) => {
            if !create.is_dictionary() {
                return Err(Error::unexpected_input_type("object", path));
            }
            Ok(create.clone())
        },
        None => Ok(Value::empty_dictionary()),
    }
}

/// The dictionaries from which many records are created: the list that
/// `input` holds under `create`.
pub fn create_many_entries(input: &Value) -> (r: Result<&Vec<Value>, Error>)
    ensures
        match input@.entry("create"@) {
            None => r matches Err(e) && e@ == (ErrorView::MissingRequiredInput {
                expected: "array"@,
                path: seq![PathItemView::Key("create"@)],
            }),
            Some(ValueView::Vec(items)) => r matches Ok(v) && views(v@) == items,
            Some(_) => r matches Err(e) && e@ == (ErrorView::UnexpectedInputType {
                expected: "array"@,
                path: seq![PathItemView::Key("create"@)],
            }),
        },
{
    let create = match input.get("create") {
        Some(create) => create,
        None => {
            return Err(Error::missing_required_input_with_type("array", key_path("create")));
        },
    };
    match create.as_vec() {
        Some(items) => Ok(items),
        None => Err(Error::unexpected_input_type("array", key_path("create"))),
    }
}

/// What an upsert does: it updates the record that it found, or creates one
/// where it found none.
#[derive(Clone, Copy, Debug, PartialEq, Eq, Structural)]
pub enum UpsertBranch {
    Update,
    Create,
}

impl UpsertBranch {
    /// The branch that an upsert takes.
    pub fn of(found: bool) -> (r: UpsertBranch)
        ensures
            r == if found {
                UpsertBranch::Update
            } else {
                UpsertBranch::Create
            },
    {
        if found {
            UpsertBranch::Update
        } else {
            UpsertBranch::Create
        }
    }

    /// The key of the input under which the branch finds what to write.
    pub fn key(&self) -> (r: &'static str)
        ensures
            r@ == match *self {
                UpsertBranch::Update => "update"@,
                UpsertBranch::Create => "create"@,
            },
    {
        match self {
            UpsertBranch::Update => "update",
            UpsertBranch::Create => "create",
        }
    }

    /// The action under which the branch runs.
    pub fn action(&self) -> (r: Action)
        ensures
            r.value == match *self {
                UpsertBranch::Update => UPSERT | UPDATE | ENTRY | SINGLE,
                UpsertBranch::Create => UPSERT | CREATE | ENTRY | SINGLE,
            },
    {
        match self {
            UpsertBranch::Update => Action::from_u32(UPSERT | UPDATE | ENTRY | SINGLE),
            UpsertBranch::Create => Action::from_u32(UPSERT | CREATE | ENTRY | SINGLE),
        }
    }
}

/// The values among `results`, in order: what was done for each record, left
/// out where it failed.
pub open spec fn succeeded(results: Seq<Option<Value>>) -> Seq<ValueView>
    decreases results.len(),
{
    if results.len() == 0 {
        Seq::empty()
    } else {
        match results.last() {
            Some(v) => succeeded(results.drop_last()).push(v@),
            None => succeeded(results.drop_last()),
        }
    }
}

/// The number `n` as a value: of 32 bits where it fits, else of 64.
pub open spec fn count_value(n: int) -> ValueView {
    if n <= i32::MAX {
        ValueView::I32(n as i32)
    } else {
        ValueView::U64(n as u64)
    }
}

/// What is given back for many records at once: the data of those that
/// succeeded, in order, and their number.
pub fn many_result(results: Vec<Option<Value>>) -> (r: (Value, Value))
    ensures
        r.0@ == ValueView::Vec(succeeded(results@)),
        r.1@ == count_value(succeeded(results@).len() as int),
{
    let mut data: Vec<Value> = Vec::new();
    let mut i: usize = 0;
    assert(results@.take(0) =~= Seq::empty());
    assert(views(data@) =~= succeeded(results@.take(0)));
    while i < results.len()
        invariant
            i <= results.len(),
            data.len() <= i,
            views(data@) == succeeded(results@.take(i as int)),
        decreases results.len() - i,
    {
        let ghost before = views(data@);
        proof {
            assert(results@.take(i + 1).drop_last() =~= results@.take(i as int));
            assert(results@.take(i + 1).last() == results@[i as int]);
        }
        match &results[i] {
            Some(v) => {
                data.push(v.clone());
                assert(views(data@) =~= before.push(v@));
            },
            None => {},
        }
        i += 1;
    }
    assert(results@.take(i as int) =~= results@);
    let n = data.len();
    let count = if n <= i32::MAX as usize {
        Value::I32(n as i32)
    } else {
        Value::U64(n as u64)
    };
    let list = Value::Vec(data);
    assert(list@->Vec_0 =~= views(data@));
    (list, count)
}

/// How the input of a request is handed to the transformers of a model.
#[derive(Clone, Copy, Debug, PartialEq, Eq, Structural)]
pub enum TransformPlan {
    /// Not at all: the input stays as it is.
    Untouched,
    /// As a whole.
    Whole,
    /// Entry by entry of the list under `create`, each as an input of its own.
    EachEntry,
}

/// How the input `body` of a request of the action `action` is handed to the
/// transformers of its model: not at all where the model has none and the input
/// includes nothing; entry by entry where records are created from a list; as a
/// whole else.
pub open spec fn planned(has_transformers: bool, body: ValueView, action: Action) -> TransformPlan {
    if !has_transformers && body.entry("include"@) is None {
        TransformPlan::Untouched
    } else if (action.value == CREATE_MANY_HANDLER || action.value == CREATE_HANDLER) && (
    body.entry("create"@) matches Some(c) && c is Vec) {
        TransformPlan::EachEntry
    } else {
        TransformPlan::Whole
    }
}

/// How the input `body` of a request of the action `action` is handed to the
/// transformers of its model.
pub fn transform_plan(has_transformers: bool, body: &Value, action: Action) -> (r: TransformPlan)
    ensures
        r == planned(has_transformers, body@, action),
{
    if !has_transformers && body.get("include").is_none() {
        return TransformPlan::Untouched;
    }
    let flags = action.to_u32();
    if flags == CREATE_MANY_HANDLER || flags == CREATE_HANDLER {
        match body.get("create") {
            Some(create) => if create.is_vec() {
                return TransformPlan::EachEntry;
            },
            None => {},
        }
    }
    TransformPlan::Whole
}

/// Whether a transaction is committed after the work in it ended in `result`:
/// only where the work went through. What was done before a failure, a failed
/// validation among them, is not to be kept.
pub fn commits<T>(result: &Result<T, Error>) -> (r: bool)
    ensures
        r == (*result is Ok),
{
    match result {
        Ok(_) => true,
        Err(_) => false,
    }
}

} // verus!
