//! The description of a kind of record: its fields, the pipelines that guard
//! them, and the keys that each operation may touch.
use vstd::prelude::*;
use crate::collections::same_text;
use crate::pipeline::{Argument, Pipeline};

verus! {

/// The type that a field declares for its values.
#[derive(Clone, Copy, Debug, PartialEq, Eq, Structural)]
pub enum Type {
    ObjectId,
    Bool,
    I8,
    I16,
    I32,
    I64,
    I128,
    U8,
    U16,
    U32,
    U64,
    U128,
    String,
    DateTime,
}

/// One field of a model.
pub struct Field {
    pub name: String,
    pub field_type: Type,
    /// What a new record holds in this field when the input does not supply it.
    pub default: Option<Argument>,
    /// The pipeline that a value of the input goes through before it is stored.
    pub on_set_pipeline: Pipeline,
    /// The pipeline that the stored value goes through when the record is saved.
    pub on_save_pipeline: Pipeline,
}

impl Field {
    /// A field of the given name and type, with no default and empty
    /// pipelines.
    pub fn new(name: &str, field_type: Type) -> (r: Field)
        ensures
            r.name@ == name@,
            r.field_type == field_type,
            r.default is None,
            r.on_set_pipeline.items@.len() == 0,
            r.on_save_pipeline.items@.len() == 0,
    {
        Field {
            name: String::from_str(name),
            field_type,
            default: None,
            on_set_pipeline: Pipeline::new(),
            on_save_pipeline: Pipeline::new(),
        }
    }
}

/// A model: the fields of a kind of record, in declared order, and the keys
/// that may be set from input, saved, read and given out.
pub struct Model {
    pub name: String,
    pub fields: Vec<Field>,
    pub input_keys: Vec<String>,
    pub save_keys: Vec<String>,
    pub output_keys: Vec<String>,
    pub all_getable_keys: Vec<String>,
}

/// The place of the first of `fields` that goes by `name`, or the number of
/// fields where none does.
pub open spec fn field_place(fields: Seq<Field>, name: Seq<char>) -> int
    decreases fields.len(),
{
    if fields.len() == 0 {
        0
    } else if fields[0].name@ == name {
        0
    } else {
        1 + field_place(fields.skip(1), name)
    }
}

/// The place of a field lies within the list or just behind it, and no earlier
/// field goes by the name.
pub proof fn field_place_is_first(fields: Seq<Field>, name: Seq<char>)
    ensures
        0 <= field_place(fields, name) <= fields.len(),
        field_place(fields, name) < fields.len() ==> fields[field_place(fields, name)].name@
            == name,
        forall|j: int| 0 <= j < field_place(fields, name) ==> (#[trigger] fields[j]).name@ != name,
    decreases fields.len(),
{
    if fields.len() > 0 && fields[0].name@ != name {
        let rest = fields.skip(1);
        field_place_is_first(rest, name);
        assert forall|j: int| 0 <= j < field_place(fields, name) implies (#[trigger] fields[j]).name@
            != name by {
            if j > 0 {
                assert(rest[j - 1] == fields[j]);
            }
        }
    }
}

impl Model {
    /// A model of the given name without fields or keys.
    pub fn new(name: &str) -> (r: Model)
        ensures
            r.name@ == name@,
            r.fields@.len() == 0,
            r.input_keys@.len() == 0,
            r.save_keys@.len() == 0,
            r.output_keys@.len() == 0,
            r.all_getable_keys@.len() == 0,
    {
        Model {
            name: String::from_str(name),
            fields: Vec::new(),
            input_keys: Vec::new(),
            save_keys: Vec::new(),
            output_keys: Vec::new(),
            all_getable_keys: Vec::new(),
        }
    }

    /// The first field that goes by `name`.
    pub open spec fn field_of(self, name: Seq<char>) -> Option<Field> {
        let i = field_place(self.fields@, name);
        if i < self.fields@.len() {
            Some(self.fields@[i])
        } else {
            None
        }
    }

    /// The first field that goes by `name`.
    pub fn field(&self, name: &str) -> (r: Option<&Field>)
        ensures
            r == match self.field_of(name@) {
                Some(f) => Some(&f),
                None => None,
            },
    {
        let mut i: usize = 0;
        proof {
            field_place_is_first(self.fields@, name@);
        }
        while i < self.fields.len()
            invariant
                i <= self.fields.len(),
                forall|j: int| 0 <= j < i ==> (#[trigger] self.fields[j]).name@ != name@,
            decreases self.fields.len() - i,
        {
            if same_text(self.fields[i].name.as_str(), name) {
                proof {
                    field_place_is_first(self.fields@, name@);
                    let p = field_place(self.fields@, name@);
                    if p < i {
                        assert(self.fields[p].name@ != name@);
                    }
                    if p > i {
                        assert(self.fields[i as int].name@ != name@);
                    }
                }
                return Some(&self.fields[i]);
            }
            i += 1;
        }
        proof {
            field_place_is_first(self.fields@, name@);
            let p = field_place(self.fields@, name@);
            if p < self.fields@.len() {
                assert(self.fields[p].name@ != name@);
            }
        }
        None
    }
}

} // verus!
