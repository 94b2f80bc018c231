//! The wire form of values: a tree in the shape of JSON, and the conversions
//! between it and [`Value`].
use vstd::prelude::*;
use crate::model::Type;
use crate::time::{format_rfc3339, parse_rfc3339, rfc3339_instant, rfc3339_text};
use crate::value::{DateTime, Value, ValueView, content};

verus! {

/// A tree in the shape of JSON.
///
/// A number without a fraction is held as an integer; any other number is held
/// as the text in which it was written.
#[derive(Debug, PartialEq)]
pub enum Json {
    Null,
    Bool(bool),
    Integer(i128),
    /// An integer above the range of `Integer`.
    Unsigned(u128),
    Real(String),
    String(String),
    Array(Vec<Json>),
    Object(Vec<(String, Json)>),
}

/// The mathematical content of a [`Json`].
pub enum JsonView {
    Null,
    Bool(bool),
    Integer(i128),
    Unsigned(u128),
    Real(Seq<char>),
    String(Seq<char>),
    Array(Seq<JsonView>),
    Object(Seq<(Seq<char>, JsonView)>),
}

/// The mathematical content of `json`.
pub open spec fn json_content(json: Json) -> JsonView
    decreases json,
{
    match json {
        Json::Null => JsonView::Null,
        Json::Bool(b) => JsonView::Bool(b),
        Json::Integer(n) => JsonView::Integer(n),
        Json::Unsigned(n) => JsonView::Unsigned(n),
        Json::Real(s) => JsonView::Real(s@),
        Json::String(s) => JsonView::String(s@),
        Json::Array(v) => JsonView::Array(
            Seq::new(
                v@.len(),
                |i: int|
                    if 0 <= i < v@.len() {
                        json_content(v@[i])
                    } else {
                        JsonView::Null
                    },
            ),
        ),
        Json::Object(m) => JsonView::Object(
            Seq::new(
                m@.len(),
                |i: int|
                    if 0 <= i < m@.len() {
                        (m@[i].0@, json_content(m@[i].1))
                    } else {
                        (Seq::empty(), JsonView::Null)
                    },
            ),
        ),
    }
}

impl View for Json {
    type V = JsonView;

    open spec fn view(&self) -> JsonView {
        json_content(*self)
    }
}

/// Whether an entry of `entries` stands under `key`.
pub open spec fn json_has(entries: Seq<(Seq<char>, JsonView)>, key: Seq<char>) -> bool {
    exists|i: int| 0 <= i < entries.len() && (#[trigger] entries[i]).0 == key
}

/// The place of the first entry of `entries` under `key`, or the number of
/// entries where none stands under it.
pub open spec fn json_place(entries: Seq<(Seq<char>, JsonView)>, key: Seq<char>) -> int
    decreases entries.len(),
{
    if entries.len() == 0 {
        0
    } else if entries[0].0 == key {
        0
    } else {
        1 + json_place(entries.skip(1), key)
    }
}

/// The place of a key lies within the entries or just behind them, and no
/// earlier entry stands under the key.
pub proof fn json_place_is_first(entries: Seq<(Seq<char>, JsonView)>, key: Seq<char>)
    ensures
        0 <= json_place(entries, key) <= entries.len(),
        json_place(entries, key) < entries.len() ==> entries[json_place(entries, key)].0 == key,
        forall|j: int| 0 <= j < json_place(entries, key) ==> (#[trigger] entries[j]).0 != key,
        json_has(entries, key) == (json_place(entries, key) < entries.len()),
    decreases entries.len(),
{
    if entries.len() > 0 && entries[0].0 != key {
        let rest = entries.skip(1);
        json_place_is_first(rest, key);
        assert forall|j: int| 0 <= j < json_place(entries, key) implies (#[trigger] entries[j]).0
            != key by {
            if j > 0 {
                assert(rest[j - 1] == entries[j]);
            }
        }
        if json_has(entries, key) {
            let i = choose|i: int| 0 <= i < entries.len() && (#[trigger] entries[i]).0 == key;
            assert(rest[i - 1] == entries[i]);
        }
        if json_has(rest, key) {
            let i = choose|i: int| 0 <= i < rest.len() && (#[trigger] rest[i]).0 == key;
            assert(entries[i + 1] == rest[i]);
        }
    } else if entries.len() > 0 {
        assert(entries[0].0 == key);
    }
}

/// The first entry of `entries` under `key`.
pub open spec fn json_get(entries: Seq<(Seq<char>, JsonView)>, key: Seq<char>) -> Option<
    JsonView,
> {
    let i = json_place(entries, key);
    if i < entries.len() {
        Some(entries[i].1)
    } else {
        None
    }
}

/// The value of type `field_type` that `json` stands for.
///
/// Null stands for null under every type. An identifier and a string are JSON
/// strings, a boolean a JSON boolean, an integer a JSON integer within the range
/// of its width, an instant a JSON string that reads as one.
pub open spec fn decoded(field_type: Type, json: JsonView) -> Option<ValueView> {
    match (field_type, json) {
        (_, JsonView::Null) => Some(ValueView::Null),
        (Type::ObjectId, JsonView::String(s)) => Some(ValueView::ObjectId(s)),
        (Type::Bool, JsonView::Bool(b)) => Some(ValueView::Bool(b)),
        (Type::I8, JsonView::Integer(n)) if i8::MIN <= n <= i8::MAX => Some(ValueView::I8(n as i8)),
        (Type::I16, JsonView::Integer(n)) if i16::MIN <= n <= i16::MAX => Some(
            ValueView::I16(n as i16),
        ),
        (Type::I32, JsonView::Integer(n)) if i32::MIN <= n <= i32::MAX => Some(
            ValueView::I32(n as i32),
        ),
        (Type::I64, JsonView::Integer(n)) if i64::MIN <= n <= i64::MAX => Some(
            ValueView::I64(n as i64),
        ),
        (Type::I128, JsonView::Integer(n)) => Some(ValueView::I128(n)),
        (Type::U8, JsonView::Integer(n)) if 0 <= n <= u8::MAX => Some(ValueView::U8(n as u8)),
        (Type::U16, JsonView::Integer(n)) if 0 <= n <= u16::MAX => Some(ValueView::U16(n as u16)),
        (Type::U32, JsonView::Integer(n)) if 0 <= n <= u32::MAX => Some(ValueView::U32(n as u32)),
        (Type::U64, JsonView::Integer(n)) if 0 <= n <= u64::MAX => Some(ValueView::U64(n as u64)),
        (Type::U128, JsonView::Integer(n)) if 0 <= n => Some(ValueView::U128(n as u128)),
        (Type::U128, JsonView::Unsigned(n)) => Some(ValueView::U128(n)),
        (Type::String, JsonView::String(s)) => Some(ValueView::String(s)),
        (Type::DateTime, JsonView::String(s)) => match rfc3339_instant(s) {
            Some((seconds, nanos)) => Some(ValueView::DateTime(DateTime { seconds, nanos })),
            None => None,
        },
        _ => None,
    }
}

/// The JSON tree that stands for `value`.
///
/// An instant is the string in which it is written, and null where it cannot
/// be written; a dictionary is an object with the same entries in the same
/// order.
pub open spec fn encoded(value: ValueView) -> JsonView
    decreases value,
{
    match value {
        ValueView::Null => JsonView::Null,
        ValueView::Bool(b) => JsonView::Bool(b),
        ValueView::I8(n) => JsonView::Integer(n as i128),
        ValueView::I16(n) => JsonView::Integer(n as i128),
        ValueView::I32(n) => JsonView::Integer(n as i128),
        ValueView::I64(n) => JsonView::Integer(n as i128),
        ValueView::I128(n) => JsonView::Integer(n),
        ValueView::U8(n) => JsonView::Integer(n as i128),
        ValueView::U16(n) => JsonView::Integer(n as i128),
        ValueView::U32(n) => JsonView::Integer(n as i128),
        ValueView::U64(n) => JsonView::Integer(n as i128),
        ValueView::U128(n) => if n <= i128::MAX {
            JsonView::Integer(n as i128)
        } else {
            JsonView::Unsigned(n)
        },
        ValueView::String(s) => JsonView::String(s),
        ValueView::DateTime(d) => match rfc3339_text(d.seconds, d.nanos) {
            Some(s) => JsonView::String(s),
            None => JsonView::Null,
        },
        ValueView::ObjectId(s) => JsonView::String(s),
        ValueView::Vec(v) => JsonView::Array(
            Seq::new(
                v.len(),
                |i: int|
                    if 0 <= i < v.len() {
                        encoded(v[i])
                    } else {
                        JsonView::Null
                    },
            ),
        ),
        ValueView::Dictionary(m) => JsonView::Object(
            Seq::new(
                m.len(),
                |i: int|
                    if 0 <= i < m.len() {
                        (m[i].0, encoded(m[i].1))
                    } else {
                        (Seq::empty(), JsonView::Null)
                    },
            ),
        ),
    }
}

/// The type under which the JSON form of a scalar value reads as that value
/// again.
pub open spec fn type_of(value: ValueView) -> Option<Type> {
    match value {
        ValueView::Bool(_) => Some(Type::Bool),
        ValueView::I8(_) => Some(Type::I8),
        ValueView::I16(_) => Some(Type::I16),
        ValueView::I32(_) => Some(Type::I32),
        ValueView::I64(_) => Some(Type::I64),
        ValueView::I128(_) => Some(Type::I128),
        ValueView::U8(_) => Some(Type::U8),
        ValueView::U16(_) => Some(Type::U16),
        ValueView::U32(_) => Some(Type::U32),
        ValueView::U64(_) => Some(Type::U64),
        ValueView::U128(_) => Some(Type::U128),
        ValueView::String(_) => Some(Type::String),
        ValueView::ObjectId(_) => Some(Type::ObjectId),
        _ => None,
    }
}

/// Nothing is lost on the way to JSON and back: a boolean, an integer of any
/// width, a string and an identifier read from their JSON form, under their own
/// type, as themselves. So does null under every type.
pub proof fn decoded_encoded(value: ValueView)
    ensures
        type_of(value) matches Some(t) ==> decoded(t, encoded(value)) == Some(value),
        forall|t: Type| decoded(t, encoded(ValueView::Null)) == Some(ValueView::Null),
{
}

impl Json {
    /// The entry of an object under `key`: the first, where there are several.
    pub fn get(&self, key: &str) -> (r: Option<&Json>)
        ensures
            r is Some == (self@ matches JsonView::Object(entries) && json_has(entries, key@)),
            r matches Some(j) ==> Some(j@) == json_get(self@->Object_0, key@),
    {
        match self {
            Json::Object(m) => {
                let ghost entries = self@->Object_0;
                proof {
                    json_place_is_first(entries, key@);
                }
                let mut i: usize = 0;
                while i < m.len()
                    invariant
                        i <= m.len(),
                        *self is Object,
                        self->Object_0 == *m,
                        entries == self@->Object_0,
                        forall|j: int| 0 <= j < i ==> (#[trigger] entries[j]).0 != key@,
                    decreases m.len() - i,
                {
                    let ghost p = json_place(entries, key@);
                    if crate::collections::same_text(m[i].0.as_str(), key) {
                        proof {
                            json_place_is_first(entries, key@);
                            assert(entries[i as int].0 == key@);
                            if p < i {
                                assert(entries[p].0 != key@);
                            }
                        }
                        return Some(&m[i].1);
                    }
                    assert(entries[i as int].0 != key@);
                    i += 1;
                }
                proof {
                    json_place_is_first(entries, key@);
                    let p = json_place(entries, key@);
                    if p < entries.len() {
                        assert(entries[p].0 != key@);
                    }
                }
                None
            },
            _ => None,
        }
    }
}

impl Value {
    /// Reads `json` as a value of type `field_type`.
    pub fn from_json(field_type: Type, json: &Json) -> (r: Option<Value>)
        ensures
            r is Some == decoded(field_type, json@) is Some,
            r matches Some(v) ==> Some(v@) == decoded(field_type, json@),
    {
        match json {
            Json::Null => Some(Value::Null),
            Json::Bool(b) => match field_type {
                Type::Bool => Some(Value::Bool(*b)),
                _ => None,
            },
            Json::Integer(n) => {
                let n: i128 = *n;
                match field_type {
                    Type::I8 => if i8::MIN as i128 <= n && n <= i8::MAX as i128 {
                        Some(Value::I8(n as i8))
                    } else {
                        None
                    },
                    Type::I16 => if i16::MIN as i128 <= n && n <= i16::MAX as i128 {
                        Some(Value::I16(n as i16))
                    } else {
                        None
                    },
                    Type::I32 => if i32::MIN as i128 <= n && n <= i32::MAX as i128 {
                        Some(Value::I32(n as i32))
                    } else {
                        None
                    },
                    Type::I64 => if i64::MIN as i128 <= n && n <= i64::MAX as i128 {
                        Some(Value::I64(n as i64))
                    } else {
                        None
                    },
                    Type::I128 => Some(Value::I128(n)),
                    Type::U128 => if 0 <= n {
                        Some(Value::U128(n as u128))
                    } else {
                        None
                    },
                    Type::U8 => if 0 <= n && n <= u8::MAX as i128 {
                        Some(Value::U8(n as u8))
                    } else {
                        None
                    },
                    Type::U16 => if 0 <= n && n <= u16::MAX as i128 {
                        Some(Value::U16(n as u16))
                    } else {
                        None
                    },
                    Type::U32 => if 0 <= n && n <= u32::MAX as i128 {
                        Some(Value::U32(n as u32))
                    } else {
                        None
                    },
                    Type::U64 => if 0 <= n && n <= u64::MAX as i128 {
                        Some(Value::U64(n as u64))
                    } else {
                        None
                    },
                    _ => None,
                }
            },
            Json::Unsigned(n) => match field_type {
                Type::U128 => Some(Value::U128(*n)),
                _ => None,
            },
            Json::String(s) => match field_type {
                Type::ObjectId => Some(Value::ObjectId(s.clone())),
                Type::String => Some(Value::String(s.clone())),
                Type::DateTime => match parse_rfc3339(s.as_str()) {
                    Some((seconds, nanos)) => Some(Value::DateTime(DateTime { seconds, nanos })),
                    None => None,
                },
                _ => None,
            },
            _ => None,
        }
    }

    /// Writes the value as a JSON tree.
    pub fn to_json(&self) -> (r: Json)
        ensures
            r@ == encoded(self@),
        decreases self,
    {
        match self {
            Value::Null => Json::Null,
            Value::Bool(b) => Json::Bool(*b),
            Value::I8(n) => Json::Integer(*n as i128),
            Value::I16(n) => Json::Integer(*n as i128),
            Value::I32(n) => Json::Integer(*n as i128),
            Value::I64(n) => Json::Integer(*n as i128),
            Value::I128(n) => Json::Integer(*n),
            Value::U8(n) => Json::Integer(*n as i128),
            Value::U16(n) => Json::Integer(*n as i128),
            Value::U32(n) => Json::Integer(*n as i128),
            Value::U64(n) => Json::Integer(*n as i128),
            Value::U128(n) => if *n <= i128::MAX as u128 {
                Json::Integer(*n as i128)
            } else {
                Json::Unsigned(*n)
            },
            Value::String(s) => Json::String(s.clone()),
            Value::DateTime(d) => match format_rfc3339(d.seconds, d.nanos) {
                Some(s) => Json::String(s),
                None => Json::Null,
            },
            Value::ObjectId(s) => Json::String(s.clone()),
            Value::Vec(v) => {
                let mut out: Vec<Json> = Vec::new();
                let mut i: usize = 0;
                while i < v.len()
                    invariant
                        i <= v.len(),
                        *self is Vec,
                        self->Vec_0 == *v,
                        out.len() == i,
                        forall|j: int| 0 <= j < i ==> (#[trigger] out[j])@ == encoded(v[j]@),
                    decreases v.len() - i,
                {
                    proof {
                        vstd::std_specs::vec::axiom_vec_index_decreases(*v, i as int);
                    }
                    out.push(v[i].to_json());
                    i += 1;
                }
                let r = Json::Array(out);
                assert(r@->Array_0 =~= encoded(self@)->Array_0);
                r
            },
            Value::Dictionary(m) => {
                let mut out: Vec<(String, Json)> = Vec::new();
                let mut i: usize = 0;
                while i < m.len()
                    invariant
                        i <= m.len(),
                        *self is Dictionary,
                        self->Dictionary_0 == *m,
                        out.len() == i,
                        forall|j: int|
                            0 <= j < i ==> (#[trigger] out[j]).0@ == m[j].0@ && out[j].1@
                                == encoded(m[j].1@),
                    decreases m.len() - i,
                {
                    proof {
                        vstd::std_specs::vec::axiom_vec_index_decreases(*m, i as int);
                    }
                    out.push((m[i].0.clone(), m[i].1.to_json()));
                    i += 1;
                }
                let r = Json::Object(out);
                assert(r@->Object_0 =~= encoded(self@)->Object_0);
                r
            },
        }
    }
}

} // verus!

verus! {

/// The entries of a JSON object as pairs of key and content.
pub open spec fn json_pairs(entries: Seq<(String, Json)>) -> Seq<(Seq<char>, JsonView)> {
    Seq::new(entries.len(), |i: int| (entries[i].0@, entries[i].1@))
}

/// The contents of the items of a JSON array.
pub open spec fn json_items(items: Seq<Json>) -> Seq<JsonView> {
    Seq::new(items.len(), |i: int| items[i]@)
}

impl JsonView {
    /// The object with `value` under `key`: in place of the first entry under
    /// the key, or behind the last entry where none is under it. A tree that is
    /// no object stays as it is.
    pub open spec fn with_entry(self, key: Seq<char>, value: JsonView) -> JsonView {
        match self {
            JsonView::Object(entries) => {
                let i = json_place(entries, key);
                if 0 <= i < entries.len() {
                    JsonView::Object(entries.update(i, (key, value)))
                } else {
                    JsonView::Object(entries.push((key, value)))
                }
            },
            _ => self,
        }
    }
}

impl Json {
    /// The object without entries.
    pub fn empty_object() -> (r: Json)
        ensures
            r@ == JsonView::Object(Seq::empty()),
    {
        let r = Json::Object(Vec::new());
        assert(r@->Object_0 =~= Seq::empty());
        r
    }

    /// The string `text`.
    pub fn string(text: &str) -> (r: Json)
        ensures
            r@ == JsonView::String(text@),
    {
        Json::String(String::from_str(text))
    }

    /// The string `text`, or null where there is none.
    pub fn string_or_null(text: Option<&str>) -> (r: Json)
        ensures
            r@ == match text {
                Some(t) => JsonView::String(t@),
                None => JsonView::Null,
            },
    {
        match text {
            Some(t) => Json::String(String::from_str(t)),
            None => Json::Null,
        }
    }

    /// Whether the tree is an object.
    pub fn is_object(&self) -> (r: bool)
        ensures
            r == (self@ is Object),
    {
        match self {
            Json::Object(_) => true,
            _ => false,
        }
    }

    /// Puts `value` under `key` in an object.
    pub fn with_entry(self, key: &str, value: Json) -> (r: Json)
        ensures
            r@ == self@.with_entry(key@, value@),
    {
        match self {
            Json::Object(entries) => {
                let ghost before = json_pairs(entries@);
                assert(self@->Object_0 =~= before);
                proof {
                    json_place_is_first(before, key@);
                }
                let mut entries = entries;
                let mut i: usize = 0;
                let mut found: Option<usize> = None;
                while i < entries.len() && found.is_none()
                    invariant
                        i <= entries.len(),
                        before == json_pairs(entries@),
                        found is None ==> forall|j: int|
                            0 <= j < i ==> (#[trigger] before[j]).0 != key@,
                        found matches Some(k) ==> k < entries.len() && before[k as int].0 == key@
                            && forall|j: int| 0 <= j < k ==> (#[trigger] before[j]).0 != key@,
                    decreases entries.len() - i + (if found is None { 1int } else { 0int }),
                {
                    if crate::collections::same_text(entries[i].0.as_str(), key) {
                        assert(before[i as int].0 == key@);
                        found = Some(i);
                    } else {
                        assert(before[i as int].0 != key@);
                        i += 1;
                    }
                }
                let ghost p = json_place(before, key@);
                match found {
                    Some(k) => {
                        proof {
                            if p < k {
                                assert(before[p].0 != key@);
                            }
                            if p > k {
                                assert(before[k as int].0 != key@);
                            }
                        }
                        entries.set(k, (String::from_str(key), value));
                        assert(json_pairs(entries@) =~= before.update(k as int, (key@, value@)));
                    },
                    None => {
                        proof {
                            if p < before.len() {
                                assert(before[p].0 != key@);
                            }
                        }
                        entries.push((String::from_str(key), value));
                        assert(json_pairs(entries@) =~= before.push((key@, value@)));
                    },
                }
                let r = Json::Object(entries);
                assert(r@->Object_0 =~= json_pairs(entries@));
                r
            },
            other => other,
        }
    }
}

impl Clone for Json {
    fn clone(&self) -> (r: Self)
        ensures
            r@ == self@,
        decreases self,
    {
        match self {
            Json::Null => Json::Null,
            Json::Bool(b) => Json::Bool(*b),
            Json::Integer(n) => Json::Integer(*n),
            Json::Unsigned(n) => Json::Unsigned(*n),
            Json::Real(s) => Json::Real(s.clone()),
            Json::String(s) => Json::String(s.clone()),
            Json::Array(v) => {
                let mut out: Vec<Json> = Vec::new();
                let mut i: usize = 0;
                while i < v.len()
                    invariant
                        i <= v.len(),
                        *self is Array,
                        self->Array_0 == *v,
                        out.len() == i,
                        forall|j: int| 0 <= j < i ==> (#[trigger] out[j])@ == v[j]@,
                    decreases v.len() - i,
                {
                    proof {
                        vstd::std_specs::vec::axiom_vec_index_decreases(*v, i as int);
                    }
                    out.push(v[i].clone());
                    i += 1;
                }
                let r = Json::Array(out);
                assert(r@->Array_0 =~= self@->Array_0);
                r
            },
            Json::Object(m) => {
                let mut out: Vec<(String, Json)> = Vec::new();
                let mut i: usize = 0;
                while i < m.len()
                    invariant
                        i <= m.len(),
                        *self is Object,
                        self->Object_0 == *m,
                        out.len() == i,
                        forall|j: int|
                            0 <= j < i ==> (#[trigger] out[j]).0@ == m[j].0@ && out[j].1@
                                == m[j].1@,
                    decreases m.len() - i,
                {
                    proof {
                        vstd::std_specs::vec::axiom_vec_index_decreases(*m, i as int);
                    }
                    out.push((m[i].0.clone(), m[i].1.clone()));
                    i += 1;
                }
                let r = Json::Object(out);
                assert(r@->Object_0 =~= self@->Object_0);
                r
            },
        }
    }
}

} // verus!
