//! The fields of a form, gathered into one JSON object.
//!
//! A field named `name[]` is one item of the array `name`; a field named
//! `name[key]` is the entry `key` of the object `name`; any other field stands
//! under its own name.
use vstd::prelude::*;
use crate::json::{Json, JsonView, json_get, json_items, json_pairs, json_place_is_first};
use crate::pattern::{group_texts, regex_captures, regex_groups};
use crate::text::ends_with;

verus! {

/// What the name of a form field says of where its value goes.
#[derive(Debug, PartialEq)]
pub enum FieldName {
    /// Under the name.
    Plain(String),
    /// Into the array under the name.
    Item(String),
    /// Under the key, in the object under the name.
    Entry(String, String),
}

/// The mathematical content of a [`FieldName`].
pub enum FieldNameView {
    Plain(Seq<char>),
    Item(Seq<char>),
    Entry(Seq<char>, Seq<char>),
}

impl View for FieldName {
    type V = FieldNameView;

    open spec fn view(&self) -> FieldNameView {
        match self {
            FieldName::Plain(n) => FieldNameView::Plain(n@),
            FieldName::Item(n) => FieldNameView::Item(n@),
            FieldName::Entry(n, k) => FieldNameView::Entry(n@, k@),
        }
    }
}

/// The regular expression that takes a name and a key apart.
pub open spec fn entry_pattern() -> Seq<char> {
    "(.*)\\[(.*)\\]"@
}

/// What the name `name` says, `groups` being what the expression of a name and
/// a key found in it.
pub open spec fn named(name: Seq<char>, groups: Option<Seq<Option<Seq<char>>>>) -> FieldNameView {
    if "[]"@.is_suffix_of(name) {
        FieldNameView::Item(name.take(name.len() - 2))
    } else if "]"@.is_suffix_of(name) {
        match groups {
            Some(g) if g.len() == 3 && g[1] is Some && g[2] is Some => FieldNameView::Entry(
                g[1]->0,
                g[2]->0,
            ),
            _ => FieldNameView::Plain(name),
        }
    } else {
        FieldNameView::Plain(name)
    }
}

/// What the name `name` says, `groups` being what the expression of a name and
/// a key found in it.
pub fn field_name_from(name: &str, groups: Option<Vec<Option<String>>>) -> (r: FieldName)
    ensures
        r@ == named(
            name@,
            match groups {
                Some(g) => Some(group_texts(g@)),
                None => None,
            },
        ),
{
    proof {
        reveal_strlit("[]");
        reveal_strlit("]");
    }
    if ends_with(name, "[]") {
        let n = name.unicode_len();
        let cut = String::from_str(name.substring_char(0, n - 2));
        assert(cut@ =~= name@.take(name@.len() - 2));
        FieldName::Item(cut)
    } else if ends_with(name, "]") {
        match groups {
            Some(g) => {
                if g.len() == 3 {
                    let ghost texts = group_texts(g@);
                    assert(texts.len() == 3);
                    match (&g[1], &g[2]) {
                        (Some(a), Some(b)) => FieldName::Entry(a.clone(), b.clone()),
                        _ => FieldName::Plain(String::from_str(name)),
                    }
                } else {
                    assert(group_texts(g@).len() == g@.len());
                    FieldName::Plain(String::from_str(name))
                }
            },
            None => FieldName::Plain(String::from_str(name)),
        }
    } else {
        FieldName::Plain(String::from_str(name))
    }
}

/// What the name `name` of a form field says of where its value goes.
pub fn field_name(name: &str) -> (r: FieldName)
    ensures
        r@ == named(name@, regex_groups(entry_pattern(), name@)),
{
    let groups = regex_captures("(.*)\\[(.*)\\]", name);
    field_name_from(name, groups)
}

/// The form `form` with `value` put where `name` says: under the name; behind
/// the items of the array under the name, an entry that is no array counting as
/// an empty one; or under the key in the object under the name, an entry that
/// is no object counting as an empty one.
pub open spec fn form_with(form: JsonView, name: FieldNameView, value: JsonView) -> JsonView {
    match name {
        FieldNameView::Plain(n) => form.with_entry(n, value),
        FieldNameView::Item(n) => {
            let items = match form {
                JsonView::Object(entries) => match json_get(entries, n) {
                    Some(JsonView::Array(items)) => items,
                    _ => Seq::empty(),
                },
                _ => Seq::empty(),
            };
            form.with_entry(n, JsonView::Array(items.push(value)))
        },
        FieldNameView::Entry(n, k) => {
            let inner = match form {
                JsonView::Object(entries) => match json_get(entries, n) {
                    Some(JsonView::Object(inner)) => JsonView::Object(inner),
                    _ => JsonView::Object(Seq::empty()),
                },
                _ => JsonView::Object(Seq::empty()),
            };
            form.with_entry(n, inner.with_entry(k, value))
        },
    }
}

/// Puts `value` into `form` where `name` says.
pub fn form_insert(form: Json, name: &FieldName, value: Json) -> (r: Json)
    ensures
        r@ == form_with(form@, name@, value@),
{
    match name {
        FieldName::Plain(n) => form.with_entry(n.as_str(), value),
        FieldName::Item(n) => {
            let ghost expected = match form@ {
                JsonView::Object(entries) => match json_get(entries, n@) {
                    Some(JsonView::Array(items)) => items,
                    _ => Seq::empty(),
                },
                _ => Seq::empty(),
            };
            proof {
                if form@ is Object {
                    json_place_is_first(form@->Object_0, n@);
                }
            }
            let mut items: Vec<Json> = Vec::new();
            assert(json_items(items@) =~= Seq::empty());
            match form.get(n.as_str()) {
                Some(Json::Array(old_items)) => {
                    assert(Json::Array(*old_items)@->Array_0 =~= json_items(old_items@));
                    let mut i: usize = 0;
                    while i < old_items.len()
                        invariant
                            i <= old_items.len(),
                            items.len() == i,
                            forall|j: int| 0 <= j < i ==> (#[trigger] items[j])@ == old_items[j]@,
                        decreases old_items.len() - i,
                    {
                        items.push(old_items[i].clone());
                        i += 1;
                    }
                    assert(json_items(items@) =~= json_items(old_items@));
                },
                _ => {},
            }
            assert(json_items(items@) == expected);
            items.push(value);
            let list = Json::Array(items);
            assert(list@->Array_0 =~= expected.push(value@));
            form.with_entry(n.as_str(), list)
        },
        FieldName::Entry(n, k) => {
            proof {
                if form@ is Object {
                    json_place_is_first(form@->Object_0, n@);
                }
            }
            let inner = match form.get(n.as_str()) {
                Some(found) => if found.is_object() {
                    found.clone()
                } else {
                    Json::empty_object()
                },
                None => Json::empty_object(),
            };
            form.with_entry(n.as_str(), inner.with_entry(k.as_str(), value))
        },
    }
}

/// What is put into the form for a field that came with a file: where the file
/// was written, its content type, its name and the extended form of its name.
pub fn file_entry(
    filepath: &str,
    content_type: Option<&str>,
    filename: &str,
    filename_ext: Option<&str>,
) -> (r: Json)
    ensures
        r@ == JsonView::Object(
            seq![
                ("filepath"@, JsonView::String(filepath@)),
                (
                    "contentType"@,
                    match content_type {
                        Some(t) => JsonView::String(t@),
                        None => JsonView::Null,
                    },
                ),
                ("filename"@, JsonView::String(filename@)),
                (
                    "filenameExt"@,
                    match filename_ext {
                        Some(t) => JsonView::String(t@),
                        None => JsonView::Null,
                    },
                ),
            ],
        ),
{
    let mut entries: Vec<(String, Json)> = Vec::new();
    entries.push((String::from_str("filepath"), Json::string(filepath)));
    entries.push((String::from_str("contentType"), Json::string_or_null(content_type)));
    entries.push((String::from_str("filename"), Json::string(filename)));
    entries.push((String::from_str("filenameExt"), Json::string_or_null(filename_ext)));
    let r = Json::Object(entries);
    assert(r@->Object_0 =~= json_pairs(entries@));
    assert(r@->Object_0 =~= seq![
        ("filepath"@, JsonView::String(filepath@)),
        (
            "contentType"@,
            match content_type {
                Some(t) => JsonView::String(t@),
                None => JsonView::Null,
            },
        ),
        ("filename"@, JsonView::String(filename@)),
        (
            "filenameExt"@,
            match filename_ext {
                Some(t) => JsonView::String(t@),
                None => JsonView::Null,
            },
        ),
    ]);
    r
}

} // verus!
