//! The path of a request: the namespace, the model and the action that it
//! names.
use vstd::prelude::*;
use crate::server::error::{Error, ErrorView};
use crate::text::{chars_of, split, split_on, starts_with, texts};

verus! {

/// What the path of a request names.
#[derive(Clone, Debug, PartialEq)]
pub struct PathComponents {
    pub ns: Vec<String>,
    pub model: String,
    pub action: String,
}

/// The mathematical content of [`PathComponents`].
pub struct PathComponentsView {
    pub ns: Seq<Seq<char>>,
    pub model: Seq<char>,
    pub action: Seq<char>,
}

impl View for PathComponents {
    type V = PathComponentsView;

    open spec fn view(&self) -> PathComponentsView {
        PathComponentsView { ns: texts(self.ns@), model: self.model@, action: self.action@ }
    }
}

impl PathComponents {
    /// The path of the model: its namespace, then its name.
    pub fn model_path(&self) -> (r: Vec<&str>)
        ensures
            r@.len() == self@.ns.len() + 1,
            forall|i: int| 0 <= i < self@.ns.len() ==> (#[trigger] r@[i])@ == self@.ns[i],
            r@[self@.ns.len() as int]@ == self@.model,
    {
        let mut result: Vec<&str> = Vec::new();
        let mut i: usize = 0;
        while i < self.ns.len()
            invariant
                i <= self.ns.len(),
                result.len() == i,
                forall|j: int| 0 <= j < i ==> (#[trigger] result@[j])@ == self.ns[j]@,
            decreases self.ns.len() - i,
        {
            result.push(self.ns[i].as_str());
            i += 1;
        }
        result.push(self.model.as_str());
        result
    }
}

/// `path` without one slash at its end and one at its start.
pub open spec fn unslashed(path: Seq<char>) -> Seq<char> {
    let a = if path.len() > 0 && path.last() == '/' {
        path.drop_last()
    } else {
        path
    };
    if a.len() > 0 && a[0] == '/' {
        a.skip(1)
    } else {
        a
    }
}

/// What `path` names, behind the prefix if one is given: the last piece between
/// slashes is the action, the one before it the model, the pieces before that
/// the namespace. `None` where the path does not start with the prefix, or has
/// fewer than two pieces.
pub open spec fn parsed_path(path: Seq<char>, prefix: Option<Seq<char>>) -> Option<
    PathComponentsView,
> {
    let known = match prefix {
        Some(p) => p.is_prefix_of(path),
        None => true,
    };
    let rest = match prefix {
        Some(p) => path.skip(p.len() as int),
        None => path,
    };
    let parts = split(unslashed(rest), '/');
    if !known || parts.len() < 2 {
        None
    } else {
        Some(
            PathComponentsView {
                ns: parts.take(parts.len() - 2),
                model: parts[parts.len() - 2],
                action: parts[parts.len() - 1],
            },
        )
    }
}

/// Reads what `path` names, behind `prefix` if one is given.
pub fn parse_path(path: &str, prefix: Option<&str>) -> (r: Result<PathComponents, Error>)
    ensures
        match r {
            Ok(c) => parsed_path(
                path@,
                match prefix {
                    Some(p) => Some(p@),
                    None => None,
                },
            ) == Some(c@),
            Err(e) => e@ == ErrorView::DestinationNotFound && parsed_path(
                path@,
                match prefix {
                    Some(p) => Some(p@),
                    None => None,
                },
            ) is None,
        },
{
    let n = path.unicode_len();
    let mut start: usize = 0;
    match prefix {
        Some(prefix) => {
            if !starts_with(path, prefix) {
                return Err(Error::destination_not_found());
            }
            start = prefix.unicode_len();
        },
        None => {},
    }
    let ghost rest = path@.skip(start as int);
    assert(prefix is None ==> rest =~= path@);
    assert(prefix matches Some(p) ==> rest == path@.skip(p@.len() as int));
    let chars = chars_of(path);
    let mut end: usize = n;
    if end > start && chars[end - 1] == '/' {
        end = end - 1;
    }
    if end > start && chars[start] == '/' {
        start = start + 1;
    }
    let path_striped = path.substring_char(start, end);
    assert(path_striped@ =~= unslashed(rest));
    let mut components = split_on(path_striped, '/');
    assert(texts(components@).len() == components@.len());
    if components.len() < 2 {
        return Err(Error::destination_not_found());
    }
    let ghost whole = components@;
    let ghost parts = texts(whole);
    assert(parts.len() == whole.len());
    let action = components.pop().unwrap();
    let model = components.pop().unwrap();
    assert(action@ == parts[parts.len() - 1]);
    assert(model@ == parts[parts.len() - 2]);
    assert(texts(components@) =~= parts.take(parts.len() - 2));
    Ok(PathComponents { ns: components, model, action })
}

} // verus!

verus! {

/// `path` without `prefix` at its start, or `path` itself where it does not
/// start with the prefix or none is given.
pub open spec fn purified(path: Seq<char>, prefix: Option<Seq<char>>) -> Seq<char> {
    match prefix {
        Some(p) => if p.is_prefix_of(path) {
            path.skip(p.len() as int)
        } else {
            path
        },
        None => path,
    }
}

/// The path of a static file as it is looked up: `path` without `prefix` at its
/// start.
pub fn purify(path: &str, prefix: Option<&str>) -> (r: String)
    ensures
        r@ == purified(
            path@,
            match prefix {
                Some(p) => Some(p@),
                None => None,
            },
        ),
{
    match prefix {
        Some(prefix) => {
            if starts_with(path, prefix) {
                let a = prefix.unicode_len();
                let n = path.unicode_len();
                let r = String::from_str(path.substring_char(a, n));
                assert(r@ =~= path@.skip(prefix@.len() as int));
                r
            } else {
                String::from_str(path)
            }
        },
        None => String::from_str(path),
    }
}

} // verus!
