//! The context that is threaded through a pipeline: the current value, whether
//! it still stands, where in the input it sits, the record it belongs to and the
//! action under way.
use vstd::prelude::*;
use crate::action::Action;
use crate::object::{Object, ObjectView};
use crate::value::{Value, ValueView};

verus! {

/// One step of the path from the root of an input to a value in it.
#[derive(Debug, PartialEq)]
pub enum PathItem {
    Key(String),
    Index(usize),
}

/// The mathematical content of a [`PathItem`].
pub enum PathItemView {
    Key(Seq<char>),
    Index(usize),
}

impl View for PathItem {
    type V = PathItemView;

    open spec fn view(&self) -> PathItemView {
        match self {
            PathItem::Key(k) => PathItemView::Key(k@),
            PathItem::Index(i) => PathItemView::Index(*i),
        }
    }
}

impl Clone for PathItem {
    fn clone(&self) -> (r: Self)
        ensures
            r@ == self@,
    {
        match self {
            PathItem::Key(k) => PathItem::Key(k.clone()),
            PathItem::Index(i) => PathItem::Index(*i),
        }
    }
}

/// The views of the steps of a path, in order.
pub open spec fn path_view(path: Seq<PathItem>) -> Seq<PathItemView> {
    Seq::new(path.len(), |i: int| path[i]@)
}

/// A copy of `path`.
pub fn clone_path(path: &Vec<PathItem>) -> (r: Vec<PathItem>)
    ensures
        path_view(r@) == path_view(path@),
{
    let mut out: Vec<PathItem> = Vec::new();
    let mut i: usize = 0;
    while i < path.len()
        invariant
            i <= path.len(),
            out.len() == i,
            forall|j: int| 0 <= j < i ==> (#[trigger] out[j])@ == path[j]@,
        decreases path.len() - i,
    {
        out.push(path[i].clone());
        i += 1;
    }
    assert(path_view(out@) =~= path_view(path@));
    out
}

/// Whether the value of a context stands.
#[derive(Debug, PartialEq)]
pub enum Validity {
    /// The value stands.
    Valid,
    /// The value was refused, for the reason given.
    Invalid(String),
    /// A condition was tested and holds.
    ConditionTrue,
    /// A condition was tested and does not hold.
    ConditionFalse,
}

/// The mathematical content of a [`Validity`].
pub enum ValidityView {
    Valid,
    Invalid(Seq<char>),
    ConditionTrue,
    ConditionFalse,
}

impl View for Validity {
    type V = ValidityView;

    open spec fn view(&self) -> ValidityView {
        match self {
            Validity::Valid => ValidityView::Valid,
            Validity::Invalid(reason) => ValidityView::Invalid(reason@),
            Validity::ConditionTrue => ValidityView::ConditionTrue,
            Validity::ConditionFalse => ValidityView::ConditionFalse,
        }
    }
}

impl Clone for Validity {
    fn clone(&self) -> (r: Self)
        ensures
            r@ == self@,
    {
        match self {
            Validity::Valid => Validity::Valid,
            Validity::Invalid(reason) => Validity::Invalid(reason.clone()),
            Validity::ConditionTrue => Validity::ConditionTrue,
            Validity::ConditionFalse => Validity::ConditionFalse,
        }
    }
}

impl ValidityView {
    /// What the validity says as the answer to a condition: a value that stands
    /// and a condition that holds say yes, a refused value and a condition that
    /// does not hold say no.
    pub open spec fn signal(self) -> bool {
        self is Valid || self is ConditionTrue
    }
}

/// The context of one evaluation.
pub struct Ctx<'a> {
    pub value: Value,
    pub validity: Validity,
    pub path: Vec<PathItem>,
    pub object: Option<&'a Object<'a>>,
    pub action: Action,
}

/// The mathematical content of a [`Ctx`].
pub struct CtxView {
    pub value: ValueView,
    pub validity: ValidityView,
    pub path: Seq<PathItemView>,
    pub object: Option<ObjectView>,
    pub action: Action,
}

impl CtxView {
    /// The context with `value` in place of its value.
    pub open spec fn with_value(self, value: ValueView) -> CtxView {
        CtxView { value, ..self }
    }

    /// The context with `validity` in place of its validity.
    pub open spec fn with_validity(self, validity: ValidityView) -> CtxView {
        CtxView { validity, ..self }
    }

    /// The context marked invalid for `reason`.
    pub open spec fn invalid(self, reason: Seq<char>) -> CtxView {
        CtxView { validity: ValidityView::Invalid(reason), ..self }
    }

    /// Whether the value of the context stands.
    pub open spec fn is_valid(self) -> bool {
        self.validity is Valid
    }

    /// Whether the context holds `value`.
    pub open spec fn leaves(self, value: ValueView) -> bool {
        self.value == value
    }

    /// Whether the context differs from `other` in its value and its validity
    /// at most: whether the path, the record and the action are those of
    /// `other`.
    pub open spec fn framed_like(self, other: CtxView) -> bool {
        self.path == other.path && self.object == other.object && self.action == other.action
    }
}

impl<'a> View for Ctx<'a> {
    type V = CtxView;

    open spec fn view(&self) -> CtxView {
        CtxView {
            value: self.value@,
            validity: self.validity@,
            path: path_view(self.path@),
            object: match self.object {
                Some(o) => Some(o@),
                None => None,
            },
            action: self.action,
        }
    }
}

impl<'a> Clone for Ctx<'a> {
    fn clone(&self) -> (r: Self)
        ensures
            r@ == self@,
    {
        Ctx {
            value: self.value.clone(),
            validity: self.validity.clone(),
            path: clone_path(&self.path),
            object: self.object,
            action: self.action,
        }
    }
}

impl<'a> Ctx<'a> {
    /// The context in which a pipeline starts on `value`: the value stands, the
    /// path is empty, no record is attached and the action holds no flag.
    pub fn initial_state_with_value(value: Value) -> (r: Ctx<'a>)
        ensures
            r@ == (CtxView {
                value: value@,
                validity: ValidityView::Valid,
                path: Seq::empty(),
                object: None,
                action: Action { value: 0 },
            }),
    {
        let r = Ctx {
            value,
            validity: Validity::Valid,
            path: Vec::new(),
            object: None,
            action: Action { value: 0 },
        };
        assert(path_view(r.path@) =~= Seq::empty());
        r
    }

    /// The context in which a pipeline starts on the record `object`: the value
    /// is null and stands, the path is empty and the action is that of the
    /// record.
    pub fn initial_state_with_object(object: &'a Object<'a>) -> (r: Ctx<'a>)
        ensures
            r@ == (CtxView {
                value: ValueView::Null,
                validity: ValidityView::Valid,
                path: Seq::empty(),
                object: Some(object@),
                action: object@.action,
            }),
    {
        let r = Ctx {
            value: Value::Null,
            validity: Validity::Valid,
            path: Vec::new(),
            object: Some(object),
            action: object.action,
        };
        assert(path_view(r.path@) =~= Seq::empty());
        r
    }

    /// The context with `value` in place of its value.
    pub fn with_value(self, value: Value) -> (r: Ctx<'a>)
        ensures
            r@ == self@.with_value(value@),
    {
        Ctx { value, ..self }
    }

    /// The context with `validity` in place of its validity.
    pub fn with_validity(self, validity: Validity) -> (r: Ctx<'a>)
        ensures
            r@ == self@.with_validity(validity@),
    {
        Ctx { validity, ..self }
    }

    /// The context with `action` in place of its action.
    pub fn with_action(self, action: Action) -> (r: Ctx<'a>)
        ensures
            r@ == (CtxView { action, ..self@ }),
    {
        Ctx { action, ..self }
    }

    /// The context with `object` attached as its record, and the action of the
    /// record as its action.
    pub fn with_object(self, object: &'a Object<'a>) -> (r: Ctx<'a>)
        ensures
            r@ == (CtxView { object: Some(object@), action: object@.action, ..self@ }),
    {
        Ctx { object: Some(object), action: object.action, ..self }
    }

    /// The context with the step `item` added at the end of its path.
    pub fn with_path_item(self, item: PathItem) -> (r: Ctx<'a>)
        ensures
            r@ == (CtxView { path: self@.path.push(item@), ..self@ }),
    {
        let mut r = self;
        r.path.push(item);
        assert(path_view(r.path@) =~= path_view(self.path@).push(item@));
        r
    }

    /// The context marked invalid for `reason`.
    pub fn invalid(self, reason: &str) -> (r: Ctx<'a>)
        ensures
            r@ == self@.invalid(reason@),
    {
        Ctx { validity: Validity::Invalid(String::from_str(reason)), ..self }
    }

    /// Whether the value of the context stands.
    pub fn is_valid(&self) -> (r: bool)
        ensures
            r == self@.is_valid(),
    {
        match self.validity {
            Validity::Valid => true,
            _ => false,
        }
    }

    /// What the context says as the answer to a condition.
    pub fn signal(&self) -> (r: bool)
        ensures
            r == self@.validity.signal(),
    {
        match self.validity {
            Validity::Valid => true,
            Validity::ConditionTrue => true,
            _ => false,
        }
    }
}

} // verus!
