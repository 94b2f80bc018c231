//! The errors of the record layer.
use vstd::prelude::*;
use crate::pipeline::ctx::{PathItem, PathItemView, clone_path, path_view};

verus! {

/// Why an operation on a record failed.
#[derive(Debug, PartialEq)]
pub enum ActionError {
    /// A value is not of the type that its field declares.
    TypeMismatch { path: Vec<PathItem> },
    /// A key of the input is not among the keys that the model allows.
    KeysUnallowed,
    /// A pipeline marked the value at `path` invalid, for `reason`.
    ValidationFailed { path: Vec<PathItem>, reason: String },
    /// A pipeline ended on a condition signal where a value was due, or a key
    /// that the model allows names no field: the schema is at fault, not the
    /// data.
    InternalInconsistency { reason: String },
}

/// The mathematical content of an [`ActionError`].
pub enum ActionErrorView {
    TypeMismatch { path: Seq<PathItemView> },
    KeysUnallowed,
    ValidationFailed { path: Seq<PathItemView>, reason: Seq<char> },
    InternalInconsistency { reason: Seq<char> },
}

impl View for ActionError {
    type V = ActionErrorView;

    open spec fn view(&self) -> ActionErrorView {
        match self {
            ActionError::TypeMismatch { path } => ActionErrorView::TypeMismatch {
                path: path_view(path@),
            },
            ActionError::KeysUnallowed => ActionErrorView::KeysUnallowed,
            ActionError::ValidationFailed { path, reason } => ActionErrorView::ValidationFailed {
                path: path_view(path@),
                reason: reason@,
            },
            ActionError::InternalInconsistency { reason } => ActionErrorView::InternalInconsistency {
                reason: reason@,
            },
        }
    }
}

/// What is said of a pipeline that ends on a condition signal.
pub open spec fn misplaced_condition() -> Seq<char> {
    "Pipeline modifiers are invalid."@
}

/// What is said of a key that the model allows and that names no field.
pub open spec fn missing_field() -> Seq<char> {
    "Key names no field."@
}

impl ActionError {
    /// The error of a key that the model does not allow.
    pub fn keys_unallowed() -> (r: ActionError)
        ensures
            r@ == ActionErrorView::KeysUnallowed,
    {
        ActionError::KeysUnallowed
    }

    /// The error of a value of the wrong type under the field `key`.
    pub fn type_mismatch(key: &str) -> (r: ActionError)
        ensures
            r@ == (ActionErrorView::TypeMismatch { path: seq![PathItemView::Key(key@)] }),
    {
        let mut path: Vec<PathItem> = Vec::new();
        path.push(PathItem::Key(String::from_str(key)));
        assert(path_view(path@) =~= seq![PathItemView::Key(key@)]);
        ActionError::TypeMismatch { path }
    }

    /// The error of a value under the field `key` that a pipeline marked
    /// invalid for `reason`.
    pub fn invalid_input(key: &str, reason: String) -> (r: ActionError)
        ensures
            r@ == (ActionErrorView::ValidationFailed {
                path: seq![PathItemView::Key(key@)],
                reason: reason@,
            }),
    {
        let mut path: Vec<PathItem> = Vec::new();
        path.push(PathItem::Key(String::from_str(key)));
        assert(path_view(path@) =~= seq![PathItemView::Key(key@)]);
        ActionError::ValidationFailed { path, reason }
    }

    /// The error of a schema that is at fault, with `reason`.
    pub fn internal_server_error(reason: String) -> (r: ActionError)
        ensures
            r@ == (ActionErrorView::InternalInconsistency { reason: reason@ }),
    {
        ActionError::InternalInconsistency { reason }
    }

    /// The message of the error.
    pub fn message(&self) -> (r: String)
        ensures
            r@ == match self@ {
                ActionErrorView::TypeMismatch { .. } => "Value is not of the declared type."@,
                ActionErrorView::KeysUnallowed => "Unallowed keys detected."@,
                ActionErrorView::ValidationFailed { reason, .. } => reason,
                ActionErrorView::InternalInconsistency { reason } => reason,
            },
    {
        match self {
            ActionError::TypeMismatch { .. } => String::from_str("Value is not of the declared type."),
            ActionError::KeysUnallowed => String::from_str("Unallowed keys detected."),
            ActionError::ValidationFailed { reason, .. } => reason.clone(),
            ActionError::InternalInconsistency { reason } => reason.clone(),
        }
    }
}

impl Clone for ActionError {
    fn clone(&self) -> (r: Self)
        ensures
            r@ == self@,
    {
        match self {
            ActionError::TypeMismatch { path } => ActionError::TypeMismatch { path: clone_path(path) },
            ActionError::KeysUnallowed => ActionError::KeysUnallowed,
            ActionError::ValidationFailed { path, reason } => ActionError::ValidationFailed {
                path: clone_path(path),
                reason: reason.clone(),
            },
            ActionError::InternalInconsistency { reason } => ActionError::InternalInconsistency {
                reason: reason.clone(),
            },
        }
    }
}

} // verus!
