//! The errors of the request layer.
use vstd::prelude::*;
use crate::pipeline::ctx::{PathItem, PathItemView, path_view};

verus! {

/// Why a request failed.
#[derive(Debug, PartialEq)]
pub enum Error {
    DestinationNotFound,
    InvalidAuthToken,
    WrongIdentityModel,
    IncorrectJsonFormat,
    IncorrectFormFormat { reason: String },
    UnexpectedInputRootType { expected: String },
    UnexpectedInputType { expected: String, path: Vec<PathItem> },
    UnexpectedInputKey { key: String, path: Vec<PathItem> },
    UnexpectedInputValue { reason: String, path: Vec<PathItem> },
    MissingRequiredInput { expected: String, path: Vec<PathItem> },
    PermissionError { reason: String, path: Vec<PathItem> },
    ModelNotFound { name: String },
    InternalServerError { reason: String },
}

/// The mathematical content of an [`Error`].
pub enum ErrorView {
    DestinationNotFound,
    InvalidAuthToken,
    WrongIdentityModel,
    IncorrectJsonFormat,
    IncorrectFormFormat { reason: Seq<char> },
    UnexpectedInputRootType { expected: Seq<char> },
    UnexpectedInputType { expected: Seq<char>, path: Seq<PathItemView> },
    UnexpectedInputKey { key: Seq<char>, path: Seq<PathItemView> },
    UnexpectedInputValue { reason: Seq<char>, path: Seq<PathItemView> },
    MissingRequiredInput { expected: Seq<char>, path: Seq<PathItemView> },
    PermissionError { reason: Seq<char>, path: Seq<PathItemView> },
    ModelNotFound { name: Seq<char> },
    InternalServerError { reason: Seq<char> },
}

impl View for Error {
    type V = ErrorView;

    open spec fn view(&self) -> ErrorView {
        match self {
            Error::DestinationNotFound => ErrorView::DestinationNotFound,
            Error::InvalidAuthToken => ErrorView::InvalidAuthToken,
            Error::WrongIdentityModel => ErrorView::WrongIdentityModel,
            Error::IncorrectJsonFormat => ErrorView::IncorrectJsonFormat,
            Error::IncorrectFormFormat { reason } => ErrorView::IncorrectFormFormat {
                reason: reason@,
            },
            Error::UnexpectedInputRootType { expected } => ErrorView::UnexpectedInputRootType {
                expected: expected@,
            },
            Error::UnexpectedInputType { expected, path } => ErrorView::UnexpectedInputType {
                expected: expected@,
                path: path_view(path@),
            },
            Error::UnexpectedInputKey { key, path } => ErrorView::UnexpectedInputKey {
                key: key@,
                path: path_view(path@),
            },
            Error::UnexpectedInputValue { reason, path } => ErrorView::UnexpectedInputValue {
                reason: reason@,
                path: path_view(path@),
            },
            Error::MissingRequiredInput { expected, path } => ErrorView::MissingRequiredInput {
                expected: expected@,
                path: path_view(path@),
            },
            Error::PermissionError { reason, path } => ErrorView::PermissionError {
                reason: reason@,
                path: path_view(path@),
            },
            Error::ModelNotFound { name } => ErrorView::ModelNotFound { name: name@ },
            Error::InternalServerError { reason } => ErrorView::InternalServerError {
                reason: reason@,
            },
        }
    }
}

/// The path of one key.
pub fn key_path(key: &str) -> (r: Vec<PathItem>)
    ensures
        path_view(r@) == seq![PathItemView::Key(key@)],
{
    let mut path: Vec<PathItem> = Vec::new();
    path.push(PathItem::Key(String::from_str(key)));
    assert(path_view(path@) =~= seq![PathItemView::Key(key@)]);
    path
}

/// The path of one key under another.
pub fn key_path2(first: &str, second: &str) -> (r: Vec<PathItem>)
    ensures
        path_view(r@) == seq![PathItemView::Key(first@), PathItemView::Key(second@)],
{
    let mut path: Vec<PathItem> = Vec::new();
    path.push(PathItem::Key(String::from_str(first)));
    path.push(PathItem::Key(String::from_str(second)));
    assert(path_view(path@) =~= seq![PathItemView::Key(first@), PathItemView::Key(second@)]);
    path
}

impl Error {
    /// Nothing is at the path and method of the request.
    pub fn destination_not_found() -> (r: Error)
        ensures
            r@ == ErrorView::DestinationNotFound,
    {
        Error::DestinationNotFound
    }

    /// The authorization of the request cannot be used.
    pub fn invalid_auth_token() -> (r: Error)
        ensures
            r@ == ErrorView::InvalidAuthToken,
    {
        Error::InvalidAuthToken
    }

    /// The signed-in user is of another model.
    pub fn wrong_identity_model() -> (r: Error)
        ensures
            r@ == ErrorView::WrongIdentityModel,
    {
        Error::WrongIdentityModel
    }

    /// The body is no JSON.
    pub fn incorrect_json_format() -> (r: Error)
        ensures
            r@ == ErrorView::IncorrectJsonFormat,
    {
        Error::IncorrectJsonFormat
    }

    /// The body is no form, for `reason`.
    pub fn incorrect_form_format(reason: String) -> (r: Error)
        ensures
            r@ == (ErrorView::IncorrectFormFormat { reason: reason@ }),
    {
        Error::IncorrectFormFormat { reason }
    }

    /// The body is not of the form `expected`.
    pub fn unexpected_input_root_type(expected: &str) -> (r: Error)
        ensures
            r@ == (ErrorView::UnexpectedInputRootType { expected: expected@ }),
    {
        Error::UnexpectedInputRootType { expected: String::from_str(expected) }
    }

    /// The input at `path` is not of the form `expected`.
    pub fn unexpected_input_type(expected: &str, path: Vec<PathItem>) -> (r: Error)
        ensures
            r@ == (ErrorView::UnexpectedInputType { expected: expected@, path: path_view(path@) }),
    {
        Error::UnexpectedInputType { expected: String::from_str(expected), path }
    }

    /// The input holds the key `key` at `path`, where none such is taken.
    pub fn unexpected_input_key(key: &str, path: Vec<PathItem>) -> (r: Error)
        ensures
            r@ == (ErrorView::UnexpectedInputKey { key: key@, path: path_view(path@) }),
    {
        Error::UnexpectedInputKey { key: String::from_str(key), path }
    }

    /// The input at `path` is refused, for `reason`.
    pub fn unexpected_input_value(reason: &str, path: Vec<PathItem>) -> (r: Error)
        ensures
            r@ == (ErrorView::UnexpectedInputValue { reason: reason@, path: path_view(path@) }),
    {
        Error::UnexpectedInputValue { reason: String::from_str(reason), path }
    }

    /// The input at `path` is refused, for `reason`.
    pub fn unexpected_input_value_with_reason(reason: &str, path: Vec<PathItem>) -> (r: Error)
        ensures
            r@ == (ErrorView::UnexpectedInputValue { reason: reason@, path: path_view(path@) }),
    {
        Error::UnexpectedInputValue { reason: String::from_str(reason), path }
    }

    /// The input lacks, at `path`, something of the form `expected`.
    pub fn missing_required_input_with_type(expected: &str, path: Vec<PathItem>) -> (r: Error)
        ensures
            r@ == (ErrorView::MissingRequiredInput { expected: expected@, path: path_view(path@) }),
    {
        Error::MissingRequiredInput { expected: String::from_str(expected), path }
    }

    /// What is at `path` may not be touched, for `reason`.
    pub fn permission_error(path: Vec<PathItem>, reason: &str) -> (r: Error)
        ensures
            r@ == (ErrorView::PermissionError { reason: reason@, path: path_view(path@) }),
    {
        Error::PermissionError { reason: String::from_str(reason), path }
    }

    /// No model goes by `name`.
    pub fn model_not_found(name: &str) -> (r: Error)
        ensures
            r@ == (ErrorView::ModelNotFound { name: name@ }),
    {
        Error::ModelNotFound { name: String::from_str(name) }
    }

    /// The server is at fault, for `reason`.
    pub fn internal_server_error(reason: &str) -> (r: Error)
        ensures
            r@ == (ErrorView::InternalServerError { reason: reason@ }),
    {
        Error::InternalServerError { reason: String::from_str(reason) }
    }
}

} // verus!

verus! {

impl ErrorView {
    /// The status code with which the error is answered: 404 where nothing is
    /// there, 401 where the caller may not, 500 where the server is at fault, and
    /// 400 where the input is.
    pub open spec fn code(self) -> u16 {
        match self {
            ErrorView::DestinationNotFound => 404,
            ErrorView::ModelNotFound { .. } => 404,
            ErrorView::InvalidAuthToken => 401,
            ErrorView::WrongIdentityModel => 401,
            ErrorView::PermissionError { .. } => 401,
            ErrorView::InternalServerError { .. } => 500,
            _ => 400,
        }
    }

    /// The path in the input at which the error lies, where it lies in the
    /// input.
    pub open spec fn path(self) -> Option<Seq<PathItemView>> {
        match self {
            ErrorView::UnexpectedInputType { path, .. } => Some(path),
            ErrorView::UnexpectedInputKey { path, .. } => Some(path),
            ErrorView::UnexpectedInputValue { path, .. } => Some(path),
            ErrorView::MissingRequiredInput { path, .. } => Some(path),
            ErrorView::PermissionError { path, .. } => Some(path),
            _ => None,
        }
    }
}

impl Error {
    /// The status code with which the error is answered.
    pub fn code(&self) -> (r: u16)
        ensures
            r == self@.code(),
    {
        match self {
            Error::DestinationNotFound => 404,
            Error::ModelNotFound { .. } => 404,
            Error::InvalidAuthToken => 401,
            Error::WrongIdentityModel => 401,
            Error::PermissionError { .. } => 401,
            Error::InternalServerError { .. } => 500,
            _ => 400,
        }
    }

    /// The name of the kind of the error.
    pub fn kind(&self) -> (r: &'static str)
        ensures
            r@ == match self@ {
                ErrorView::DestinationNotFound => "DestinationNotFound"@,
                ErrorView::InvalidAuthToken => "InvalidAuthToken"@,
                ErrorView::WrongIdentityModel => "WrongIdentityModel"@,
                ErrorView::IncorrectJsonFormat => "IncorrectJSONFormat"@,
                ErrorView::IncorrectFormFormat { .. } => "IncorrectFormFormat"@,
                ErrorView::UnexpectedInputRootType { .. } => "UnexpectedInputRootType"@,
                ErrorView::UnexpectedInputType { .. } => "UnexpectedInputType"@,
                ErrorView::UnexpectedInputKey { .. } => "UnexpectedInputKey"@,
                ErrorView::UnexpectedInputValue { .. } => "UnexpectedInputValue"@,
                ErrorView::MissingRequiredInput { .. } => "MissingRequiredInput"@,
                ErrorView::PermissionError { .. } => "PermissionError"@,
                ErrorView::ModelNotFound { .. } => "ModelNotFound"@,
                ErrorView::InternalServerError { .. } => "InternalServerError"@,
            },
    {
        match self {
            Error::DestinationNotFound => "DestinationNotFound",
            Error::InvalidAuthToken => "InvalidAuthToken",
            Error::WrongIdentityModel => "WrongIdentityModel",
            Error::IncorrectJsonFormat => "IncorrectJSONFormat",
            Error::IncorrectFormFormat { .. } => "IncorrectFormFormat",
            Error::UnexpectedInputRootType { .. } => "UnexpectedInputRootType",
            Error::UnexpectedInputType { .. } => "UnexpectedInputType",
            Error::UnexpectedInputKey { .. } => "UnexpectedInputKey",
            Error::UnexpectedInputValue { .. } => "UnexpectedInputValue",
            Error::MissingRequiredInput { .. } => "MissingRequiredInput",
            Error::PermissionError { .. } => "PermissionError",
            Error::ModelNotFound { .. } => "ModelNotFound",
            Error::InternalServerError { .. } => "InternalServerError",
        }
    }

    /// The path in the input at which the error lies, where it lies in the
    /// input.
    pub fn path(&self) -> (r: Option<&Vec<PathItem>>)
        ensures
            match r {
                Some(p) => self@.path() == Some(path_view(p@)),
                None => self@.path() is None,
            },
    {
        match self {
            Error::UnexpectedInputType { path, .. } => Some(path),
            Error::UnexpectedInputKey { path, .. } => Some(path),
            Error::UnexpectedInputValue { path, .. } => Some(path),
            Error::MissingRequiredInput { path, .. } => Some(path),
            Error::PermissionError { path, .. } => Some(path),
            _ => None,
        }
    }
}

} // verus!
