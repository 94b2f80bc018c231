//! What the request layer decides: where a request goes, which handler takes
//! it, and what is said of how it ended. The layer that reads from the network
//! and writes to it carries these decisions out.
pub mod error;

pub mod form;

pub mod input;

pub mod paging;

pub mod path;

pub mod sign_in;

use vstd::prelude::*;
use crate::action::{
    AGGREGATE_HANDLER, Action, COUNT_HANDLER, CREATE_HANDLER, CREATE_MANY_HANDLER, DELETE_HANDLER,
    DELETE_MANY_HANDLER, FIND_FIRST_HANDLER, FIND_MANY_HANDLER, FIND_UNIQUE_HANDLER,
    GROUP_BY_HANDLER, IDENTITY_HANDLER, SIGN_IN_HANDLER, UPDATE_HANDLER, UPDATE_MANY_HANDLER,
    UPSERT_HANDLER,
};
use crate::collections::same_text;
use crate::server::error::{Error, ErrorView};

verus! {

/// The most bytes of a request body that are held in memory.
pub const MAX_BODY_SIZE: usize = 262_144;

/// The class of a status code, by which it is shown.
#[derive(Clone, Copy, Debug, PartialEq, Eq, Structural)]
pub enum StatusClass {
    /// Below 200.
    Informational,
    /// From 200 to 299.
    Success,
    /// From 300 to 399.
    Redirection,
    /// From 400 up.
    Failure,
}

/// The class of the status code `code`.
pub fn status_class(code: u16) -> (r: StatusClass)
    ensures
        r == if code <= 199 {
            StatusClass::Informational
        } else if code <= 299 {
            StatusClass::Success
        } else if code <= 399 {
            StatusClass::Redirection
        } else {
            StatusClass::Failure
        },
{
    if code <= 199 {
        StatusClass::Informational
    } else if code <= 299 {
        StatusClass::Success
    } else if code <= 399 {
        StatusClass::Redirection
    } else {
        StatusClass::Failure
    }
}

/// Where a request goes by its method.
#[derive(Clone, Copy, Debug, PartialEq, Eq, Structural)]
pub enum Route {
    /// A `GET`: a static file is asked for.
    StaticFile,
    /// A `POST`: an action is asked for.
    Action,
    /// An `OPTIONS`: answered empty, once the path names a model and an action.
    Preflight,
    /// Any other method: nothing is there.
    NotFound,
}

/// Where a request of the method `method` goes.
pub fn route(method: &str) -> (r: Route)
    ensures
        r == if method@ == "GET"@ {
            Route::StaticFile
        } else if method@ == "POST"@ {
            Route::Action
        } else if method@ == "OPTIONS"@ {
            Route::Preflight
        } else {
            Route::NotFound
        },
{
    if same_text(method, "GET") {
        Route::StaticFile
    } else if same_text(method, "POST") {
        Route::Action
    } else if same_text(method, "OPTIONS") {
        Route::Preflight
    } else {
        Route::NotFound
    }
}

/// The form in which the body of a request comes.
#[derive(Clone, Copy, Debug, PartialEq, Eq, Structural)]
pub enum ActionInputFormat {
    Json,
    Form,
}

impl ActionInputFormat {
    /// The form of a body of the content type `content_type`.
    pub fn from_content_type(content_type: &str) -> (r: ActionInputFormat)
        ensures
            r == if content_type@ == "multipart/form-data"@ {
                ActionInputFormat::Form
            } else {
                ActionInputFormat::Json
            },
    {
        if same_text(content_type, "multipart/form-data") {
            ActionInputFormat::Form
        } else {
            ActionInputFormat::Json
        }
    }

    /// Whether the body comes as JSON.
    pub fn is_json(&self) -> (r: bool)
        ensures
            r == (*self == ActionInputFormat::Json),
    {
        match self {
            ActionInputFormat::Json => true,
            ActionInputFormat::Form => false,
        }
    }

    /// Whether the body comes as a form.
    pub fn is_form(&self) -> (r: bool)
        ensures
            r == (*self == ActionInputFormat::Form),
    {
        match self {
            ActionInputFormat::Json => false,
            ActionInputFormat::Form => true,
        }
    }
}

/// Whether a body of `held` bytes may take `chunk` bytes more: whether the two
/// together are within [`MAX_BODY_SIZE`].
pub fn body_accepts(held: usize, chunk: usize) -> (r: bool)
    ensures
        r == (held + chunk <= MAX_BODY_SIZE),
{
    held <= MAX_BODY_SIZE && chunk <= MAX_BODY_SIZE - held
}

/// The token of an authorization header: what follows its first seven
/// characters, the scheme and a space.
pub open spec fn token_of(header: Seq<char>) -> Option<Seq<char>> {
    if header.len() < 7 {
        None
    } else {
        Some(header.skip(7))
    }
}

/// The token of the authorization header `header`.
pub fn bearer_token(header: &str) -> (r: Result<String, Error>)
    ensures
        match r {
            Ok(token) => token_of(header@) == Some(token@),
            Err(e) => token_of(header@) is None && e@ == ErrorView::InvalidAuthToken,
        },
{
    let n = header.unicode_len();
    if n < 7 {
        return Err(Error::invalid_auth_token());
    }
    let token = String::from_str(header.substring_char(7, n));
    assert(token@ =~= header@.skip(7));
    Ok(token)
}

/// The handler of a request.
#[derive(Clone, Copy, Debug, PartialEq, Eq, Structural)]
pub enum Handler {
    FindUnique,
    FindFirst,
    FindMany,
    Create,
    Update,
    Upsert,
    Delete,
    CreateMany,
    UpdateMany,
    DeleteMany,
    Count,
    Aggregate,
    GroupBy,
    SignIn,
    Identity,
}

/// When, in a test run, the data is put back after a request.
#[derive(Clone, Copy, Debug, PartialEq, Eq, Structural)]
pub enum ResetTime {
    AfterQuery,
    AfterMutation,
    Never,
}

/// The way in which a test run puts its data back.
#[derive(Clone, Copy, Debug, PartialEq, Eq, Structural)]
pub enum ResetMode {
    /// After every request that reads or writes.
    AfterQuery,
    /// After every request that writes.
    AfterMutation,
}

impl ResetMode {
    /// Whether the data is put back after a request that reads.
    pub fn after_query(&self) -> (r: bool)
        ensures
            r == (*self == ResetMode::AfterQuery),
    {
        match self {
            ResetMode::AfterQuery => true,
            ResetMode::AfterMutation => false,
        }
    }

    /// Whether the data is put back after a request that writes.
    pub fn after_mutation(&self) -> (r: bool)
        ensures
            r,
    {
        true
    }
}

impl Handler {
    /// The handler of the flags `flags`.
    pub open spec fn of_flags(flags: u32) -> Option<Handler> {
        if flags == FIND_UNIQUE_HANDLER {
            Some(Handler::FindUnique)
        } else if flags == FIND_FIRST_HANDLER {
            Some(Handler::FindFirst)
        } else if flags == FIND_MANY_HANDLER {
            Some(Handler::FindMany)
        } else if flags == CREATE_HANDLER {
            Some(Handler::Create)
        } else if flags == UPDATE_HANDLER {
            Some(Handler::Update)
        } else if flags == UPSERT_HANDLER {
            Some(Handler::Upsert)
        } else if flags == DELETE_HANDLER {
            Some(Handler::Delete)
        } else if flags == CREATE_MANY_HANDLER {
            Some(Handler::CreateMany)
        } else if flags == UPDATE_MANY_HANDLER {
            Some(Handler::UpdateMany)
        } else if flags == DELETE_MANY_HANDLER {
            Some(Handler::DeleteMany)
        } else if flags == COUNT_HANDLER {
            Some(Handler::Count)
        } else if flags == AGGREGATE_HANDLER {
            Some(Handler::Aggregate)
        } else if flags == GROUP_BY_HANDLER {
            Some(Handler::GroupBy)
        } else if flags == SIGN_IN_HANDLER {
            Some(Handler::SignIn)
        } else if flags == IDENTITY_HANDLER {
            Some(Handler::Identity)
        } else {
            None
        }
    }

    /// The handler that takes a request of the action `action`: that whose
    /// flags are exactly those of the action.
    pub fn of_action(action: Action) -> (r: Option<Handler>)
        ensures
            r == Handler::of_flags(action.value),
    {
        let flags = action.to_u32();
        if flags == FIND_UNIQUE_HANDLER {
            Some(Handler::FindUnique)
        } else if flags == FIND_FIRST_HANDLER {
            Some(Handler::FindFirst)
        } else if flags == FIND_MANY_HANDLER {
            Some(Handler::FindMany)
        } else if flags == CREATE_HANDLER {
            Some(Handler::Create)
        } else if flags == UPDATE_HANDLER {
            Some(Handler::Update)
        } else if flags == UPSERT_HANDLER {
            Some(Handler::Upsert)
        } else if flags == DELETE_HANDLER {
            Some(Handler::Delete)
        } else if flags == CREATE_MANY_HANDLER {
            Some(Handler::CreateMany)
        } else if flags == UPDATE_MANY_HANDLER {
            Some(Handler::UpdateMany)
        } else if flags == DELETE_MANY_HANDLER {
            Some(Handler::DeleteMany)
        } else if flags == COUNT_HANDLER {
            Some(Handler::Count)
        } else if flags == AGGREGATE_HANDLER {
            Some(Handler::Aggregate)
        } else if flags == GROUP_BY_HANDLER {
            Some(Handler::GroupBy)
        } else if flags == SIGN_IN_HANDLER {
            Some(Handler::SignIn)
        } else if flags == IDENTITY_HANDLER {
            Some(Handler::Identity)
        } else {
            None
        }
    }

    /// When the data is put back after the handler ran: after a query for the
    /// three that find, after a mutation for the seven that write, never for
    /// the rest.
    pub open spec fn resets(self) -> ResetTime {
        match self {
            Handler::FindUnique | Handler::FindFirst | Handler::FindMany => ResetTime::AfterQuery,
            Handler::Create
            | Handler::Update
            | Handler::Upsert
            | Handler::Delete
            | Handler::CreateMany
            | Handler::UpdateMany
            | Handler::DeleteMany => ResetTime::AfterMutation,
            _ => ResetTime::Never,
        }
    }

    /// When the data is put back after the handler ran.
    pub fn reset_time(&self) -> (r: ResetTime)
        ensures
            r == self.resets(),
    {
        match self {
            Handler::FindUnique => ResetTime::AfterQuery,
            Handler::FindFirst => ResetTime::AfterQuery,
            Handler::FindMany => ResetTime::AfterQuery,
            Handler::Create => ResetTime::AfterMutation,
            Handler::Update => ResetTime::AfterMutation,
            Handler::Upsert => ResetTime::AfterMutation,
            Handler::Delete => ResetTime::AfterMutation,
            Handler::CreateMany => ResetTime::AfterMutation,
            Handler::UpdateMany => ResetTime::AfterMutation,
            Handler::DeleteMany => ResetTime::AfterMutation,
            _ => ResetTime::Never,
        }
    }

    /// Whether the data is to be put back after the handler ran, in a test run
    /// of the mode `mode`; never outside a test run.
    pub fn needs_reset(&self, mode: Option<ResetMode>) -> (r: bool)
        ensures
            r == match (mode, self.resets()) {
                (Some(m), ResetTime::AfterQuery) => m == ResetMode::AfterQuery,
                (Some(_), ResetTime::AfterMutation) => true,
                _ => false,
            },
    {
        match mode {
            None => false,
            Some(mode) => match self.reset_time() {
                ResetTime::AfterQuery => mode.after_query(),
                ResetTime::AfterMutation => mode.after_mutation(),
                ResetTime::Never => false,
            },
        }
    }
}

} // verus!

verus! {

/// The size of a body of `held` bytes after `chunk` bytes more, where the two
/// together are within [`MAX_BODY_SIZE`]; else the error of a body that is too
/// large to be held.
pub fn grown_body(held: usize, chunk: usize) -> (r: Result<usize, Error>)
    ensures
        match r {
            Ok(size) => held + chunk <= MAX_BODY_SIZE && size == held + chunk,
            Err(e) => held + chunk > MAX_BODY_SIZE && e@ == (ErrorView::InternalServerError {
                reason: "Memory overflow."@,
            }),
        },
{
    if body_accepts(held, chunk) {
        Ok(held + chunk)
    } else {
        Err(Error::internal_server_error("Memory overflow."))
    }
}

/// Lets a body through that is a JSON object, and refuses any other.
pub fn object_root(body: &crate::json::Json) -> (r: Result<(), Error>)
    ensures
        match r {
            Ok(()) => body@ is Object,
            Err(e) => !(body@ is Object) && e@ == (ErrorView::UnexpectedInputRootType {
                expected: "object"@,
            }),
        },
{
    if body.is_object() {
        Ok(())
    } else {
        Err(Error::unexpected_input_root_type("object"))
    }
}

/// Lets an identity through that is of the model asked for, and refuses one of
/// another model: the two paths must hold the same names in the same order.
pub fn identity_of_model(identity_model: &Vec<String>, model: &Vec<String>) -> (r: Result<
    (),
    Error,
>)
    ensures
        match r {
            Ok(()) => crate::text::texts(identity_model@) == crate::text::texts(model@),
            Err(e) => crate::text::texts(identity_model@) != crate::text::texts(model@) && e@
                == ErrorView::WrongIdentityModel,
        },
{
    let ghost a = crate::text::texts(identity_model@);
    let ghost b = crate::text::texts(model@);
    if identity_model.len() != model.len() {
        assert(a.len() != b.len());
        return Err(Error::wrong_identity_model());
    }
    let mut i: usize = 0;
    while i < model.len()
        invariant
            i <= model.len(),
            identity_model.len() == model.len(),
            a == crate::text::texts(identity_model@),
            b == crate::text::texts(model@),
            forall|j: int| 0 <= j < i ==> a[j] == b[j],
        decreases model.len() - i,
    {
        if !same_text(identity_model[i].as_str(), model[i].as_str()) {
            assert(a[i as int] != b[i as int]);
            return Err(Error::wrong_identity_model());
        }
        i += 1;
    }
    assert(a =~= b);
    Ok(())
}

} // verus!
