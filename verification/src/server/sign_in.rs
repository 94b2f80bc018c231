//! What signing in asks of its input: one key that names who signs in, and one
//! key by which that is checked.
use vstd::prelude::*;
use crate::collections::{contains_key, has_key};
use crate::pipeline::ctx::PathItemView;
use crate::server::error::{Error, ErrorView, key_path, key_path2};
use crate::value::{Value, ValueView, pairs};

verus! {

/// The seconds for which a token holds: 365 days.
pub const TOKEN_LIFETIME: i64 = 31_536_000;

/// The second at which a token made at the second `now` runs out; none where
/// that second is before the epoch or beyond what can be counted.
pub fn token_expiry(now: i64) -> (r: Option<u64>)
    ensures
        r == if 0 <= now + TOKEN_LIFETIME <= i64::MAX {
            Some((now + TOKEN_LIFETIME) as u64)
        } else {
            None
        },
{
    match now.checked_add(TOKEN_LIFETIME) {
        Some(at) => if at >= 0 {
            Some(at as u64)
        } else {
            None
        },
        None => None,
    }
}

/// The credentials of a sign-in.
#[derive(Debug, PartialEq)]
pub struct Credentials {
    pub identity_key: String,
    pub identity_value: Value,
    pub by_key: String,
    pub by_value: Value,
}

/// The mathematical content of [`Credentials`].
pub struct CredentialsView {
    pub identity_key: Seq<char>,
    pub identity_value: ValueView,
    pub by_key: Seq<char>,
    pub by_value: ValueView,
}

impl View for Credentials {
    type V = CredentialsView;

    open spec fn view(&self) -> CredentialsView {
        CredentialsView {
            identity_key: self.identity_key@,
            identity_value: self.identity_value@,
            by_key: self.by_key@,
            by_value: self.by_value@,
        }
    }
}

/// The path of the credentials in the input.
pub open spec fn credentials_path() -> Seq<PathItemView> {
    seq![PathItemView::Key("credentials"@)]
}

/// The path of the entry `key` of the credentials.
pub open spec fn credential_path(key: Seq<char>) -> Seq<PathItemView> {
    seq![PathItemView::Key("credentials"@), PathItemView::Key(key)]
}

/// Where the identity and the checker stand among the first `n` of `entries`,
/// or the error at the first entry that is one too many or neither.
pub open spec fn scanned(
    entries: Seq<(Seq<char>, ValueView)>,
    identity_keys: Seq<String>,
    by_keys: Seq<String>,
    n: int,
) -> Result<(Option<int>, Option<int>), ErrorView>
    decreases n,
{
    if n <= 0 {
        Ok((None, None))
    } else {
        match scanned(entries, identity_keys, by_keys, n - 1) {
            Err(e) => Err(e),
            Ok((identity, by)) => {
                let key = entries[n - 1].0;
                if has_key(identity_keys, key) {
                    if identity is None {
                        Ok((Some(n - 1), by))
                    } else {
                        Err(
                            ErrorView::UnexpectedInputValue {
                                reason: "Multiple auth identity provided"@,
                                path: credential_path(key),
                            },
                        )
                    }
                } else if has_key(by_keys, key) {
                    if by is None {
                        Ok((identity, Some(n - 1)))
                    } else {
                        Err(
                            ErrorView::UnexpectedInputValue {
                                reason: "Multiple auth checker provided"@,
                                path: credential_path(key),
                            },
                        )
                    }
                } else {
                    Err(ErrorView::UnexpectedInputKey { key, path: credential_path(key) })
                }
            },
        }
    }
}

/// The credentials that `input` holds under `credentials`: exactly one entry
/// under a key of `identity_keys` and exactly one under a key of `by_keys`, and
/// no other entry.
pub open spec fn credentials_of(input: ValueView, identity_keys: Seq<String>, by_keys: Seq<String>) -> Result<
    CredentialsView,
    ErrorView,
> {
    match input.entry("credentials"@) {
        None => Err(
            ErrorView::MissingRequiredInput { expected: "object"@, path: credentials_path() },
        ),
        Some(ValueView::Dictionary(entries)) => match scanned(
            entries,
            identity_keys,
            by_keys,
            entries.len() as int,
        ) {
            Err(e) => Err(e),
            Ok((None, _)) => Err(
                ErrorView::MissingRequiredInput {
                    expected: "auth identity"@,
                    path: credentials_path(),
                },
            ),
            Ok((Some(_), None)) => Err(
                ErrorView::MissingRequiredInput {
                    expected: "auth checker"@,
                    path: credentials_path(),
                },
            ),
            Ok((Some(i), Some(j))) => Ok(
                CredentialsView {
                    identity_key: entries[i].0,
                    identity_value: entries[i].1,
                    by_key: entries[j].0,
                    by_value: entries[j].1,
                },
            ),
        },
        Some(_) => Err(
            ErrorView::UnexpectedInputType { expected: "object"@, path: credentials_path() },
        ),
    }
}

/// Once the scan has met an error, it stays there.
proof fn scan_stops(
    entries: Seq<(Seq<char>, ValueView)>,
    identity_keys: Seq<String>,
    by_keys: Seq<String>,
    m: int,
    n: int,
)
    requires
        m <= n,
        scanned(entries, identity_keys, by_keys, m) is Err,
    ensures
        scanned(entries, identity_keys, by_keys, n) == scanned(entries, identity_keys, by_keys, m),
    decreases n - m,
{
    if m < n {
        scan_stops(entries, identity_keys, by_keys, m, n - 1);
    }
}

/// Reads the credentials of a sign-in from `input`.
pub fn read_credentials(input: &Value, identity_keys: &Vec<String>, by_keys: &Vec<String>) -> (r:
    Result<Credentials, Error>)
    ensures
        match r {
            Ok(c) => credentials_of(input@, identity_keys@, by_keys@) == Ok::<
                CredentialsView,
                ErrorView,
            >(c@),
            Err(e) => credentials_of(input@, identity_keys@, by_keys@) == Err::<
                CredentialsView,
                ErrorView,
            >(e@),
        },
{
    let credentials = match input.get("credentials") {
        Some(credentials) => credentials,
        None => {
            return Err(
                Error::missing_required_input_with_type("object", key_path("credentials")),
            );
        },
    };
    let entries = match credentials {
        Value::Dictionary(entries) => entries,
        _ => {
            return Err(Error::unexpected_input_type("object", key_path("credentials")));
        },
    };
    let ghost all = pairs(entries@);
    assert(credentials@->Dictionary_0 =~= all);
    let mut identity: Option<usize> = None;
    let mut by: Option<usize> = None;
    let mut i: usize = 0;
    while i < entries.len()
        invariant
            i <= entries.len(),
            all == pairs(entries@),
            input@.entry("credentials"@) == Some(ValueView::Dictionary(all)),
            identity matches Some(a) ==> a < i,
            by matches Some(b) ==> b < i,
            scanned(all, identity_keys@, by_keys@, i as int) == Ok::<
                (Option<int>, Option<int>),
                ErrorView,
            >(
                (
                    match identity {
                        Some(a) => Some(a as int),
                        None => None,
                    },
                    match by {
                        Some(b) => Some(b as int),
                        None => None,
                    },
                ),
            ),
        decreases entries.len() - i,
    {
        let k = entries[i].0.as_str();
        assert(all[i as int].0 == k@);
        if contains_key(identity_keys, k) {
            if identity.is_none() {
                identity = Some(i);
            } else {
                proof {
                    scan_stops(all, identity_keys@, by_keys@, i + 1, all.len() as int);
                }
                return Err(
                    Error::unexpected_input_value_with_reason(
                        "Multiple auth identity provided",
                        key_path2("credentials", k),
                    ),
                );
            }
        } else if contains_key(by_keys, k) {
            if by.is_none() {
                by = Some(i);
            } else {
                proof {
                    scan_stops(all, identity_keys@, by_keys@, i + 1, all.len() as int);
                }
                return Err(
                    Error::unexpected_input_value_with_reason(
                        "Multiple auth checker provided",
                        key_path2("credentials", k),
                    ),
                );
            }
        } else {
            proof {
                scan_stops(all, identity_keys@, by_keys@, i + 1, all.len() as int);
            }
            return Err(Error::unexpected_input_key(k, key_path2("credentials", k)));
        }
        i += 1;
    }
    let a = match identity {
        Some(a) => a,
        None => {
            return Err(
                Error::missing_required_input_with_type("auth identity", key_path("credentials")),
            );
        },
    };
    let b = match by {
        Some(b) => b,
        None => {
            return Err(
                Error::missing_required_input_with_type("auth checker", key_path("credentials")),
            );
        },
    };
    Ok(
        Credentials {
            identity_key: entries[a].0.clone(),
            identity_value: entries[a].1.clone(),
            by_key: entries[b].0.clone(),
            by_value: entries[b].1.clone(),
        },
    )
}

} // verus!
