//! The credentials of the user: where they are kept, which ones a run
//! takes, and how a stored session is told from an anonymous one.

use crate::error::FatalError;
use crate::text::{contains_text, has_infix, names, optional_string, same_text};
use vstd::prelude::*;

verus! {

/// The service under which the credentials are stored in the keychain.
pub const KEYSTORE_SERVICE: &'static str = "kv-downloader";

/// The keychain entry that holds the credentials.
pub const KV_CREDENTIALS_KEY: &'static str = "KV_CREDENTIALS";

/// The environment variable that holds the user name.
pub const USERNAME_VARIABLE: &'static str = "KV_USERNAME";

/// The environment variable that holds the password.
pub const PASSWORD_VARIABLE: &'static str = "KV_PASSWORD";

/// The name of the cookie that holds the session.
pub const SESSION_COOKIE_NAME: &'static str = "karaoke-version";

/// What the session cookie of a signed-in user holds.
pub const SIGNED_IN_MARK: &'static str = "|u-i:";

/// A user name and a password.
pub struct Credentials {
    pub user: String,
    pub password: String,
}

/// The mathematical content of credentials.
pub struct CredentialsView {
    pub user: Seq<char>,
    pub password: Seq<char>,
}

impl View for Credentials {
    type V = CredentialsView;

    open spec fn view(&self) -> CredentialsView {
        CredentialsView { user: self.user@, password: self.password@ }
    }
}

/// The content of optional credentials.
pub open spec fn optional_credentials(credentials: Option<Credentials>) -> Option<
    CredentialsView,
> {
    match credentials {
        Some(c) => Some(c@),
        None => None,
    }
}

/// The credentials that the environment holds: both the user name and the
/// password have to be set.
pub open spec fn credentials_in(user: Option<Seq<char>>, password: Option<Seq<char>>) -> Option<
    CredentialsView,
> {
    match (user, password) {
        (Some(user), Some(password)) => Some(CredentialsView { user, password }),
        _ => None,
    }
}

/// The credentials that a run takes: those of the environment before the
/// stored ones, but none at all where none are stored.
pub open spec fn chosen_credentials(
    from_env: Option<CredentialsView>,
    stored: Option<CredentialsView>,
) -> Result<CredentialsView, FatalError> {
    match stored {
        None => Err(FatalError::MissingCredentials),
        Some(stored) => match from_env {
            Some(given) => Ok(given),
            None => Ok(stored),
        },
    }
}

/// The content of the result of choosing credentials.
pub open spec fn credentials_result(result: Result<Credentials, FatalError>) -> Result<
    CredentialsView,
    FatalError,
> {
    match result {
        Ok(c) => Ok(c@),
        Err(e) => Err(e),
    }
}

impl Credentials {
    /// The credentials of `user` with `password`.
    pub fn new(user: &str, password: &str) -> (credentials: Credentials)
        ensures
            credentials@ == (CredentialsView { user: user@, password: password@ }),
    {
        Credentials { user: user.to_owned(), password: password.to_owned() }
    }

    /// The credentials that the environment holds, given the values of
    /// [`USERNAME_VARIABLE`] and [`PASSWORD_VARIABLE`]: both have to be set.
    pub fn from_env(user: Option<String>, password: Option<String>) -> (credentials: Option<
        Credentials,
    >)
        ensures
            optional_credentials(credentials) == credentials_in(
                optional_string(user),
                optional_string(password),
            ),
    {
        match user {
            Some(user) => match password {
                Some(password) => Some(Credentials { user, password }),
                None => None,
            },
            None => None,
        }
    }

    /// The credentials that a run takes. Without stored credentials there
    /// is no run, whatever the environment holds; with them, those of the
    /// environment come first.
    pub fn resolve(from_env: Option<Credentials>, stored: Option<Credentials>) -> (chosen: Result<
        Credentials,
        FatalError,
    >)
        ensures
            credentials_result(chosen) == chosen_credentials(
                optional_credentials(from_env),
                optional_credentials(stored),
            ),
    {
        match stored {
            None => Err(FatalError::MissingCredentials),
            Some(stored) => match from_env {
                Some(given) => Ok(given),
                None => Ok(stored),
            },
        }
    }

    /// Whether these are the credentials `other`.
    pub fn same_as(&self, other: &Credentials) -> (same: bool)
        ensures
            same == (self@ == other@),
    {
        same_text(self.user.as_str(), other.user.as_str()) && same_text(
            self.password.as_str(),
            other.password.as_str(),
        )
    }
}

/// Whether a session cookie with this value belongs to a signed-in user.
pub fn cookie_is_signed_in(value: &str) -> (signed_in: bool)
    ensures
        signed_in == has_infix(value@, SIGNED_IN_MARK@),
{
    contains_text(value, SIGNED_IN_MARK)
}

/// The position of the session cookie among cookies with these names: that
/// of the first cookie named [`SESSION_COOKIE_NAME`].
pub fn find_session_cookie(cookie_names: &Vec<String>) -> (position: Option<usize>)
    ensures
        match position {
            Some(p) => {
                &&& p < cookie_names.len()
                &&& cookie_names@[p as int]@ == SESSION_COOKIE_NAME@
                &&& forall|i: int| 0 <= i < p ==> cookie_names@[i]@ != SESSION_COOKIE_NAME@
            },
            None => !names(cookie_names@).contains(SESSION_COOKIE_NAME@),
        },
{
    let mut i: usize = 0;
    while i < cookie_names.len()
        invariant
            i <= cookie_names.len(),
            forall|j: int| 0 <= j < i ==> cookie_names@[j]@ != SESSION_COOKIE_NAME@,
        decreases cookie_names.len() - i,
    {
        if same_text(cookie_names[i].as_str(), SESSION_COOKIE_NAME) {
            return Some(i);
        }
        i += 1;
    }
    None
}

} // verus!
