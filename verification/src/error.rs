//! What can go wrong with a request, and the reply that each failure gets.

use vstd::prelude::*;
use vstd::string::*;

verus! {

/// Why a request failed.
#[derive(Clone, Debug)]
pub enum MyError {
    /// The assembled feed did not pass validation; the text says why.
    Validation(String),
    /// The upstream could not be fetched, or what it sent could not be read;
    /// the text says why.
    Reqwest(String),
    /// No password is configured, so the list cannot be changed at all.
    AuthNotSet,
    /// The request's credential is not the configured password.
    UnAuthorized,
}

/// What a refused request was refused for, as far as the reply depends on it.
#[derive(Debug)]
pub struct Rejected {
    /// The body was not of the expected shape; the text says how.
    pub body_error: Option<String>,
    /// The failure that a handler or the credential check reported.
    pub error: Option<MyError>,
    /// A required header was missing; the text names it.
    pub missing_header: Option<String>,
}

/// The reply to a failed request: a plain text and a status code.
#[derive(Debug)]
pub struct ErrorReply {
    pub body: String,
    pub status: u16,
}

pub const UNPROCESSABLE_ENTITY: u16 = 422;

pub const FORBIDDEN: u16 = 403;

pub const UNAUTHORIZED: u16 = 401;

pub const INTERNAL_SERVER_ERROR: u16 = 500;

/// The reply's text where no password is configured.
pub open spec fn auth_not_set_text() -> Seq<char> {
    "Update API is disabled. To enable it, set the CLI option auth_password"@
}

/// The reply's text where the credential is wrong.
pub open spec fn unauthorized_text() -> Seq<char> {
    "Authorization header is not equal to CLI option auth_password"@
}

/// The text and status of the reply to a refused request, or nothing where
/// none of the known causes applies. The causes are looked at in this order: a
/// body of the wrong shape, a missing or a wrong password, a missing header, a
/// failed fetch or rendering.
pub open spec fn reply_for(rejected: Rejected) -> Option<(Seq<char>, u16)> {
    if let Some(text) = rejected.body_error {
        Some((text@, UNPROCESSABLE_ENTITY))
    } else if rejected.error == Some(MyError::AuthNotSet) {
        Some((auth_not_set_text(), FORBIDDEN))
    } else if rejected.error == Some(MyError::UnAuthorized) {
        Some((unauthorized_text(), UNAUTHORIZED))
    } else if let Some(text) = rejected.missing_header {
        Some((text@, UNAUTHORIZED))
    } else if let Some(MyError::Validation(text)) = rejected.error {
        Some((text@, INTERNAL_SERVER_ERROR))
    } else if let Some(MyError::Reqwest(text)) = rejected.error {
        Some((text@, INTERNAL_SERVER_ERROR))
    } else {
        None
    }
}

/// Chooses the reply to a refused request.
///
/// A body of the wrong shape is the client's fault (422, with the parser's
/// words). A missing password configuration forbids every change (403); a
/// wrong or missing credential is unauthorized (401). A failed fetch or
/// rendering is the server's fault (500, with the failure's description).
/// Anything else is not this function's to answer.
pub fn return_error(rejected: &Rejected) -> (r: Option<ErrorReply>)
    ensures
        match r {
            Some(reply) => reply_for(*rejected) == Some((reply.body@, reply.status)),
            None => reply_for(*rejected) is None,
        },
{
    if let Some(text) = &rejected.body_error {
        return Some(ErrorReply { body: text.clone(), status: UNPROCESSABLE_ENTITY });
    }
    if let Some(MyError::AuthNotSet) = &rejected.error {
        return Some(
            ErrorReply {
                body: String::from_str(
                    "Update API is disabled. To enable it, set the CLI option auth_password",
                ),
                status: FORBIDDEN,
            },
        );
    }
    if let Some(MyError::UnAuthorized) = &rejected.error {
        return Some(
            ErrorReply {
                body: String::from_str(
                    "Authorization header is not equal to CLI option auth_password",
                ),
                status: UNAUTHORIZED,
            },
        );
    }
    if let Some(text) = &rejected.missing_header {
        return Some(ErrorReply { body: text.clone(), status: UNAUTHORIZED });
    }
    match &rejected.error {
        Some(MyError::Validation(text)) => Some(
            ErrorReply { body: text.clone(), status: INTERNAL_SERVER_ERROR },
        ),
        Some(MyError::Reqwest(text)) => Some(
            ErrorReply { body: text.clone(), status: INTERNAL_SERVER_ERROR },
        ),
        _ => None,
    }
}

/// Checks the credential of a request that wants to change the list.
///
/// Without a configured password nothing is let through. With one, exactly
/// the requests whose credential equals it are.
pub fn check_auth(auth_password: Option<&String>, auth_header: &String) -> (r: Result<(), MyError>)
    ensures
        match auth_password {
            None => r == Err::<(), MyError>(MyError::AuthNotSet),
            Some(p) => if p@ == auth_header@ {
                r is Ok
            } else {
                r == Err::<(), MyError>(MyError::UnAuthorized)
            },
        },
{
    match auth_password {
        None => Err(MyError::AuthNotSet),
        Some(p) => {
            if *auth_header == *p {
                Ok(())
            } else {
                Err(MyError::UnAuthorized)
            }
        },
    }
}

} // verus!
