//! Who may read or change which user, and how a change to a user is carried
//! out against the store, one step at a time.

use vstd::prelude::*;
use crate::error::DbFailure;
use crate::jwt::Claims;
use crate::models::User;

verus! {

/// Why a request is turned away.
#[derive(PartialEq, Eq, Structural, Clone, Copy, Debug)]
pub enum Refusal {
    /// No verified identity came with the request (reported as "User not
    /// authenticated").
    NotAuthenticated,
    /// No verified identity came with the request (reported as "User not
    /// found").
    UnknownRequester,
    /// The requester is not an administrator.
    NotAdmin,
    /// The requester may not make this change.
    NotAllowed,
    /// The user asked for does not exist.
    UserNotFound,
    /// The new login is already taken.
    LoginTaken,
    /// The store failed.
    Internal,
}

impl Refusal {
    /// The HTTP status of the answer.
    pub open spec fn spec_status(self) -> u16 {
        match self {
            Refusal::NotAuthenticated => 401,
            Refusal::UnknownRequester => 401,
            Refusal::NotAdmin => 401,
            Refusal::NotAllowed => 403,
            Refusal::UserNotFound => 404,
            Refusal::LoginTaken => 409,
            Refusal::Internal => 500,
        }
    }

    /// The message of the answer.
    pub open spec fn spec_message(self) -> Seq<char> {
        match self {
            Refusal::NotAuthenticated => "User not authenticated"@,
            Refusal::UnknownRequester => "User not found"@,
            Refusal::NotAdmin => "User is not an admin"@,
            Refusal::NotAllowed => "Operation not allowed"@,
            Refusal::UserNotFound => "User not found"@,
            Refusal::LoginTaken => "Login already exists"@,
            Refusal::Internal => "Internal Server Error"@,
        }
    }

    /// The HTTP status of the answer.
    pub fn status(&self) -> (s: u16)
        ensures
            s == self.spec_status(),
    {
        match self {
            Refusal::NotAuthenticated => 401,
            Refusal::UnknownRequester => 401,
            Refusal::NotAdmin => 401,
            Refusal::NotAllowed => 403,
            Refusal::UserNotFound => 404,
            Refusal::LoginTaken => 409,
            Refusal::Internal => 500,
        }
    }

    /// The message of the answer.
    pub fn message(&self) -> (m: &'static str)
        ensures
            m@ == self.spec_message(),
    {
        match self {
            Refusal::NotAuthenticated => "User not authenticated",
            Refusal::UnknownRequester => "User not found",
            Refusal::NotAdmin => "User is not an admin",
            Refusal::NotAllowed => "Operation not allowed",
            Refusal::UserNotFound => "User not found",
            Refusal::LoginTaken => "Login already exists",
            Refusal::Internal => "Internal Server Error",
        }
    }
}

/// Admits a request to list all users: the requester's claims must be there
/// and grant administration.
pub fn require_admin(requester: Option<&Claims>) -> (res: Result<(), Refusal>)
    ensures
        res == match requester {
            None => Err(Refusal::NotAuthenticated),
            Some(c) => if c.admin {
                Ok(())
            } else {
                Err(Refusal::NotAdmin)
            },
        },
{
    match requester {
        None => Err(Refusal::NotAuthenticated),
        Some(c) => if c.admin {
            Ok(())
        } else {
            Err(Refusal::NotAdmin)
        },
    }
}

/// Admits a request to look a user up by an administrator: the requesting user
/// must be known and be an administrator.
pub fn require_admin_user(requester: Option<&User>) -> (res: Result<(), Refusal>)
    ensures
        res == match requester {
            None => Err(Refusal::NotAuthenticated),
            Some(u) => if u.admin {
                Ok(())
            } else {
                Err(Refusal::NotAdmin)
            },
        },
{
    match requester {
        None => Err(Refusal::NotAuthenticated),
        Some(u) => if u.admin {
            Ok(())
        } else {
            Err(Refusal::NotAdmin)
        },
    }
}

/// Admits a request that only needs a verified requester.
pub fn require_requester(requester: Option<&Claims>) -> (res: Result<(), Refusal>)
    ensures
        res == match requester {
            None => Err(Refusal::UnknownRequester),
            Some(_) => Ok(()),
        },
{
    match requester {
        None => Err(Refusal::UnknownRequester),
        Some(_) => Ok(()),
    }
}

/// The answer to a failed lookup of a user: "not found" when there is no such
/// row, an internal error otherwise.
pub fn lookup_refusal(failure: &DbFailure) -> (r: Refusal)
    ensures
        r == match failure {
            DbFailure::NotFound => Refusal::UserNotFound,
            _ => Refusal::Internal,
        },
{
    match failure {
        DbFailure::NotFound => Refusal::UserNotFound,
        _ => Refusal::Internal,
    }
}

/// The answer to a lookup of users by login that found `found` of them: a
/// lookup that finds no user answers "not found".
pub fn lookup_answer(found: usize) -> (r: Result<(), Refusal>)
    ensures
        r == (if found == 0 {
            Err(Refusal::UserNotFound)
        } else {
            Ok(())
        }),
{
    if found == 0 {
        Err(Refusal::UserNotFound)
    } else {
        Ok(())
    }
}

} // verus!
