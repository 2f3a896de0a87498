//! The stored user record.

use vstd::prelude::*;

verus! {

/// A calendar date and time without time zone, carried through unread.
#[verifier::external_type_specification]
#[verifier::external_body]
pub struct ExNaiveDateTime(chrono::NaiveDateTime);

/// A row of the `user` table.
pub struct User {
    /// The user's UUID, as its 128-bit big-endian value.
    pub uid: u128,
    pub login: String,
    pub username: String,
    pub avatar: String,
    pub email: String,
    pub created_at: chrono::NaiveDateTime,
    pub admin: bool,
}

} // verus!
