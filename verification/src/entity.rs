//! The user record as this crate reads it. Persistence owns the table; this
//! crate only consumes rows, so the record carries plain values: identifiers
//! are 128-bit numbers and timestamps are seconds since the Unix epoch.
use vstd::prelude::*;

verus! {

/// One row of the users table.
///
/// `username`, `email` and (when present) `phone_number` are unique across
/// all users; a violated uniqueness rule is the only constraint failure the
/// error classifier is expected to name. `password` holds the self-describing
/// hash string produced by the credential hasher, never a plaintext.
#[derive(Debug, Clone, PartialEq, Eq)]
pub struct Model {
    pub id: u128,
    pub username: String,
    pub first_name: Option<String>,
    pub last_name: Option<String>,
    pub phone_number: Option<String>,
    pub displayname: String,
    pub email: String,
    pub password: String,
    pub created_at: i64,
    pub last_login: Option<i64>,
}

/// The relations a user row participates in; each names a table whose rows
/// point back at a user.
#[derive(Copy, Clone, Debug)]
pub enum Relation {
    ChapterPages,
    Chapters,
    Comics,
    Comments,
    ProfileImages,
    UserRoles,
}

} // verus!
