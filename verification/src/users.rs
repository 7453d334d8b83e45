//! The closed error taxonomy of the users service, the classifier that maps
//! persistence-layer failures into it, and the renderer that maps every cause
//! onto exactly one transport status code and response body.
use vstd::prelude::*;

use crate::entity::Model;
use crate::ErrorHandlingResponse;

verus! {

/// What this crate reads out of an error returned by the persistence layer:
/// whether the operation found no matching row, violated a uniqueness
/// constraint (and, when the backend reports it, which one, by name), or
/// failed for any other reason.
#[derive(Debug, Clone, PartialEq, Eq)]
pub enum DbError {
    /// A lookup by key matched no row.
    NotFound,
    /// A write violated a uniqueness constraint; the payload is the violated
    /// constraint's name, when the backend reports one.
    UniqueViolation(Option<String>),
    /// Any other persistence failure.
    Other,
}

/// Every failure the users service can surface. Exactly one cause reaches
/// the response layer per request, and each cause renders to exactly one
/// status code and body.
#[derive(Debug, Clone, PartialEq, Eq)]
pub enum UsersError {
    InternalServerError,
    UserNotFound,
    InvalidCredentials,
    BadRequest,
    HasNoPosts,
    AlreadyLoggedIn,
    /// A presented session token was malformed, carried a bad signature, or
    /// named no subject.
    TokenInvalid,
    /// The password hasher failed for a reason other than a wrong password
    /// (a malformed stored hash, or an internal failure while hashing).
    Argon2,
    /// A persistence failure, still to be classified.
    Diesel(DbError),
    /// Field-rule violations, one message per violated rule, in field
    /// declaration order.
    Validator(Vec<String>),
    /// A write collided with an existing row; the payload is the user-facing
    /// message naming the colliding key.
    Conflict(String),
}

/// Whether a uniqueness-constraint name is one of the three this service
/// knows how to surface as a conflict.
pub open spec fn known_constraint(name: Option<String>) -> bool {
    match name {
        Some(n) => n@ == "users_email_key"@ || n@ == "users_username_key"@
            || n@ == "users_phone_number_key"@,
        None => false,
    }
}

/// The classifier's contract: which cause each persistence error maps to.
/// Unknown or unreported constraint names fail closed into
/// `InternalServerError`, so raw persistence detail never reaches a caller.
pub open spec fn classified(e: DbError, r: UsersError) -> bool {
    match e {
        DbError::NotFound => r is UserNotFound,
        DbError::UniqueViolation(name) => match name {
            Some(n) => if n@ == "users_email_key"@ {
                r is Conflict && r->Conflict_0@ == "user with the same email already exists"@
            } else if n@ == "users_username_key"@ {
                r is Conflict && r->Conflict_0@ == "user with the same username already exists"@
            } else if n@ == "users_phone_number_key"@ {
                r is Conflict && r->Conflict_0@ == "user with the same phone number already exists"@
            } else {
                r is InternalServerError
            },
            None => r is InternalServerError,
        },
        DbError::Other => r is InternalServerError,
    }
}

/// The status a classified persistence error renders to.
pub open spec fn spec_db_status(e: DbError) -> u16 {
    match e {
        DbError::NotFound => 404,
        DbError::UniqueViolation(name) => if known_constraint(name) {
            409
        } else {
            500
        },
        DbError::Other => 500,
    }
}

/// The body a classified persistence error renders to.
pub open spec fn spec_db_body(e: DbError) -> Seq<Seq<char>> {
    match e {
        DbError::NotFound => seq!["user not found"@],
        DbError::UniqueViolation(name) => match name {
            Some(n) => if n@ == "users_email_key"@ {
                seq!["user with the same email already exists"@]
            } else if n@ == "users_username_key"@ {
                seq!["user with the same username already exists"@]
            } else if n@ == "users_phone_number_key"@ {
                seq!["user with the same phone number already exists"@]
            } else {
                seq!["internal server error"@]
            },
            None => seq!["internal server error"@],
        },
        DbError::Other => seq!["internal server error"@],
    }
}

/// The status every cause renders to; no cause renders to more than one.
pub open spec fn spec_status(e: UsersError) -> u16 {
    match e {
        UsersError::InternalServerError => 500,
        UsersError::UserNotFound => 404,
        UsersError::InvalidCredentials => 401,
        UsersError::BadRequest => 400,
        UsersError::HasNoPosts => 404,
        UsersError::AlreadyLoggedIn => 400,
        UsersError::TokenInvalid => 401,
        UsersError::Argon2 => 500,
        UsersError::Diesel(db) => spec_db_status(db),
        UsersError::Validator(_) => 400,
        UsersError::Conflict(_) => 409,
    }
}

/// The ordered list of messages every cause renders to.
pub open spec fn spec_body(e: UsersError) -> Seq<Seq<char>> {
    match e {
        UsersError::InternalServerError => seq!["internal server error"@],
        UsersError::UserNotFound => seq!["user not found"@],
        UsersError::InvalidCredentials => seq!["invalid credentials"@],
        UsersError::BadRequest => seq!["bad request"@],
        UsersError::HasNoPosts => seq!["user has no posts"@],
        UsersError::AlreadyLoggedIn => seq!["already logged in"@],
        UsersError::TokenInvalid => seq!["invalid token"@],
        UsersError::Argon2 => seq!["internal server error"@],
        UsersError::Diesel(db) => spec_db_body(db),
        UsersError::Validator(msgs) => msgs.deep_view(),
        UsersError::Conflict(m) => seq![m@],
    }
}

/// A response body holding the one given message.
fn literal_body(m: &str) -> (r: ErrorHandlingResponse)
    ensures
        r.errors.deep_view() == seq![m@],
{
    let mut errors: Vec<String> = Vec::new();
    errors.push(m.to_owned());
    proof {
        assert(errors.deep_view() =~= seq![m@]);
    }
    ErrorHandlingResponse { errors }
}

/// A response body holding the one given message, taken by value.
fn owned_body(m: String) -> (r: ErrorHandlingResponse)
    ensures
        r.errors.deep_view() == seq![m@],
{
    let ghost v = m@;
    let mut errors: Vec<String> = Vec::new();
    errors.push(m);
    proof {
        assert(errors.deep_view() =~= seq![v]);
    }
    ErrorHandlingResponse { errors }
}

/// Maps a persistence error to the one domain cause it stands for.
///
/// A lookup that matched no row becomes `UserNotFound`; a uniqueness
/// violation on a known constraint becomes the `Conflict` naming that key;
/// everything else — an unknown or unreported constraint name included —
/// fails closed into `InternalServerError`.
pub fn classify_db_error(e: DbError) -> (r: UsersError)
    ensures
        classified(e, r),
{
    match e {
        DbError::NotFound => UsersError::UserNotFound,
        DbError::UniqueViolation(name) => match name {
            Some(n) => {
                if n == "users_email_key".to_owned() {
                    UsersError::Conflict("user with the same email already exists".to_owned())
                } else if n == "users_username_key".to_owned() {
                    UsersError::Conflict("user with the same username already exists".to_owned())
                } else if n == "users_phone_number_key".to_owned() {
                    UsersError::Conflict("user with the same phone number already exists".to_owned())
                } else {
                    UsersError::InternalServerError
                }
            },
            None => UsersError::InternalServerError,
        },
        DbError::Other => UsersError::InternalServerError,
    }
}

/// Passes a found row through unchanged and classifies a persistence error,
/// so that a missing row surfaces as `UserNotFound`, never as an internal
/// failure.
pub fn lookup_user_by_identifier(found: Result<Model, DbError>) -> (r: Result<
    Model,
    UsersError,
>)
    ensures
        found matches Ok(m) ==> r matches Ok(u) && u == m,
        found matches Err(e) ==> r matches Err(ue) && classified(e, ue),
{
    match found {
        Ok(m) => Ok(m),
        Err(e) => Err(classify_db_error(e)),
    }
}

impl UsersError {
    /// Renders this cause into its one status code and body.
    ///
    /// The mapping is total and deterministic: expected failures keep their
    /// specific message, while internal failures of any origin collapse into
    /// a generic body so that no internal detail reaches the caller.
    pub fn into_response(self) -> (r: (u16, ErrorHandlingResponse))
        ensures
            r.0 == spec_status(self),
            r.1.errors.deep_view() == spec_body(self),
    {
        match self {
            UsersError::InternalServerError => (500, literal_body("internal server error")),
            UsersError::UserNotFound => (404, literal_body("user not found")),
            UsersError::InvalidCredentials => (401, literal_body("invalid credentials")),
            UsersError::BadRequest => (400, literal_body("bad request")),
            UsersError::HasNoPosts => (404, literal_body("user has no posts")),
            UsersError::AlreadyLoggedIn => (400, literal_body("already logged in")),
            UsersError::TokenInvalid => (401, literal_body("invalid token")),
            UsersError::Argon2 => (500, literal_body("internal server error")),
            UsersError::Diesel(db) => {
                match classify_db_error(db) {
                    UsersError::UserNotFound => (404, literal_body("user not found")),
                    UsersError::Conflict(m) => (409, owned_body(m)),
                    _ => (500, literal_body("internal server error")),
                }
            },
            UsersError::Validator(msgs) => (
                400,
                ErrorHandlingResponse { errors: msgs },
            ),
            UsersError::Conflict(m) => (409, owned_body(m)),
        }
    }
}

} // verus!

