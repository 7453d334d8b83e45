//! Request payloads of the users service and the field rules they must meet.
//!
//! Validation is a pure, fail-fast gate: it runs before any persistence or
//! credential work, and either returns the payload unchanged or reports one
//! message per violated rule, in field declaration order.
use vstd::prelude::*;
use vstd::string::StrSliceExecFns;

use crate::users::UsersError;

verus! {

/// Payload for registering a user.
#[derive(Debug, Clone, PartialEq, Eq)]
pub struct CreateUser {
    pub username: String,
    pub email: String,
    pub password: String,
}

/// Payload for logging in.
#[derive(Debug, Clone, PartialEq, Eq)]
pub struct UserLogin {
    pub username: String,
    pub password: String,
}

/// The identity carried inside a session token: the user's identifier,
/// rendered as text. No secret ever goes into a token.
#[derive(Debug, Clone, PartialEq, Eq)]
pub struct UserClaims {
    pub id: String,
}

/// Length bounds on usernames, in characters. The violation message below
/// spells out the same bounds.
pub const USERNAME_MIN_LEN: usize = 3;

pub const USERNAME_MAX_LEN: usize = 30;

/// Length bounds on passwords, in characters. The violation message below
/// spells out the same bounds.
pub const PASSWORD_MIN_LEN: usize = 8;

pub const PASSWORD_MAX_LEN: usize = 64;

pub open spec fn username_len_ok(s: Seq<char>) -> bool {
    USERNAME_MIN_LEN <= s.len() <= USERNAME_MAX_LEN
}

pub open spec fn password_len_ok(s: Seq<char>) -> bool {
    PASSWORD_MIN_LEN <= s.len() <= PASSWORD_MAX_LEN
}

/// A syntactically plausible email address: exactly one `@`, a non-empty
/// local part, and a dot inside the domain that neither follows the `@`
/// directly nor ends the address.
pub open spec fn valid_email(s: Seq<char>) -> bool {
    exists|p: int|
        0 < p < s.len() - 1 && s[p] == '@' && (forall|j: int|
            0 <= j < s.len() && j != p ==> s[j] != '@') && (exists|d: int|
            p + 1 < d < s.len() - 1 && s[d] == '.')
}

/// The messages a create-user payload earns, one per violated rule, in field
/// declaration order: username, then email, then password.
pub open spec fn create_user_messages(u: CreateUser) -> Seq<Seq<char>> {
    (if !username_len_ok(u.username@) {
        seq!["username length: minimum = 3, maximum = 30"@]
    } else {
        Seq::<Seq<char>>::empty()
    }) + (if !valid_email(u.email@) {
        seq!["email not valid"@]
    } else {
        Seq::<Seq<char>>::empty()
    }) + (if !password_len_ok(u.password@) {
        seq!["password length: minimum = 8, maximum = 64"@]
    } else {
        Seq::<Seq<char>>::empty()
    })
}

/// The messages a login payload earns, one per violated rule, in field
/// declaration order: username, then password.
pub open spec fn login_messages(u: UserLogin) -> Seq<Seq<char>> {
    (if !username_len_ok(u.username@) {
        seq!["username length: minimum = 3, maximum = 30"@]
    } else {
        Seq::<Seq<char>>::empty()
    }) + (if !password_len_ok(u.password@) {
        seq!["password length: minimum = 8, maximum = 64"@]
    } else {
        Seq::<Seq<char>>::empty()
    })
}

/// Whether the character count of `s` lies in `[min, max]`.
fn len_in_range(s: &str, min: usize, max: usize) -> (r: bool)
    ensures
        r == (min <= s@.len() <= max),
{
    let l = s.unicode_len();
    min <= l && l <= max
}

/// Decides `valid_email` for a concrete string.
pub fn is_valid_email(s: &str) -> (r: bool)
    ensures
        r == valid_email(s@),
{
    let n = s.unicode_len();
    // Find the first '@' and check that no second one follows it.
    let mut i: usize = 0;
    let mut found_at: bool = false;
    let mut dup_at: bool = false;
    let mut at_pos: usize = 0;
    while i < n
        invariant
            n == s@.len(),
            i <= n,
            !found_at ==> !dup_at && forall|j: int| 0 <= j < i ==> s@[j] != '@',
            found_at ==> at_pos < i && s@[at_pos as int] == '@' && forall|j: int|
                0 <= j < at_pos ==> s@[j] != '@',
            found_at && !dup_at ==> forall|j: int| at_pos < j < i ==> s@[j] != '@',
            dup_at ==> found_at && exists|j: int| at_pos < j < i && s@[j] == '@',
        decreases n - i,
    {
        if s.get_char(i) == '@' {
            if found_at {
                dup_at = true;
            } else {
                found_at = true;
                at_pos = i;
            }
        }
        i += 1;
    }
    if !found_at {
        assert(!valid_email(s@));
        return false;
    }
    if dup_at {
        assert(!valid_email(s@)) by {
            let j = choose|j: int| at_pos < j < n && s@[j] == '@';
            assert(s@[j] == '@');
        }
        return false;
    }
    if at_pos == 0 || at_pos + 1 >= n {
        assert(!valid_email(s@)) by {
            if valid_email(s@) {
                let p = choose|p: int|
                    0 < p < s@.len() - 1 && s@[p] == '@' && (forall|j: int|
                        0 <= j < s@.len() && j != p ==> s@[j] != '@') && (exists|d: int|
                        p + 1 < d < s@.len() - 1 && s@[d] == '.');
                assert(p == at_pos);
            }
        }
        return false;
    }
    // Look for a '.' strictly between the character after the '@' and the
    // last character.
    let mut d: usize = at_pos + 2;
    let mut found_dot: bool = false;
    let mut dot_pos: usize = 0;
    while d < n - 1
        invariant
            n == s@.len(),
            3 <= n,
            at_pos + 2 <= d || (found_dot && d <= n),
            d <= n,
            !found_dot ==> forall|j: int| at_pos + 1 < j < d ==> s@[j] != '.',
            found_dot ==> at_pos + 1 < dot_pos < n - 1 && s@[dot_pos as int] == '.',
        decreases n - d,
    {
        if !found_dot && s.get_char(d) == '.' {
            found_dot = true;
            dot_pos = d;
        }
        d += 1;
    }
    if found_dot {
        assert(valid_email(s@)) by {
            assert(0 < at_pos < s@.len() - 1 && s@[at_pos as int] == '@');
            assert(forall|j: int| 0 <= j < s@.len() && j != at_pos ==> s@[j] != '@');
            assert(at_pos + 1 < dot_pos < s@.len() - 1 && s@[dot_pos as int] == '.');
        }
        true
    } else {
        assert(!valid_email(s@)) by {
            if valid_email(s@) {
                let p = choose|p: int|
                    0 < p < s@.len() - 1 && s@[p] == '@' && (forall|j: int|
                        0 <= j < s@.len() && j != p ==> s@[j] != '@') && (exists|d: int|
                        p + 1 < d < s@.len() - 1 && s@[d] == '.');
                assert(p == at_pos);
                let dd = choose|dd: int| p + 1 < dd < s@.len() - 1 && s@[dd] == '.';
                assert(s@[dd] == '.');
            }
        }
        false
    }
}

/// Validates a registration payload against the field rules.
///
/// A payload meeting every rule comes back unchanged; otherwise validation
/// fails with exactly one message per violated rule, in field declaration
/// order. Nothing else — no persistence, no hashing — happens here.
pub fn validate_create_user(payload: CreateUser) -> (r: Result<CreateUser, UsersError>)
    ensures
        create_user_messages(payload).len() == 0 ==> r == Ok::<CreateUser, UsersError>(payload),
        create_user_messages(payload).len() != 0 ==> (r matches Err(e) && e matches
            UsersError::Validator(msgs) && msgs.deep_view() == create_user_messages(payload)),
{
    let mut msgs: Vec<String> = Vec::new();
    if !len_in_range(payload.username.as_str(), USERNAME_MIN_LEN, USERNAME_MAX_LEN) {
        msgs.push("username length: minimum = 3, maximum = 30".to_owned());
    }
    if !is_valid_email(payload.email.as_str()) {
        msgs.push("email not valid".to_owned());
    }
    if !len_in_range(payload.password.as_str(), PASSWORD_MIN_LEN, PASSWORD_MAX_LEN) {
        msgs.push("password length: minimum = 8, maximum = 64".to_owned());
    }
    if msgs.len() == 0 {
        Ok(payload)
    } else {
        proof {
            assert(msgs.deep_view() =~= create_user_messages(payload));
        }
        Err(UsersError::Validator(msgs))
    }
}

/// Validates a login payload against the field rules, in the same fail-fast
/// way as `validate_create_user`.
pub fn validate_user_login(payload: UserLogin) -> (r: Result<UserLogin, UsersError>)
    ensures
        login_messages(payload).len() == 0 ==> r == Ok::<UserLogin, UsersError>(payload),
        login_messages(payload).len() != 0 ==> (r matches Err(e) && e matches
            UsersError::Validator(msgs) && msgs.deep_view() == login_messages(payload)),
{
    let mut msgs: Vec<String> = Vec::new();
    if !len_in_range(payload.username.as_str(), USERNAME_MIN_LEN, USERNAME_MAX_LEN) {
        msgs.push("username length: minimum = 3, maximum = 30".to_owned());
    }
    if !len_in_range(payload.password.as_str(), PASSWORD_MIN_LEN, PASSWORD_MAX_LEN) {
        msgs.push("password length: minimum = 8, maximum = 64".to_owned());
    }
    if msgs.len() == 0 {
        Ok(payload)
    } else {
        proof {
            assert(msgs.deep_view() =~= login_messages(payload));
        }
        Err(UsersError::Validator(msgs))
    }
}

} // verus!
