//! Core of a content API's user-facing service layer: request validation,
//! credential hashing, stateless session tokens, and a closed error taxonomy
//! with a deterministic mapping onto transport status codes and bodies.
//!
//! Route registration, query execution and object storage are collaborators
//! that live outside this crate; this crate owns the decisions they feed.
use vstd::prelude::*;
use vstd::string::StrSliceExecFns;

pub mod auth;
pub mod entity;
pub mod models;
pub mod users;

verus! {

/// The wire shape of every error response: a single ordered list of messages.
/// Consumers rely on this shape being the same for every error cause.
#[derive(Debug, Clone, PartialEq, Eq)]
pub struct ErrorHandlingResponse {
    pub errors: Vec<String>,
}

/// The hexadecimal digit for a value below sixteen.
pub open spec fn spec_hex_digit(n: int) -> char {
    if n == 0 {
        '0'
    } else if n == 1 {
        '1'
    } else if n == 2 {
        '2'
    } else if n == 3 {
        '3'
    } else if n == 4 {
        '4'
    } else if n == 5 {
        '5'
    } else if n == 6 {
        '6'
    } else if n == 7 {
        '7'
    } else if n == 8 {
        '8'
    } else if n == 9 {
        '9'
    } else if n == 10 {
        'a'
    } else if n == 11 {
        'b'
    } else if n == 12 {
        'c'
    } else if n == 13 {
        'd'
    } else if n == 14 {
        'e'
    } else {
        'f'
    }
}

/// How one character appears inside a JSON string literal: quotes and
/// backslashes take a backslash escape, control characters take the
/// six-character `\u00XX` form, everything else stands as itself.
pub open spec fn json_escaped_char(c: char) -> Seq<char> {
    if c == '"' {
        seq!['\\', '"']
    } else if c == '\\' {
        seq!['\\', '\\']
    } else if (c as u32) < 32 {
        seq!['\\', 'u', '0', '0', spec_hex_digit(((c as u32) / 16) as int), spec_hex_digit(
            ((c as u32) % 16) as int,
        )]
    } else {
        seq![c]
    }
}

/// A whole character sequence, escaped for a JSON string literal.
pub open spec fn json_escaped(s: Seq<char>) -> Seq<char>
    decreases s.len(),
{
    if s.len() == 0 {
        Seq::<char>::empty()
    } else {
        json_escaped(s.drop_last()) + json_escaped_char(s.last())
    }
}

/// A JSON string literal: the escaped characters between double quotes.
pub open spec fn json_quoted(s: Seq<char>) -> Seq<char> {
    seq!['"'] + json_escaped(s) + seq!['"']
}

/// The comma-separated JSON string literals for the given messages.
pub open spec fn json_joined(msgs: Seq<Seq<char>>) -> Seq<char>
    decreases msgs.len(),
{
    if msgs.len() == 0 {
        Seq::<char>::empty()
    } else if msgs.len() == 1 {
        json_quoted(msgs[0])
    } else {
        json_joined(msgs.drop_last()) + seq![','] + json_quoted(msgs.last())
    }
}

/// The full response body: a JSON object with the one field `errors`,
/// holding the messages as an array of strings, in order.
pub open spec fn json_body(msgs: Seq<Seq<char>>) -> Seq<char> {
    seq!['{', '"', 'e', 'r', 'r', 'o', 'r', 's', '"', ':', '['] + json_joined(msgs) + seq![
        ']',
        '}',
    ]
}

/// The hexadecimal digit for a value below sixteen.
fn hex_digit(n: u32) -> (c: char)
    requires
        n < 16,
    ensures
        c == spec_hex_digit(n as int),
{
    if n == 0 {
        '0'
    } else if n == 1 {
        '1'
    } else if n == 2 {
        '2'
    } else if n == 3 {
        '3'
    } else if n == 4 {
        '4'
    } else if n == 5 {
        '5'
    } else if n == 6 {
        '6'
    } else if n == 7 {
        '7'
    } else if n == 8 {
        '8'
    } else if n == 9 {
        '9'
    } else if n == 10 {
        'a'
    } else if n == 11 {
        'b'
    } else if n == 12 {
        'c'
    } else if n == 13 {
        'd'
    } else if n == 14 {
        'e'
    } else {
        'f'
    }
}

/// Appends `s` to `out` as a JSON string literal, quotes and escapes
/// included.
fn push_quoted(out: &mut Vec<char>, s: &str)
    ensures
        final(out)@ == old(out)@ + json_quoted(s@),
{
    out.push('"');
    let n = s.unicode_len();
    let mut i: usize = 0;
    while i < n
        invariant
            n == s@.len(),
            i <= n,
            out@ == old(out)@ + seq!['"'] + json_escaped(s@.take(i as int)),
        decreases n - i,
    {
        let c = s.get_char(i);
        if c == '"' {
            out.push('\\');
            out.push('"');
        } else if c == '\\' {
            out.push('\\');
            out.push('\\');
        } else if (c as u32) < 32 {
            let code = c as u32;
            out.push('\\');
            out.push('u');
            out.push('0');
            out.push('0');
            out.push(hex_digit(code / 16));
            out.push(hex_digit(code % 16));
        } else {
            out.push(c);
        }
        proof {
            assert(s@.take(i as int + 1).drop_last() =~= s@.take(i as int));
            assert(s@.take(i as int + 1).last() == s@[i as int]);
        }
        i += 1;
    }
    proof {
        assert(s@.take(n as int) =~= s@);
    }
    out.push('"');
}

/// Relies on std's `FromIterator` for `String`: collecting characters yields
/// the string of exactly those characters, in order.
#[verifier::external_body]
fn chars_to_string(v: &Vec<char>) -> (r: String)
    ensures
        r@ == v@,
{
    v.iter().collect()
}

impl ErrorHandlingResponse {
    /// Renders this response into the JSON wire body: an object with the one
    /// field `errors`, holding the messages as an array of strings, in order.
    pub fn to_json(&self) -> (r: String)
        ensures
            r@ == json_body(self.errors.deep_view()),
    {
        let mut out: Vec<char> = Vec::new();
        out.push('{');
        out.push('"');
        out.push('e');
        out.push('r');
        out.push('r');
        out.push('o');
        out.push('r');
        out.push('s');
        out.push('"');
        out.push(':');
        out.push('[');
        let ghost opening: Seq<char> = seq!['{', '"', 'e', 'r', 'r', 'o', 'r', 's', '"', ':', '['];
        proof {
            assert(out@ =~= opening);
        }
        let m = self.errors.len();
        let mut k: usize = 0;
        while k < m
            invariant
                m == self.errors.len(),
                k <= m,
                out@ == opening + json_joined(self.errors.deep_view().take(k as int)),
            decreases m - k,
        {
            if k > 0 {
                out.push(',');
            }
            push_quoted(&mut out, self.errors[k].as_str());
            proof {
                let dv = self.errors.deep_view();
                assert(dv.take(k as int + 1).drop_last() =~= dv.take(k as int));
                assert(dv.take(k as int + 1).last() == dv[k as int]);
                assert(dv[k as int] == self.errors@[k as int]@);
            }
            k += 1;
        }
        proof {
            assert(self.errors.deep_view().take(m as int) =~= self.errors.deep_view());
        }
        out.push(']');
        out.push('}');
        chars_to_string(&out)
    }
}

/// Cursor bounds for paginated listings, as half-open identifier ranges.
/// Identifiers are 128-bit values; an absent bound defaults to the extreme.
#[derive(Debug, Clone, PartialEq, Eq, Structural)]
pub struct PaginationParams {
    pub min_id: u128,
    pub max_id: u128,
}

impl Default for PaginationParams {
    /// The default window covers every identifier.
    fn default() -> (r: Self)
        ensures
            r.min_id == 0,
            r.max_id == u128::MAX,
    {
        PaginationParams { min_id: 0, max_id: u128::MAX }
    }
}

/// Marker for the generated API document; the document itself is assembled
/// by the surrounding application layer.
pub struct ApiDoc;

/// Marker for the bearer-token security scheme added to the API document;
/// the scheme registration lives in the surrounding application layer.
pub struct SecurityAddon;

} // verus!
