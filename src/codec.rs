use vstd::prelude::*;
use vstd::string::*;

use crate::models::SlimUser;

verus! {

#[verifier::external_type_specification]
#[verifier::external_body]
pub struct ExJsonError(serde_json::Error);

/// The lower-case hexadecimal digit of `n`, for `n` below sixteen.
pub open spec fn hex_digit(n: int) -> char {
    seq!['0', '1', '2', '3', '4', '5', '6', '7', '8', '9', 'a', 'b', 'c', 'd', 'e', 'f'][n]
}

/// How serde_json writes one character inside a JSON string literal: the quote,
/// the backslash and the control characters are escaped, everything else is
/// written as it is.
pub open spec fn json_escape_char(c: char) -> Seq<char> {
    if c == '"' {
        seq!['\\', '"']
    } else if c == '\\' {
        seq!['\\', '\\']
    } else if c == '\x08' {
        seq!['\\', 'b']
    } else if c == '\t' {
        seq!['\\', 't']
    } else if c == '\n' {
        seq!['\\', 'n']
    } else if c == '\x0c' {
        seq!['\\', 'f']
    } else if c == '\r' {
        seq!['\\', 'r']
    } else if (c as u32) < 0x20 {
        seq!['\\', 'u', '0', '0', hex_digit((c as u32 / 16) as int), hex_digit(
            (c as u32 % 16) as int,
        )]
    } else {
        seq![c]
    }
}

/// The escaped characters of `s`, one after another.
pub open spec fn json_escape(s: Seq<char>) -> Seq<char>
    decreases s.len(),
{
    if s.len() == 0 {
        Seq::empty()
    } else {
        json_escape(s.drop_last()) + json_escape_char(s.last())
    }
}

/// The JSON string literal that serde_json writes for a string.
pub open spec fn json_of(s: Seq<char>) -> Seq<char> {
    seq!['"'] + json_escape(s) + seq!['"']
}

/// Relies on serde_json::to_string on a string: it writes the escaped JSON
/// string literal of its argument into a byte vector, which cannot fail.
#[verifier::external_body]
fn to_json_string(s: &str) -> (r: Result<String, serde_json::Error>)
    ensures
        r is Ok,
        r is Ok ==> r->Ok_0@ == json_of(s@),
{
    serde_json::to_string(s)
}

/// The opening of a serialized principal: `{"email":`.
pub open spec fn frame_head() -> Seq<char> {
    seq!['{', '"', 'e', 'm', 'a', 'i', 'l', '"', ':']
}

/// The compact JSON object of a principal whose email field is the JSON text
/// `value`: the form serde_json gives a struct with that one field.
pub open spec fn framed(value: Seq<char>) -> Seq<char> {
    frame_head() + value + seq!['}']
}

/// Serializes a principal into a session token; every principal has one. The
/// token is the compact JSON object of the principal, which serde_json reads
/// back as the same principal.
pub fn encode(user: &SlimUser) -> (t: String)
    ensures
        t@ == framed(json_of(user.email@)),
{
    match to_json_string(user.email.as_str()) {
        Ok(value) => {
            let mut out = String::from_str("{\"email\":");
            out.append(value.as_str());
            out.append("}");
            proof {
                reveal_strlit("{\"email\":");
                reveal_strlit("}");
                assert(out@ =~= framed(value@));
            }
            out
        },
        Err(_) => {
            proof {
                assert(false);
            }
            String::new()
        },
    }
}

} // verus!
