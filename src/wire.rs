//! Calls into serde_json and url that the client's logic makes.
use vstd::prelude::*;
use crate::text::digit;

verus! {

/// The address of a WebSocket endpoint, as parsed by the url crate.
#[verifier::external_type_specification]
#[verifier::external_body]
pub struct ExUrl(url::Url);

/// A lower-case hexadecimal digit for `d < 16`.
pub open spec fn hex_digit(d: nat) -> char {
    if d < 10 { digit(d) }
    else if d == 10 { 'a' }
    else if d == 11 { 'b' }
    else if d == 12 { 'c' }
    else if d == 13 { 'd' }
    else if d == 14 { 'e' }
    else { 'f' }
}

/// How a character stands inside a JSON string: quote and backslash are
/// escaped by a backslash, the five controls with a short escape by theirs,
/// every other control below 32 as `\u00XX`, and anything else as it is.
pub open spec fn json_escape(c: char) -> Seq<char> {
    let n = c as u32;
    if c == '"' { seq!['\\', '"'] }
    else if c == '\\' { seq!['\\', '\\'] }
    else if n == 8 { seq!['\\', 'b'] }
    else if n == 9 { seq!['\\', 't'] }
    else if n == 10 { seq!['\\', 'n'] }
    else if n == 12 { seq!['\\', 'f'] }
    else if n == 13 { seq!['\\', 'r'] }
    else if n < 32 { seq!['\\', 'u', '0', '0', hex_digit((n / 16) as nat), hex_digit((n % 16) as nat)] }
    else { seq![c] }
}

pub open spec fn json_escaped(s: Seq<char>) -> Seq<char>
    decreases s.len(),
{
    if s.len() == 0 {
        Seq::empty()
    } else {
        json_escape(s[0]) + json_escaped(s.skip(1))
    }
}

/// The JSON string literal for `s`: `s` escaped, between double quotes.
pub open spec fn json_quoted(s: Seq<char>) -> Seq<char> {
    seq!['"'] + json_escaped(s) + seq!['"']
}

/// Whether the url crate parses `s` as an absolute URL.
pub uninterp spec fn url_parses(s: Seq<char>) -> bool;

/// Relies on serde_json::to_string on a `str`: the string serializer writes
/// into a `Vec`, which cannot fail, and escapes as `json_escape` states.
#[verifier::external_body]
pub(crate) fn to_json_string(s: &str) -> (r: Result<String, serde_json::Error>)
    ensures
        r is Ok,
        r matches Ok(t) ==> t@ == json_quoted(s@),
{
    serde_json::to_string(s)
}

/// Relies on url::Url::parse: it succeeds exactly on what it accepts as an
/// absolute URL; the error is turned into its message.
#[verifier::external_body]
pub(crate) fn parse_url(s: &str) -> (r: Result<url::Url, String>)
    ensures
        r is Ok <==> url_parses(s@),
{
    url::Url::parse(s).map_err(|e| e.to_string())
}

} // verus!
