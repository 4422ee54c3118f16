//! Which strings an HTTP header value may hold.
use vstd::prelude::*;

verus! {

/// A character that the HTTP stack accepts in a header value: every byte of
/// its UTF-8 encoding is at least 32 and not 127, or it is a tab. A character
/// beyond ASCII encodes to bytes of 128 and above only.
pub open spec fn header_char(c: char) -> bool {
    (c as u32 >= 32 && c as u32 != 127) || c == '\t'
}

pub open spec fn header_safe(s: Seq<char>) -> bool {
    forall|i: int| 0 <= i < s.len() ==> header_char(#[trigger] s[i])
}

/// Relies on http's HeaderValue::from_str (as reqwest re-exports it): it fails
/// exactly when a byte of the text is below 32 and not a tab, or is 127.
#[verifier::external_body]
pub(crate) fn header_value_accepted(s: &str) -> (r: bool)
    ensures
        r == header_safe(s@),
{
    reqwest::header::HeaderValue::from_str(s).is_ok()
}

} // verus!
