use vstd::prelude::*;
use reqwest::header::{HeaderValue, InvalidHeaderValue};

verus! {

/// A header value as the transport holds it. Nothing of its content is
/// visible here; the library only learns whether one could be made.
#[verifier::external_type_specification]
#[verifier::external_body]
pub struct ExHeaderValue(reqwest::header::HeaderValue);

/// The transport's refusal to make a header value.
#[verifier::external_type_specification]
#[verifier::external_body]
pub struct ExInvalidHeaderValue(reqwest::header::InvalidHeaderValue);

/// Whether a character may occur in a header value: a tab, or anything from
/// the space upwards except the delete character.
pub open spec fn header_char(c: char) -> bool {
    c == '\t' || (c >= ' ' && c != '\x7f')
}

/// Whether a text can be sent as a header value: each of its characters may
/// occur in one.
pub open spec fn header_text(s: Seq<char>) -> bool {
    forall|i: int| 0 <= i < s.len() ==> header_char(#[trigger] s[i])
}

/// `HeaderValue::from_str` of the `http` crate, which `reqwest` hands on.
/// It accepts a text exactly when every byte of it is a tab, or is 32 or
/// more and not 127. The bytes of a character beyond ASCII are all 128 or
/// more, so the test on bytes is the test on characters that `header_text`
/// makes. Nothing is claimed of the value that comes back.
pub assume_specification[ HeaderValue::from_str ](src: &str) -> (r: Result<
    HeaderValue,
    InvalidHeaderValue,
>)
    ensures
        r is Ok <==> header_text(src@),
;

} // verus!
