//! Percent-decoding and UTF-8 decoding of request text.
use vstd::prelude::*;
use vstd::string::StringSliceAdditionalSpecFns;
use vstd::utf8::{decode_utf8, valid_utf8};

verus! {

/// The value of a hexadecimal digit byte, either case.
pub open spec fn hex_value(b: u8) -> Option<u8> {
    if 48 <= b <= 57 {
        Some((b - 48) as u8)
    } else if 65 <= b <= 70 {
        Some((b - 55) as u8)
    } else if 97 <= b <= 102 {
        Some((b - 87) as u8)
    } else {
        None
    }
}

/// `b` with every `%` followed by two hexadecimal digits replaced by the byte they
/// write; any other byte, a lone `%` included, stays as it is.
pub open spec fn percent_decoded(b: Seq<u8>) -> Seq<u8>
    decreases b.len(),
{
    if b.len() == 0 {
        Seq::empty()
    } else if b[0] == 37 && b.len() >= 3 && hex_value(b[1]) is Some && hex_value(b[2]) is Some {
        seq![(hex_value(b[1])->0 * 16 + hex_value(b[2])->0) as u8] + percent_decoded(
            b.subrange(3, b.len() as int),
        )
    } else {
        seq![b[0]] + percent_decoded(b.subrange(1, b.len() as int))
    }
}

/// The text that `b` gives when each invalid UTF-8 sequence in it is replaced by
/// U+FFFD.
pub uninterp spec fn lossy_utf8(b: Seq<u8>) -> Seq<char>;

/// The text of `b`: its UTF-8 decoding where it is valid, else the lossy reading.
pub open spec fn utf8_text(b: Seq<u8>) -> Seq<char> {
    if valid_utf8(b) {
        decode_utf8(b)
    } else {
        lossy_utf8(b)
    }
}

/// Relies on `percent_encoding::percent_decode`, which yields the bytes of its input
/// with each `%` and two following hexadecimal digits replaced by the byte they write.
#[verifier::external_body]
fn percent_decode_bytes(s: &str) -> (r: Vec<u8>)
    ensures
        r@ == percent_decoded(s.spec_bytes()),
{
    percent_encoding::percent_decode(s.as_bytes()).collect()
}

/// Relies on `String::from_utf8_lossy`: valid UTF-8 is decoded as it stands, invalid
/// sequences become U+FFFD.
#[verifier::external_body]
pub(crate) fn utf8_lossy(b: &[u8]) -> (r: String)
    ensures
        r@ == lossy_utf8(b@),
        valid_utf8(b@) ==> r@ == decode_utf8(b@),
{
    String::from_utf8_lossy(b).into_owned()
}

/// Relies on `String::from_utf8`: it succeeds exactly on valid UTF-8, which it decodes.
#[verifier::external_body]
fn utf8_strict(b: Vec<u8>) -> (r: Option<String>)
    ensures
        r is Some <==> valid_utf8(b@),
        r is Some ==> r->0@ == decode_utf8(b@),
{
    String::from_utf8(b).ok()
}

/// Percent-decodes `s` and reads the bytes as UTF-8; `None` where they are not valid.
pub fn percent_decode_strict(s: &str) -> (r: Option<String>)
    ensures
        r is Some <==> valid_utf8(percent_decoded(s.spec_bytes())),
        r is Some ==> r->0@ == decode_utf8(percent_decoded(s.spec_bytes())),
{
    let bytes = percent_decode_bytes(s);
    utf8_strict(bytes)
}

/// Percent-decodes `s` and reads the bytes as UTF-8, invalid sequences replaced by
/// U+FFFD.
pub fn percent_decode_lossy(s: &str) -> (r: String)
    ensures
        r@ == utf8_text(percent_decoded(s.spec_bytes())),
{
    let bytes = percent_decode_bytes(s);
    utf8_lossy(bytes.as_slice())
}

} // verus!
