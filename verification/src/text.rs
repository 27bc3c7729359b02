//! Text as the gateway sees it: bytes that are UTF-8, and the characters they
//! stand for.

use vstd::prelude::*;
use vstd::string::StringSliceAdditionalSpecFns;
use vstd::utf8::{decode_utf8, encode_utf8_decode_utf8, valid_utf8};

verus! {

/// `core::str::Utf8Error`, the error of `core::str::from_utf8`. It is
/// carried, never looked into.
#[verifier::external_type_specification]
#[verifier::external_body]
pub struct ExUtf8Error(core::str::Utf8Error);

/// `core::str::from_utf8`, taken on trust from the standard library: it
/// succeeds on exactly the byte strings that are valid UTF-8, and the string
/// it then returns is made of those very bytes.
pub assume_specification[ core::str::from_utf8 ](v: &[u8]) -> (r: Result<
    &str,
    core::str::Utf8Error,
>)
    ensures
        r is Ok <==> valid_utf8(v@),
        r matches Ok(s) ==> s.spec_bytes() == v@,
;

/// The characters that `String::from_utf8_lossy` makes of `bytes`. They
/// depend on the bytes alone. For bytes that are not UTF-8 they are not
/// spelled out here: the standard library puts U+FFFD in the place of each
/// invalid sequence.
pub uninterp spec fn lossy_text(bytes: Seq<u8>) -> Seq<char>;

/// `String::from_utf8_lossy`, taken on trust from the standard library: it
/// returns [`lossy_text`] of the bytes, which for valid UTF-8 is their
/// ordinary decoding. The result is copied into an owned string.
#[verifier::external_body]
fn lossy_string(bytes: &[u8]) -> (text: String)
    ensures
        text@ == lossy_text(bytes@),
        valid_utf8(bytes@) ==> text@ == decode_utf8(bytes@),
{
    String::from_utf8_lossy(bytes).into_owned()
}

/// Decodes `bytes` strictly: the text they encode, or nothing where they are
/// not UTF-8.
pub fn decode_strict(bytes: &[u8]) -> (text: Option<String>)
    ensures
        text is Some <==> valid_utf8(bytes@),
        text matches Some(s) ==> s@ == decode_utf8(bytes@),
{
    match core::str::from_utf8(bytes) {
        Ok(s) => {
            proof {
                encode_utf8_decode_utf8(s@);
            }
            Some(s.to_owned())
        },
        Err(_) => None,
    }
}

/// What lenient decoding makes of `bytes`: their ordinary decoding where
/// they are valid UTF-8, and otherwise the text in which the standard library
/// has replaced each invalid sequence.
pub open spec fn lenient_text(bytes: Seq<u8>) -> Seq<char> {
    if valid_utf8(bytes) {
        decode_utf8(bytes)
    } else {
        lossy_text(bytes)
    }
}

/// Decodes `bytes` leniently: never fails, and agrees with strict decoding
/// wherever that succeeds.
pub fn decode_lossy(bytes: &[u8]) -> (text: String)
    ensures
        text@ == lenient_text(bytes@),
{
    lossy_string(bytes)
}

/// The characters of `s`, one element each.
pub fn chars_of(s: &str) -> (v: Vec<char>)
    ensures
        v@ == s@,
{
    let mut v: Vec<char> = Vec::new();
    for c in it: s.chars()
        invariant
            v@ == it.history(),
    {
        v.push(c);
    }
    v
}

} // verus!
