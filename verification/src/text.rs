use vstd::prelude::*;
use vstd::utf8::{decode_utf8, valid_utf8};

verus! {

/// The text that `String::from_utf8_lossy` makes of a byte sequence: the
/// decoded characters, with U+FFFD in place of each ill-formed part.
pub uninterp spec fn utf8_lossy(bytes: Seq<u8>) -> Seq<char>;

/// Calls `core::str::from_utf8` and copies the text out.
///
/// Trusted: std accepts exactly the well-formed UTF-8 byte sequences, and
/// the text it returns is what those bytes encode.
#[verifier::external_body]
fn str_from_utf8(bytes: &[u8]) -> (r: Option<String>)
    ensures
        r is Some <==> valid_utf8(bytes@),
        r is Some ==> r->Some_0@ == decode_utf8(bytes@),
{
    match core::str::from_utf8(bytes) {
        Ok(text) => Some(text.to_string()),
        Err(_) => None,
    }
}

/// Calls `String::from_utf8_lossy` and copies the text out.
///
/// Trusted: std documents that well-formed UTF-8 comes back unchanged;
/// for other input the contract only names the result.
#[verifier::external_body]
fn string_from_utf8_lossy(bytes: &[u8]) -> (s: String)
    ensures
        s@ == utf8_lossy(bytes@),
        valid_utf8(bytes@) ==> s@ == decode_utf8(bytes@),
{
    String::from_utf8_lossy(bytes).into_owned()
}

/// The text of a field that must be well-formed UTF-8.
pub open spec fn spec_strict_text(bytes: Seq<u8>) -> Option<Seq<char>> {
    if valid_utf8(bytes) {
        Some(decode_utf8(bytes))
    } else {
        None
    }
}

/// The text of a field that is read leniently: what the bytes encode where
/// they are well-formed UTF-8, and a repaired reading of them where not.
pub open spec fn spec_read_string(bytes: Seq<u8>) -> Seq<char> {
    if valid_utf8(bytes) {
        decode_utf8(bytes)
    } else {
        utf8_lossy(bytes)
    }
}

/// Decodes `bytes` as UTF-8, or returns `None` where they are not.
pub fn strict_text(bytes: &[u8]) -> (r: Option<String>)
    ensures
        r is Some <==> spec_strict_text(bytes@) is Some,
        r is Some ==> r->Some_0@ == spec_strict_text(bytes@)->Some_0,
{
    str_from_utf8(bytes)
}

/// Decodes `bytes` as UTF-8, repairing what is ill-formed. Never fails.
pub fn read_string(bytes: &[u8]) -> (s: String)
    ensures
        s@ == spec_read_string(bytes@),
{
    string_from_utf8_lossy(bytes)
}

} // verus!
