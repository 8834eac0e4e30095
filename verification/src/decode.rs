//! Record payloads as text.

use vstd::prelude::*;
use vstd::utf8::{decode_utf8, valid_utf8};

verus! {

/// The text that lossy UTF-8 decoding makes of `bytes`: the characters that
/// the bytes encode, with U+FFFD in place of each ill-formed sequence.
pub uninterp spec fn utf8_lossy(bytes: Seq<u8>) -> Seq<char>;

/// Decodes a payload as text, whatever bytes it holds.
///
/// Calls `String::from_utf8_lossy` of std and makes the result an owned
/// `String`. The call is total: it substitutes U+FFFD for ill-formed
/// sequences and never fails. The result depends on the bytes alone, and
/// the contract gives it the name [`utf8_lossy`]. Of well-formed UTF-8 the
/// contract also claims what std documents: the text is the one that the
/// bytes encode, unchanged.
#[verifier::external_body]
pub(crate) fn decode_lossy(bytes: &Vec<u8>) -> (text: String)
    ensures
        text@ == utf8_lossy(bytes@),
        valid_utf8(bytes@) ==> text@ == decode_utf8(bytes@),
{
    String::from_utf8_lossy(bytes).into_owned()
}

/// What a tail read tells: the text of the record that was delivered, or
/// nothing where none was.
pub open spec fn record_text(read: Option<Seq<u8>>) -> Option<Seq<char>> {
    match read {
        Some(bytes) => Some(utf8_lossy(bytes)),
        None => None,
    }
}

} // verus!
