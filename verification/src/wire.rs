//! Decoding of the bytes that arrive on a connection.

use vstd::prelude::*;

verus! {

/// The text that a chunk of received bytes stands for: the bytes read as UTF-8, with every
/// sequence that is not valid UTF-8 replaced by U+FFFD.
pub uninterp spec fn lossy_text(bytes: Seq<u8>) -> Seq<char>;

/// Decodes received bytes with `String::from_utf8_lossy` of the standard library.
///
/// The contract only gives the result its name: the decoding depends on the bytes alone, and it
/// is not restated here.
#[verifier::external_body]
pub(crate) fn decode_lossy(bytes: &[u8]) -> (text: String)
    ensures
        text@ == lossy_text(bytes@),
{
    String::from_utf8_lossy(bytes).into_owned()
}

} // verus!
