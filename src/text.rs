//! Permissive decoding of text stored on chain as raw bytes.

use vstd::prelude::*;

verus! {

/// The characters that lossy UTF-8 decoding yields for a byte sequence:
/// invalid sequences become U+FFFD, nothing is rejected.
pub uninterp spec fn lossy_utf8(b: Seq<u8>) -> Seq<char>;

/// Relies on `String::from_utf8_lossy`: the text depends on the bytes alone
/// and decoding never fails.
#[verifier::external_body]
pub fn text_of(b: &Vec<u8>) -> (r: String)
    ensures
        r@ == lossy_utf8(b@),
{
    String::from_utf8_lossy(b).into_owned()
}

} // verus!
