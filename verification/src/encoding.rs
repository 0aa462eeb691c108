//! Base64 text of a task parameter, by the `base64` crate.

use vstd::prelude::*;

verus! {

/// The standard base64 text of `bytes`, with padding.
pub uninterp spec fn base64_of(bytes: Seq<u8>) -> Seq<char>;

/// Whether the base64 text of `len` bytes has a length that the machine can
/// count: four characters for every three bytes, the last group padded.
pub open spec fn encodable(len: nat) -> bool {
    (len / 3) * 4 + 4 <= usize::MAX
}

/// Calls `base64::encode`.
///
/// Trusted: that the text depends on the bytes alone, which `base64_of` names.
/// The crate panics where the text's length overflows; `requires` leaves
/// those inputs out.
#[verifier::external_body]
pub(crate) fn base64_encode(bytes: &Vec<u8>) -> (r: String)
    requires
        encodable(bytes@.len()),
    ensures
        r@ == base64_of(bytes@),
{
    base64::encode(bytes)
}

} // verus!
