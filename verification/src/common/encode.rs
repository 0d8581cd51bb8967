//! Base64, by way of the `base64` crate.

use base64::Engine;
use vstd::prelude::*;

verus! {

/// The text that the standard base64 engine makes of `bytes`: the standard
/// alphabet, with padding.
pub uninterp spec fn base64_text(bytes: Seq<u8>) -> Seq<char>;

/// Whether the base64 text of `len` bytes has a length that fits `usize`:
/// four characters for every three bytes, and four more for a rest.
pub open spec fn base64_fits(len: nat) -> bool {
    (len / 3) * 4 + 4 <= usize::MAX
}

/// Trusted: `encode` of the engine `BASE64_STANDARD` returns the base64
/// text of the bytes. It panics where the length of that text does not fit
/// `usize`, which the precondition rules out.
#[verifier::external_body]
fn encode_standard(bytes: &[u8]) -> (text: String)
    requires
        base64_fits(bytes@.len()),
    ensures
        text@ == base64_text(bytes@),
{
    base64::prelude::BASE64_STANDARD.encode(bytes)
}

/// The base64 text of `bytes`; `None` where its length would not fit
/// `usize`.
pub fn to_base64(bytes: &[u8]) -> (text: Option<String>)
    ensures
        match text {
            Some(text) => base64_fits(bytes@.len()) && text@ == base64_text(bytes@),
            None => !base64_fits(bytes@.len()),
        },
{
    if bytes.len() / 3 <= (usize::MAX - 4) / 4 {
        assert(base64_fits(bytes@.len())) by (nonlinear_arith)
            requires
                bytes@.len() / 3 <= (usize::MAX - 4) / 4,
        ;
        Some(encode_standard(bytes))
    } else {
        assert(!base64_fits(bytes@.len())) by (nonlinear_arith)
            requires
                bytes@.len() / 3 > (usize::MAX - 4) / 4,
        ;
        None
    }
}

} // verus!
