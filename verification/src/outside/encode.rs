//! Random bytes, base64 and quoted text.
use base64::Engine;
use vstd::prelude::*;

verus! {

/// The standard base64 encoding, with padding.
pub uninterp spec fn base64_standard(bytes: Seq<u8>) -> Seq<char>;

/// The text in quotes, with escapes, as `Debug` writes it.
pub uninterp spec fn debug_text(text: Seq<char>) -> Seq<char>;

/// A character of the standard base64 alphabet, or the padding.
pub open spec fn is_base64_char(c: char) -> bool {
    'A' <= c <= 'Z' || 'a' <= c <= 'z' || '0' <= c <= '9' || c == '+' || c == '/' || c == '='
}

/// `rand::random`: sixteen random bytes, so nothing is said of the result.
#[verifier::external_body]
pub(crate) fn random_bytes() -> [u8; 16] {
    rand::random()
}

/// `Engine::encode` with the `STANDARD` engine: sixteen bytes take
/// twenty-four characters of the alphabet, padding included.
#[verifier::external_body]
pub(crate) fn base64_encode(bytes: &[u8; 16]) -> (r: String)
    ensures
        r@ == base64_standard(bytes@),
        r@.len() == 24,
        forall|i: int| 0 <= i < r@.len() ==> is_base64_char(#[trigger] r@[i]),
{
    base64::engine::general_purpose::STANDARD.encode(bytes)
}

/// `Debug` of a string: what comes out depends on the text alone.
#[verifier::external_body]
pub(crate) fn debug_str(text: &str) -> (r: String)
    ensures
        r@ == debug_text(text@),
{
    format!("{:?}", text)
}

} // verus!
