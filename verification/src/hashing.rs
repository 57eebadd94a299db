//! The text of a signature, joining of texts, and the digest of a text.
use vstd::prelude::*;
use crate::transaction::Signature;
use digest::Digest;
use itertools::Itertools;

verus! {

/// The base-58 text of a signature's bytes.
pub uninterp spec fn signature_text(bytes: Seq<u8>) -> Seq<char>;

/// The SHA-256 digest of a text's UTF-8 bytes, in lowercase hexadecimal.
pub uninterp spec fn sha256_hex(text: Seq<char>) -> Seq<char>;

/// The number of characters of a digest in hexadecimal.
pub const DIGEST_HEX_LEN: usize = 64;

/// Whether `c` is a digit of lowercase hexadecimal.
pub open spec fn is_lower_hex(c: char) -> bool {
    ('0' <= c && c <= '9') || ('a' <= c && c <= 'f')
}

/// Whether a text has the shape of a digest: 64 digits of lowercase
/// hexadecimal.
pub open spec fn is_digest_text(text: Seq<char>) -> bool {
    &&& text.len() == DIGEST_HEX_LEN
    &&& forall|i: int| 0 <= i < text.len() ==> is_lower_hex(#[trigger] text[i])
}

/// The parts in order, with `sep` between each two neighbours.
pub open spec fn joined(parts: Seq<Seq<char>>, sep: Seq<char>) -> Seq<char>
    decreases parts.len(),
{
    if parts.len() == 0 {
        Seq::empty()
    } else if parts.len() == 1 {
        parts[0]
    } else {
        joined(parts.drop_last(), sep) + sep + parts.last()
    }
}

/// Makes a `solana_sdk::signature::Signature` of these bytes and formats it
/// with its `Display`, which writes base 58. The contract only names the text
/// that the two steps give.
#[verifier::external_body]
pub(crate) fn base58(signature: &Signature) -> (text: String)
    ensures
        text@ == signature_text(signature.bytes@),
{
    solana_sdk::signature::Signature::from(signature.bytes).to_string()
}

/// Calls `Itertools::join` on the parts. The contract says what its
/// documentation says: the parts in order, separated by `sep`, and the empty
/// text for no part.
#[verifier::external_body]
pub(crate) fn join(parts: &Vec<String>, sep: &str) -> (text: String)
    ensures
        text@ == joined(parts@.map_values(|s: String| s@), sep@),
{
    parts.iter().join(sep)
}

/// Feeds the text to `sha2::Sha256` through `Digest::update` and formats what
/// `Digest::finalize` returns as lowercase hexadecimal. The contract names the
/// result and states its shape: the digest has 32 bytes, and the formatting
/// writes two digits from `0-9a-f` for each.
#[verifier::external_body]
pub(crate) fn sha256_hex_of(text: &str) -> (hex: String)
    ensures
        hex@ == sha256_hex(text@),
        is_digest_text(hex@),
{
    let mut hasher = sha2::Sha256::new();
    hasher.update(text);
    format!("{:x}", hasher.finalize())
}

} // verus!
