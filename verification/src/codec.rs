use base64::Engine;
use vstd::prelude::*;

verus! {

/// The URL-safe, unpadded base64 text of a byte string.
pub uninterp spec fn base64url_text(bytes: Seq<u8>) -> Seq<char>;

/// The bytes that a URL-safe, unpadded base64 text spells, if it is canonical such text.
pub uninterp spec fn base64url_bytes(text: Seq<char>) -> Option<Seq<u8>>;

/// The SHA-256 digest of a byte string.
pub uninterp spec fn sha256_digest(data: Seq<u8>) -> Seq<u8>;

/// `base64::Engine::encode` with `URL_SAFE_NO_PAD`; decoding the text with the
/// same engine gives the bytes back.
#[verifier::external_body]
pub(crate) fn base64url_encode(bytes: &[u8]) -> (r: String)
    ensures
        r@ == base64url_text(bytes@),
        base64url_bytes(r@) == Some(bytes@),
{
    base64::engine::general_purpose::URL_SAFE_NO_PAD.encode(bytes)
}

/// `base64::Engine::decode` with `URL_SAFE_NO_PAD`.
#[verifier::external_body]
pub(crate) fn base64url_decode(text: &str) -> (r: Result<Vec<u8>, base64::DecodeError>)
    ensures
        r is Ok <==> base64url_bytes(text@) is Some,
        r matches Ok(v) ==> base64url_bytes(text@) == Some(v@),
{
    base64::engine::general_purpose::URL_SAFE_NO_PAD.decode(text)
}

/// `nostr::hashes::sha256::Hash::hash`: the SHA-256 digest, 32 bytes.
#[verifier::external_body]
pub(crate) fn sha256(data: &[u8]) -> (r: [u8; 32])
    ensures
        r@ == sha256_digest(data@),
{
    let digest = <nostr::hashes::sha256::Hash as nostr::hashes::Hash>::hash(data);
    <nostr::hashes::sha256::Hash as nostr::hashes::Hash>::to_byte_array(digest)
}

} // verus!
