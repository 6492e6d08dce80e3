//! Digests and message authentication codes, as the crates `blake3`, `hmac` and `sha2` compute them.
use hmac::digest::InvalidLength;
use hmac::Mac;
use vstd::prelude::*;

verus! {

/// What is hashed: some bytes, under a domain.
#[derive(Clone, Debug, PartialEq, Eq)]
pub struct HashInput {
    pub domain: String,
    pub bytes: Vec<u8>,
}

/// Whether `h` is some bytes under a domain.
pub open spec fn hashes(h: HashInput, domain: Seq<char>, bytes: Seq<u8>) -> bool {
    h.domain@ == domain && h.bytes@ == bytes
}

/// Some bytes under a domain.
pub fn hash_input(domain: &str, bytes: &[u8]) -> (r: HashInput)
    ensures
        hashes(r, domain@, bytes@),
{
    HashInput { domain: domain.to_owned(), bytes: vstd::slice::slice_to_vec(bytes) }
}

/// The BLAKE3 hash of some bytes.
pub uninterp spec fn blake3_digest(input: Seq<u8>) -> Seq<u8>;

/// The HMAC-SHA256 tag of a message under a key.
pub uninterp spec fn hmac_sha256_tag(key: Seq<u8>, message: Seq<u8>) -> Seq<u8>;

/// The key length that `hmac` turns down.
#[verifier::external_type_specification]
#[verifier::external_body]
pub struct ExInvalidLength(InvalidLength);

/// Calls `blake3::Hasher` on the whole input: the result is the 32-byte hash of the input, and
/// depends on nothing else.
#[verifier::external_body]
pub(crate) fn blake3_256(input: &[u8]) -> (r: [u8; 32])
    ensures
        r@ == blake3_digest(input@),
{
    *blake3::Hasher::new().update(input).finalize().as_bytes()
}

/// Calls `hmac::Hmac` over `sha2::Sha256`: a key of any length is accepted, and the result is the
/// 32-byte tag of the message under the key, which depends on nothing else.
#[verifier::external_body]
pub(crate) fn hmac_sha256(key: &[u8], message: &[u8]) -> (r: Result<Vec<u8>, InvalidLength>)
    ensures
        r is Ok,
        r->Ok_0@ == hmac_sha256_tag(key@, message@),
        r->Ok_0@.len() == 32,
{
    let mut mac = hmac::Hmac::<sha2::Sha256>::new_from_slice(key)?;
    mac.update(message);
    Ok(mac.finalize().into_bytes().to_vec())
}

} // verus!
