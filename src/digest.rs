use sha3::{Digest, Sha3_256, Sha3_512};
use vstd::prelude::*;
use vstd::utf8::encode_utf8;

verus! {

/// The SHA3-256 digest of a byte string.
pub uninterp spec fn sha3_256_of(data: Seq<u8>) -> Seq<u8>;

/// The SHA3-512 digest of a byte string.
pub uninterp spec fn sha3_512_of(data: Seq<u8>) -> Seq<u8>;

/// Relies on `sha3::Sha3_256::digest`: a 32-byte digest that depends on the
/// input bytes alone.
#[verifier::external_body]
pub(crate) fn sha3_256(data: &[u8]) -> (r: Vec<u8>)
    ensures
        r@ == sha3_256_of(data@),
        r@.len() == 32,
{
    Sha3_256::digest(data).to_vec()
}

/// Relies on `sha3::Sha3_512::digest`: a 64-byte digest that depends on the
/// input bytes alone.
#[verifier::external_body]
pub(crate) fn sha3_512(data: &[u8]) -> (r: Vec<u8>)
    ensures
        r@ == sha3_512_of(data@),
        r@.len() == 64,
{
    Sha3_512::digest(data).to_vec()
}

/// The verifier stored for a password: the SHA3-512 digest of its UTF-8 bytes.
pub open spec fn verifier_of(password: Seq<char>) -> Seq<u8> {
    sha3_512_of(encode_utf8(password))
}

/// Computes the one-way verifier of a plaintext password.
pub fn password_verifier(password: &str) -> (r: Vec<u8>)
    ensures
        r@ == verifier_of(password@),
        r@.len() == 64,
{
    sha3_512(password.as_bytes())
}

/// Hashing the same password twice gives the same verifier.
pub proof fn lemma_verifier_deterministic(p: Seq<char>, q: Seq<char>)
    requires
        p == q,
    ensures
        verifier_of(p) == verifier_of(q),
{
}

} // verus!
