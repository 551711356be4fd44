//! P-256 key operations, computed by the `p256` crate on raw key bytes.

use vstd::prelude::*;

verus! {

/// The public point of a P-256 secret key given as raw bytes: the affine
/// coordinates x and y, 32 big-endian bytes each. `None` where the `p256`
/// crate does not take the bytes for a secret key.
pub uninterp spec fn p256_public_point(key: Seq<u8>) -> Option<(Seq<u8>, Seq<u8>)>;

/// The ECDSA signature of `message` under the secret key `key`, over the
/// SHA-256 digest of the message and with the deterministic nonce of
/// RFC 6979: r followed by s, 32 big-endian bytes each. `None` where the
/// `p256` crate does not take the bytes for a secret key or the signing
/// operation fails.
pub uninterp spec fn p256_signature(key: Seq<u8>, message: Seq<u8>) -> Option<Seq<u8>>;

/// Calls `p256::ecdsa::SigningKey::from_slice`, then `verifying_key`,
/// `to_encoded_point` without compression, and the point's `x` and `y`. The
/// contract names the result `p256_public_point` of the key bytes and states
/// the width of the two coordinates.
#[verifier::external_body]
pub(crate) fn public_point(key: &[u8]) -> (point: Option<(Vec<u8>, Vec<u8>)>)
    ensures
        match point {
            Some((x, y)) => p256_public_point(key@) == Some((x@, y@)) && x@.len() == 32
                && y@.len() == 32,
            None => p256_public_point(key@) is None,
        },
{
    let key = p256::ecdsa::SigningKey::from_slice(key).ok()?;
    let point = key.verifying_key().to_encoded_point(false);
    Some((point.x()?.to_vec(), point.y()?.to_vec()))
}

/// Calls `p256::ecdsa::SigningKey::from_slice`, then `try_sign` of the
/// `Signer` trait, and the signature's `to_vec`. The contract names the
/// result `p256_signature` of the key bytes and the message, and states the
/// width of a signature.
#[verifier::external_body]
pub(crate) fn ecdsa_sign(key: &[u8], message: &[u8]) -> (signature: Option<Vec<u8>>)
    ensures
        match signature {
            Some(s) => p256_signature(key@, message@) == Some(s@) && s@.len() == 64,
            None => p256_signature(key@, message@) is None,
        },
{
    let key = p256::ecdsa::SigningKey::from_slice(key).ok()?;
    let signature: p256::ecdsa::Signature = p256::ecdsa::signature::Signer::try_sign(
        &key,
        message,
    ).ok()?;
    Some(signature.to_vec())
}

/// Calls `p256::ecdsa::SigningKey::random` with the operating system's
/// random number generator, and the key's `to_bytes`. Which key comes back is
/// left open; the contract claims that its bytes are 32 and that they are a
/// secret key, as the bytes of a key that the crate made itself are.
#[verifier::external_body]
pub(crate) fn random_key() -> (key: Vec<u8>)
    ensures
        key@.len() == 32,
        p256_public_point(key@) is Some,
{
    p256::ecdsa::SigningKey::random(&mut rand::rngs::OsRng).to_bytes().to_vec()
}

} // verus!
