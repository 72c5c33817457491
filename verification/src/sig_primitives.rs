//! The signature primitives behind the hybrid and the hash-based scheme.
//!
//! As with the encryption primitives, each function hands its arguments to an
//! outside crate and nothing here is proved. Keys and signatures cross this
//! boundary as raw bytes; bytes that the outside crate cannot decode make a
//! verification fail, they never make a call panic.

use ed448_goldilocks_plus::{Signature, SigningKey, VerifyingKey};
use pqcrypto_dilithium::dilithium5;
use pqcrypto_sphincsplus::sphincssha2256ssimple;
use pqcrypto_traits::sign::DetachedSignature as SignatureBytes;
use pqcrypto_traits::sign::PublicKey as PublicKeyBytes;
use pqcrypto_traits::sign::SecretKey as SecretKeyBytes;
use vstd::prelude::*;

verus! {

/// Ed448 secret key (seed) size in bytes.
pub const ED448_SK_LEN: usize = 57;

/// Ed448 public key size in bytes.
pub const ED448_PK_LEN: usize = 57;

/// Ed448 signature size in bytes.
pub const ED448_SIG_LEN: usize = 114;

/// Dilithium5 public key size in bytes.
pub const DIL5_PK_LEN: usize = 2592;

/// Dilithium5 secret key size in bytes.
pub const DIL5_SK_LEN: usize = 4896;

/// Dilithium5 signature size in bytes.
pub const DIL5_SIG_LEN: usize = 4627;

/// SPHINCS+-SHA2-256s-simple public key size in bytes.
pub const SPHINCS_PK_LEN: usize = 64;

/// SPHINCS+-SHA2-256s-simple secret key size in bytes.
pub const SPHINCS_SK_LEN: usize = 128;

/// SPHINCS+-SHA2-256s-simple signature size in bytes.
pub const SPHINCS_SIG_LEN: usize = 29792;

/// The encoded Ed448 public key that belongs to the secret key `seed`.
pub uninterp spec fn ed448_public_key(seed: Seq<u8>) -> Seq<u8>;

/// The Ed448 signature of `message` under the secret key `seed`. Ed448
/// signing uses no randomness.
pub uninterp spec fn ed448_signature(seed: Seq<u8>, message: Seq<u8>) -> Seq<u8>;

/// Whether `key` is the encoding of an Ed448 public key: 57 bytes that
/// decompress to a point other than the identity.
pub uninterp spec fn ed448_key_decodes(key: Seq<u8>) -> bool;

/// Whether `signature` is the encoding of an Ed448 signature: 114 bytes
/// whose two halves are a valid point and a valid scalar.
pub uninterp spec fn ed448_signature_decodes(signature: Seq<u8>) -> bool;

/// Whether `signature` is a valid Ed448 signature of `message` under the
/// public key `key`, all three as bytes. False when either does not decode.
pub uninterp spec fn ed448_verifies(key: Seq<u8>, signature: Seq<u8>, message: Seq<u8>) -> bool;

/// The detached Dilithium5 signature of `message` under `secret_key`. The
/// signing routine in use draws no randomness.
pub uninterp spec fn dilithium5_signature(secret_key: Seq<u8>, message: Seq<u8>) -> Seq<u8>;

/// Whether `signature` is a valid detached Dilithium5 signature of `message`
/// under `public_key`. False when either has the wrong size.
pub uninterp spec fn dilithium5_verifies(
    signature: Seq<u8>,
    message: Seq<u8>,
    public_key: Seq<u8>,
) -> bool;

/// Whether `public_key` and `secret_key` are the two halves of one
/// Dilithium5 key pair, as key generation makes them.
pub uninterp spec fn dilithium5_keys_match(public_key: Seq<u8>, secret_key: Seq<u8>) -> bool;

/// Whether `public_key` and `secret_key` are the two halves of one SPHINCS+
/// key pair, as key generation makes them: the public key holds the root of
/// the tree that the secret key's seeds span.
pub uninterp spec fn sphincs_keys_match(public_key: Seq<u8>, secret_key: Seq<u8>) -> bool;

/// Whether `signature` is a valid detached SPHINCS+ signature of `message`
/// under `public_key`, once both have been accepted as encodings.
pub uninterp spec fn sphincs_verifies(
    signature: Seq<u8>,
    message: Seq<u8>,
    public_key: Seq<u8>,
) -> bool;

/// Calls `ed448_goldilocks_plus::SigningKey::generate` with the operating
/// system's random number generator and returns the key's seed.
///
/// Claimed: the size only.
#[verifier::external_body]
pub(crate) fn ed448_generate() -> (seed: Vec<u8>)
    ensures
        seed@.len() == ED448_SK_LEN,
{
    SigningKey::generate(rand::rngs::OsRng).to_bytes().to_vec()
}

/// Calls `ed448_goldilocks_plus::SigningKey::verifying_key` on the key made
/// from `seed`.
///
/// Claimed: a seed of the right size always makes a key, and the encoded
/// public key is 57 bytes that depend on the seed alone.
#[verifier::external_body]
pub(crate) fn ed448_derive_public(seed: &[u8]) -> (key: Option<Vec<u8>>)
    ensures
        key.is_some() <==> seed@.len() == ED448_SK_LEN,
        key matches Some(k) ==> (k@ == ed448_public_key(seed@) && k@.len() == ED448_PK_LEN),
{
    let sk = SigningKey::try_from(seed).ok()?;
    Some(sk.verifying_key().to_bytes().to_vec())
}

/// Calls `ed448_goldilocks_plus::SigningKey::sign_raw` with the key made from
/// `seed`.
///
/// Claimed: a seed of the right size always signs, and the encoded signature
/// is 114 bytes that depend on seed and message alone.
#[verifier::external_body]
pub(crate) fn ed448_sign(seed: &[u8], message: &[u8]) -> (signature: Option<Vec<u8>>)
    ensures
        signature.is_some() <==> seed@.len() == ED448_SK_LEN,
        signature matches Some(s) ==> (s@ == ed448_signature(seed@, message@) && s@.len()
            == ED448_SIG_LEN),
{
    let sk = SigningKey::try_from(seed).ok()?;
    Some(sk.sign_raw(message).to_bytes().to_vec())
}

/// Calls `ed448_goldilocks_plus::VerifyingKey::from_bytes` and reports
/// whether it accepted `key`.
///
/// Claimed: the answer depends on the bytes alone, and only 57 bytes are
/// ever accepted.
#[verifier::external_body]
pub(crate) fn ed448_check_key(key: &[u8]) -> (ok: bool)
    ensures
        ok == ed448_key_decodes(key@),
        ok ==> key@.len() == ED448_PK_LEN,
{
    match <[u8; 57]>::try_from(key) {
        Ok(bytes) => VerifyingKey::from_bytes(&bytes).is_ok(),
        Err(_) => false,
    }
}

/// Calls `ed448_goldilocks_plus::Signature::from_bytes` and reports whether
/// it accepted `signature`.
///
/// Claimed: the answer depends on the bytes alone.
#[verifier::external_body]
pub(crate) fn ed448_check_signature(signature: &[u8]) -> (ok: bool)
    ensures
        ok == ed448_signature_decodes(signature@),
{
    match <[u8; 114]>::try_from(signature) {
        Ok(bytes) => Signature::from_bytes(&bytes).is_ok(),
        Err(_) => false,
    }
}

/// Calls `ed448_goldilocks_plus::VerifyingKey::verify_raw` on what `key` and
/// `signature` decode to.
///
/// Claimed: the answer depends on the three byte strings alone. Where key
/// or signature does not decode the answer is no.
#[verifier::external_body]
pub(crate) fn ed448_verify(key: &[u8], signature: &[u8], message: &[u8]) -> (ok: bool)
    ensures
        ok == ed448_verifies(key@, signature@, message@),
{
    let vk = <[u8; 57]>::try_from(key).ok().and_then(|b| VerifyingKey::from_bytes(&b).ok());
    let sig = <[u8; 114]>::try_from(signature).ok().and_then(|b| Signature::from_bytes(&b).ok());
    match (vk, sig) {
        (Some(vk), Some(sig)) => vk.verify_raw(&sig, message).is_ok(),
        _ => false,
    }
}

/// Calls `pqcrypto_dilithium::dilithium5::keypair` and returns the public and
/// the secret key as bytes.
///
/// Claimed: the two sizes, and that the two keys are the halves of one
/// pair.
#[verifier::external_body]
pub(crate) fn dilithium5_keypair() -> (keys: (Vec<u8>, Vec<u8>))
    ensures
        keys.0@.len() == DIL5_PK_LEN,
        keys.1@.len() == DIL5_SK_LEN,
        dilithium5_keys_match(keys.0@, keys.1@),
{
    let (pk, sk) = dilithium5::keypair();
    (pk.as_bytes().to_vec(), sk.as_bytes().to_vec())
}

/// Calls `pqcrypto_dilithium::dilithium5::detached_sign` with the key that
/// `secret_key` decodes to.
///
/// Claimed: the key decodes exactly when it has the right size; the
/// signature is 4627 bytes that depend on key and message alone; and it
/// verifies under the public key that belongs to the secret key, since
/// signing starts over until the signature is one that verification
/// accepts.
#[verifier::external_body]
pub(crate) fn dilithium5_sign(secret_key: &[u8], message: &[u8]) -> (signature: Option<Vec<u8>>)
    ensures
        signature.is_some() <==> secret_key@.len() == DIL5_SK_LEN,
        signature matches Some(s) ==> (s@ == dilithium5_signature(secret_key@, message@)
            && s@.len() == DIL5_SIG_LEN),
        signature matches Some(s) ==> (forall|public_key: Seq<u8>|
            #[trigger] dilithium5_keys_match(public_key, secret_key@) ==> dilithium5_verifies(
                s@,
                message@,
                public_key,
            )),
{
    let sk = dilithium5::SecretKey::from_bytes(secret_key).ok()?;
    Some(dilithium5::detached_sign(message, &sk).as_bytes().to_vec())
}

/// Calls `pqcrypto_dilithium::dilithium5::verify_detached_signature` on what
/// `signature` and `public_key` decode to.
///
/// Claimed: the answer depends on the three byte strings alone. Where
/// signature or key does not decode the answer is no.
#[verifier::external_body]
pub(crate) fn dilithium5_verify(signature: &[u8], message: &[u8], public_key: &[u8]) -> (ok: bool)
    ensures
        ok == dilithium5_verifies(signature@, message@, public_key@),
{
    let pk = dilithium5::PublicKey::from_bytes(public_key);
    let sig = dilithium5::DetachedSignature::from_bytes(signature);
    match (sig, pk) {
        (Ok(sig), Ok(pk)) => dilithium5::verify_detached_signature(&sig, message, &pk).is_ok(),
        _ => false,
    }
}

/// Calls `pqcrypto_sphincsplus::sphincssha2256ssimple::keypair` and returns
/// the public and the secret key as bytes.
///
/// Claimed: the two sizes, that the two keys are the halves of one pair,
/// and that the second half of the secret key is the public key, as the key
/// generation routine lays the two out.
#[verifier::external_body]
pub(crate) fn sphincs_keypair() -> (keys: (Vec<u8>, Vec<u8>))
    ensures
        keys.0@.len() == SPHINCS_PK_LEN,
        keys.1@.len() == SPHINCS_SK_LEN,
        sphincs_keys_match(keys.0@, keys.1@),
        keys.1@.subrange(SPHINCS_PK_LEN as int, SPHINCS_SK_LEN as int) == keys.0@,
{
    let (pk, sk) = sphincssha2256ssimple::keypair();
    (pk.as_bytes().to_vec(), sk.as_bytes().to_vec())
}

/// Calls `pqcrypto_sphincsplus::sphincssha2256ssimple::detached_sign` with
/// the key that `secret_key` decodes to.
///
/// Claimed: the key decodes exactly when it has the right size; the
/// signature is 29792 bytes; and it verifies under the public key that
/// belongs to the secret key, since the root that verification recomputes
/// from the signature is the one that key generation stored. Signing draws
/// fresh randomness, so the signature has no name of its own.
#[verifier::external_body]
pub(crate) fn sphincs_detached_sign(secret_key: &[u8], message: &[u8]) -> (signature: Option<Vec<u8>>)
    ensures
        signature.is_some() <==> secret_key@.len() == SPHINCS_SK_LEN,
        signature matches Some(s) ==> s@.len() == SPHINCS_SIG_LEN,
        signature matches Some(s) ==> (forall|public_key: Seq<u8>|
            #[trigger] sphincs_keys_match(public_key, secret_key@) ==> sphincs_verifies(
                s@,
                message@,
                public_key,
            )),
{
    let sk = sphincssha2256ssimple::SecretKey::from_bytes(secret_key).ok()?;
    Some(sphincssha2256ssimple::detached_sign(message, &sk).as_bytes().to_vec())
}

/// Calls `pqcrypto_sphincsplus::sphincssha2256ssimple::verify_detached_signature`.
///
/// Asked only for a public key of the exact size and a signature no longer
/// than a full one, which are the encodings the outside crate accepts.
/// Claimed: the answer depends on the three byte strings alone, and is
/// positive only for a signature of the full size.
#[verifier::external_body]
pub(crate) fn sphincs_verify_detached(signature: &[u8], message: &[u8], public_key: &[u8]) -> (ok: bool)
    requires
        public_key@.len() == SPHINCS_PK_LEN,
        signature@.len() <= SPHINCS_SIG_LEN,
    ensures
        ok == sphincs_verifies(signature@, message@, public_key@),
        ok ==> signature@.len() == SPHINCS_SIG_LEN,
{
    let pk = sphincssha2256ssimple::PublicKey::from_bytes(public_key);
    let sig = sphincssha2256ssimple::DetachedSignature::from_bytes(signature);
    match (sig, pk) {
        (Ok(s), Ok(k)) => sphincssha2256ssimple::verify_detached_signature(&s, message, &k).is_ok(),
        _ => false,
    }
}

} // verus!
