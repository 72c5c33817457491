//! SPHINCS+ signatures (SHA2-256s-simple), kept as a fallback that rests on
//! hash functions alone.
//!
//! The scheme is stateless: a key pair is all there is, and signing changes
//! nothing that a later signature would depend on.

use crate::sig_primitives::{
    sphincs_detached_sign, sphincs_keypair, sphincs_keys_match, sphincs_verifies,
    sphincs_verify_detached,
};
use vstd::prelude::*;
use vstd::slice::slice_to_vec;

verus! {

/// SPHINCS+ public key size in bytes.
pub const SPHINCS_PK_LEN: usize = 64;

/// SPHINCS+ secret key size in bytes.
pub const SPHINCS_SK_LEN: usize = 128;

/// SPHINCS+ signature size in bytes.
pub const SPHINCS_SIG_LEN: usize = 29792;

/// Why a SPHINCS+ signature did not verify, or a key or signature not decode.
#[derive(Debug, Clone, Copy, PartialEq, Eq, Structural)]
pub enum SphincsError {
    /// The signature is not one of the message under the key.
    VerifyFailed,
    /// A public key has the wrong size.
    InvalidPublicKey { expected: usize, got: usize },
    /// A secret key has the wrong size.
    InvalidSecretKey { expected: usize, got: usize },
    /// A signature has the wrong size.
    InvalidSignature { expected: usize, got: usize },
    /// The bytes are not a public key.
    DeserializePublicKey,
    /// The bytes are not a secret key.
    DeserializeSecretKey,
    /// The bytes are not a signature.
    DeserializeSignature,
}

/// A SPHINCS+ key pair, each key as bytes.
pub struct SphincsKeyPair {
    pub pk: Vec<u8>,
    pub sk: Vec<u8>,
}

impl SphincsKeyPair {
    /// Both keys have their fixed sizes.
    pub open spec fn wf(&self) -> bool {
        &&& self.pk@.len() == SPHINCS_PK_LEN
        &&& self.sk@.len() == SPHINCS_SK_LEN
    }

    /// The two keys are the halves of one pair.
    pub open spec fn matched(&self) -> bool {
        sphincs_keys_match(self.pk@, self.sk@)
    }
}

/// What verifying `signature` over `message` under `public_key` yields. The
/// key is decoded first, then the signature, and only then is the signature
/// checked; each step has its own error.
pub open spec fn spec_sphincs_verify(
    message: Seq<u8>,
    signature: Seq<u8>,
    public_key: Seq<u8>,
) -> Result<(), SphincsError> {
    if public_key.len() != SPHINCS_PK_LEN {
        Err(SphincsError::DeserializePublicKey)
    } else if signature.len() > SPHINCS_SIG_LEN {
        Err(SphincsError::DeserializeSignature)
    } else if !sphincs_verifies(signature, message, public_key) {
        Err(SphincsError::VerifyFailed)
    } else {
        Ok(())
    }
}

/// Generates a fresh SPHINCS+ key pair. The two keys are the halves of one
/// pair, and the secret key ends with the public key.
pub fn generate_sphincs_keypair() -> (pair: SphincsKeyPair)
    ensures
        pair.wf(),
        pair.matched(),
        pair.sk@.subrange(SPHINCS_PK_LEN as int, SPHINCS_SK_LEN as int) == pair.pk@,
{
    let (pk, sk) = sphincs_keypair();
    SphincsKeyPair { pk, sk }
}

/// Signs `message` and returns the detached signature. Signing is
/// randomised, so two signatures of one message differ; every one of them
/// has the full size and, where the keys of the pair belong together,
/// verifies under the pair's public key.
pub fn sphincs_sign(message: &[u8], keypair: &SphincsKeyPair) -> (signature: Vec<u8>)
    requires
        keypair.wf(),
    ensures
        signature@.len() == SPHINCS_SIG_LEN,
        keypair.matched() ==> sphincs_verifies(signature@, message@, keypair.pk@),
        keypair.matched() ==> spec_sphincs_verify(message@, signature@, keypair.pk@) == Ok::<
            (),
            SphincsError,
        >(()),
{
    match sphincs_detached_sign(keypair.sk.as_slice(), message) {
        Some(signature) => signature,
        None => Vec::new(),
    }
}

/// Verifies a detached signature. Anything that does not decode or does not
/// verify is refused.
pub fn sphincs_verify(message: &[u8], signature: &[u8], public_key: &[u8]) -> (result: Result<
    (),
    SphincsError,
>)
    ensures
        result == spec_sphincs_verify(message@, signature@, public_key@),
        result is Ok ==> signature@.len() == SPHINCS_SIG_LEN,
{
    if public_key.len() != SPHINCS_PK_LEN {
        return Err(SphincsError::DeserializePublicKey);
    }
    if signature.len() > SPHINCS_SIG_LEN {
        return Err(SphincsError::DeserializeSignature);
    }
    if sphincs_verify_detached(signature, message, public_key) {
        Ok(())
    } else {
        Err(SphincsError::VerifyFailed)
    }
}

/// The public key of the pair as bytes.
pub fn public_key_bytes(keypair: &SphincsKeyPair) -> (bytes: Vec<u8>)
    ensures
        bytes@ == keypair.pk@,
{
    slice_to_vec(keypair.pk.as_slice())
}

/// The secret key of the pair as bytes.
pub fn secret_key_bytes(keypair: &SphincsKeyPair) -> (bytes: Vec<u8>)
    ensures
        bytes@ == keypair.sk@,
{
    slice_to_vec(keypair.sk.as_slice())
}

/// Decodes a public key from raw bytes, which must be exactly 64.
pub fn public_key_from_bytes(bytes: &[u8]) -> (result: Result<Vec<u8>, SphincsError>)
    ensures
        match result {
            Ok(key) => bytes@.len() == SPHINCS_PK_LEN && key@ == bytes@,
            Err(e) => bytes@.len() != SPHINCS_PK_LEN && e == SphincsError::DeserializePublicKey,
        },
{
    if bytes.len() != SPHINCS_PK_LEN {
        return Err(SphincsError::DeserializePublicKey);
    }
    Ok(slice_to_vec(bytes))
}

/// A signature of the wrong size never verifies, and neither does anything
/// under a key of the wrong size.
pub proof fn lemma_sphincs_fails_closed(message: Seq<u8>, signature: Seq<u8>, public_key: Seq<u8>)
    ensures
        public_key.len() != SPHINCS_PK_LEN ==> spec_sphincs_verify(message, signature, public_key)
            == Err::<(), SphincsError>(SphincsError::DeserializePublicKey),
        spec_sphincs_verify(message, signature, public_key) is Ok ==> sphincs_verifies(
            signature,
            message,
            public_key,
        ),
{
}

} // verus!
