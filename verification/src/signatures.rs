//! Hybrid Ed448 + Dilithium5 signatures.
//!
//! A classical and a post-quantum signature are made over the same message,
//! and both must verify for the hybrid to verify, so that breaking one
//! algorithm alone forges nothing.
//!
//! Encodings:
//!
//! ```text
//! public key:  [ 57 bytes Ed448 key      ] [2592 bytes Dilithium5 key      ]
//! signature:   [114 bytes Ed448 signature] [4627 bytes Dilithium5 signature]
//! ```

use crate::sig_primitives::{
    dilithium5_keypair, dilithium5_keys_match, dilithium5_sign, dilithium5_signature,
    dilithium5_verifies, dilithium5_verify, ed448_check_key, ed448_check_signature,
    ed448_derive_public, ed448_generate, ed448_key_decodes, ed448_public_key, ed448_sign,
    ed448_signature, ed448_signature_decodes, ed448_verifies, ed448_verify, DIL5_SK_LEN,
    ED448_SK_LEN,
};
use vstd::prelude::*;
use vstd::slice::slice_subrange;
use vstd::slice::slice_to_vec;

verus! {

/// Ed448 public key size in bytes.
pub const ED448_PK_LEN: usize = 57;

/// Ed448 signature size in bytes.
pub const ED448_SIG_LEN: usize = 114;

/// Dilithium5 public key size in bytes.
pub const DIL5_PK_LEN: usize = 2592;

/// Dilithium5 signature size in bytes.
pub const DIL5_SIG_LEN: usize = 4627;

/// Size of an encoded hybrid public key.
pub const HYBRID_PK_LEN: usize = ED448_PK_LEN + DIL5_PK_LEN;

/// Size of an encoded hybrid signature.
pub const HYBRID_SIG_LEN: usize = ED448_SIG_LEN + DIL5_SIG_LEN;

/// Why a hybrid signature did not verify, or a key or signature not decode.
#[derive(Debug, Clone, Copy, PartialEq, Eq, Structural)]
pub enum SignatureError {
    /// The Ed448 half did not verify. The Dilithium5 half was not looked at.
    Ed448VerifyFailed,
    /// The Ed448 half verified and the Dilithium5 half did not.
    Dilithium5VerifyFailed,
    /// An encoded public key has the wrong size.
    InvalidPublicKey { expected: usize, got: usize },
    /// An encoded signature has the wrong size.
    InvalidSignature { expected: usize, got: usize },
    /// The Ed448 half of a public key is not a valid key.
    InvalidEd448Key,
    /// The Ed448 half of a signature is not a valid signature.
    InvalidEd448Signature,
    /// The Dilithium5 half of a public key is not a valid key.
    InvalidDilithiumKey,
    /// The Dilithium5 half of a signature is not a valid signature.
    InvalidDilithiumSignature,
}

/// A hybrid key pair: both secret keys and both public keys, each as bytes.
pub struct HybridKeyPair {
    pub ed448_sk: Vec<u8>,
    pub ed448_vk: Vec<u8>,
    pub dil5_pk: Vec<u8>,
    pub dil5_sk: Vec<u8>,
}

/// A hybrid public key: the Ed448 and the Dilithium5 public key, each as
/// bytes.
pub struct HybridPublicKey {
    pub ed448_vk: Vec<u8>,
    pub dil5_pk: Vec<u8>,
}

/// A hybrid signature: the Ed448 and the Dilithium5 signature, each as bytes.
pub struct HybridSignature {
    pub ed448_sig: Vec<u8>,
    pub dil5_sig: Vec<u8>,
}

/// The encoding of a public key with the two given halves.
pub open spec fn spec_encode(first: Seq<u8>, second: Seq<u8>) -> Seq<u8> {
    first + second
}

/// Why `bytes` is not the encoding of a hybrid public key, if it is not.
pub open spec fn spec_public_key_defect(bytes: Seq<u8>) -> Option<SignatureError> {
    if bytes.len() != HYBRID_PK_LEN {
        Some(SignatureError::InvalidPublicKey { expected: HYBRID_PK_LEN, got: bytes.len() as usize })
    } else if !ed448_key_decodes(bytes.subrange(0, ED448_PK_LEN as int)) {
        Some(SignatureError::InvalidEd448Key)
    } else {
        None
    }
}

/// Why `bytes` is not the encoding of a hybrid signature, if it is not.
pub open spec fn spec_signature_defect(bytes: Seq<u8>) -> Option<SignatureError> {
    if bytes.len() != HYBRID_SIG_LEN {
        Some(
            SignatureError::InvalidSignature { expected: HYBRID_SIG_LEN, got: bytes.len() as usize },
        )
    } else if !ed448_signature_decodes(bytes.subrange(0, ED448_SIG_LEN as int)) {
        Some(SignatureError::InvalidEd448Signature)
    } else {
        None
    }
}

/// What verifying the two halves of a hybrid signature yields: Ed448 is
/// asked first, and Dilithium5 only when Ed448 has verified.
pub open spec fn spec_hybrid_verify(
    message: Seq<u8>,
    ed448_sig: Seq<u8>,
    dil5_sig: Seq<u8>,
    ed448_vk: Seq<u8>,
    dil5_pk: Seq<u8>,
) -> Result<(), SignatureError> {
    if !ed448_verifies(ed448_vk, ed448_sig, message) {
        Err(SignatureError::Ed448VerifyFailed)
    } else if !dilithium5_verifies(dil5_sig, message, dil5_pk) {
        Err(SignatureError::Dilithium5VerifyFailed)
    } else {
        Ok(())
    }
}

impl HybridKeyPair {
    /// All four keys have their fixed sizes.
    pub open spec fn wf(&self) -> bool {
        &&& self.ed448_sk@.len() == ED448_SK_LEN
        &&& self.ed448_vk@.len() == ED448_PK_LEN
        &&& self.dil5_pk@.len() == DIL5_PK_LEN
        &&& self.dil5_sk@.len() == DIL5_SK_LEN
    }

    /// The public keys belong to the secret keys: the Ed448 public key is
    /// the one derived from the secret key, and the Dilithium5 keys are the
    /// halves of one pair.
    pub open spec fn matched(&self) -> bool {
        &&& self.ed448_vk@ == ed448_public_key(self.ed448_sk@)
        &&& dilithium5_keys_match(self.dil5_pk@, self.dil5_sk@)
    }

    /// Why this pair's public half is not a hybrid public key, if it is not.
    pub open spec fn spec_public_key_defect(&self) -> Option<SignatureError> {
        if !ed448_key_decodes(self.ed448_vk@) {
            Some(SignatureError::InvalidEd448Key)
        } else if self.dil5_pk@.len() != DIL5_PK_LEN {
            Some(SignatureError::InvalidDilithiumKey)
        } else {
            None
        }
    }

    /// Extracts the public key from the pair, checking both halves on the
    /// way.
    pub fn public_key(&self) -> (result: Result<HybridPublicKey, SignatureError>)
        ensures
            match result {
                Ok(key) => self.spec_public_key_defect() is None && key.ed448_vk@
                    == self.ed448_vk@ && key.dil5_pk@ == self.dil5_pk@ && key.wf(),
                Err(e) => self.spec_public_key_defect() == Some(e),
            },
    {
        if !ed448_check_key(self.ed448_vk.as_slice()) {
            return Err(SignatureError::InvalidEd448Key);
        }
        if self.dil5_pk.len() != DIL5_PK_LEN {
            return Err(SignatureError::InvalidDilithiumKey);
        }
        Ok(
            HybridPublicKey {
                ed448_vk: slice_to_vec(self.ed448_vk.as_slice()),
                dil5_pk: slice_to_vec(self.dil5_pk.as_slice()),
            },
        )
    }
}

impl HybridPublicKey {
    /// Both halves have their fixed sizes and the Ed448 half is a valid key.
    pub open spec fn wf(&self) -> bool {
        &&& self.ed448_vk@.len() == ED448_PK_LEN
        &&& self.dil5_pk@.len() == DIL5_PK_LEN
        &&& ed448_key_decodes(self.ed448_vk@)
    }

    /// Encodes the key: the Ed448 half followed by the Dilithium5 half.
    pub fn to_bytes(&self) -> (bytes: Vec<u8>)
        ensures
            bytes@ == spec_encode(self.ed448_vk@, self.dil5_pk@),
            self.wf() ==> bytes@.len() == HYBRID_PK_LEN,
    {
        let mut bytes: Vec<u8> = Vec::new();
        bytes.extend_from_slice(self.ed448_vk.as_slice());
        bytes.extend_from_slice(self.dil5_pk.as_slice());
        assert(bytes@ =~= self.ed448_vk@ + self.dil5_pk@);
        bytes
    }

    /// Decodes a key from exactly [`HYBRID_PK_LEN`] bytes whose first 57 are a
    /// valid Ed448 key.
    pub fn from_bytes(bytes: &[u8]) -> (result: Result<HybridPublicKey, SignatureError>)
        ensures
            match result {
                Ok(key) => {
                    &&& spec_public_key_defect(bytes@) is None
                    &&& key.wf()
                    &&& key.ed448_vk@ == bytes@.subrange(0, ED448_PK_LEN as int)
                    &&& key.dil5_pk@ == bytes@.skip(ED448_PK_LEN as int)
                },
                Err(e) => spec_public_key_defect(bytes@) == Some(e),
            },
    {
        if bytes.len() != HYBRID_PK_LEN {
            return Err(
                SignatureError::InvalidPublicKey { expected: HYBRID_PK_LEN, got: bytes.len() },
            );
        }
        let first: &[u8] = slice_subrange(bytes, 0, ED448_PK_LEN);
        let second: &[u8] = slice_subrange(bytes, ED448_PK_LEN, bytes.len());
        assert(second@ =~= bytes@.skip(ED448_PK_LEN as int));
        if !ed448_check_key(first) {
            return Err(SignatureError::InvalidEd448Key);
        }
        Ok(HybridPublicKey { ed448_vk: slice_to_vec(first), dil5_pk: slice_to_vec(second) })
    }
}

impl HybridSignature {
    /// Both halves have their fixed sizes and the Ed448 half is a valid
    /// signature encoding.
    pub open spec fn wf(&self) -> bool {
        &&& self.ed448_sig@.len() == ED448_SIG_LEN
        &&& self.dil5_sig@.len() == DIL5_SIG_LEN
        &&& ed448_signature_decodes(self.ed448_sig@)
    }

    /// Encodes the signature: the Ed448 half followed by the Dilithium5
    /// half.
    pub fn to_bytes(&self) -> (bytes: Vec<u8>)
        ensures
            bytes@ == spec_encode(self.ed448_sig@, self.dil5_sig@),
            self.ed448_sig@.len() == ED448_SIG_LEN && self.dil5_sig@.len() == DIL5_SIG_LEN
                ==> bytes@.len() == HYBRID_SIG_LEN,
    {
        let mut bytes: Vec<u8> = Vec::new();
        bytes.extend_from_slice(self.ed448_sig.as_slice());
        bytes.extend_from_slice(self.dil5_sig.as_slice());
        assert(bytes@ =~= self.ed448_sig@ + self.dil5_sig@);
        bytes
    }

    /// Decodes a signature from exactly [`HYBRID_SIG_LEN`] bytes whose first
    /// 114 are a valid Ed448 signature encoding.
    pub fn from_bytes(bytes: &[u8]) -> (result: Result<HybridSignature, SignatureError>)
        ensures
            match result {
                Ok(signature) => {
                    &&& spec_signature_defect(bytes@) is None
                    &&& signature.wf()
                    &&& signature.ed448_sig@ == bytes@.subrange(0, ED448_SIG_LEN as int)
                    &&& signature.dil5_sig@ == bytes@.skip(ED448_SIG_LEN as int)
                },
                Err(e) => spec_signature_defect(bytes@) == Some(e),
            },
    {
        if bytes.len() != HYBRID_SIG_LEN {
            return Err(
                SignatureError::InvalidSignature { expected: HYBRID_SIG_LEN, got: bytes.len() },
            );
        }
        let first: &[u8] = slice_subrange(bytes, 0, ED448_SIG_LEN);
        let second: &[u8] = slice_subrange(bytes, ED448_SIG_LEN, bytes.len());
        assert(second@ =~= bytes@.skip(ED448_SIG_LEN as int));
        if !ed448_check_signature(first) {
            return Err(SignatureError::InvalidEd448Signature);
        }
        Ok(HybridSignature { ed448_sig: slice_to_vec(first), dil5_sig: slice_to_vec(second) })
    }
}

/// Generates a fresh hybrid key pair. The two halves are generated
/// independently of each other.
pub fn generate_hybrid_keypair() -> (pair: HybridKeyPair)
    ensures
        pair.wf(),
        pair.matched(),
{
    let ed448_sk: Vec<u8> = ed448_generate();
    let ed448_vk: Vec<u8> = match ed448_derive_public(ed448_sk.as_slice()) {
        Some(key) => key,
        None => Vec::new(),
    };
    let (dil5_pk, dil5_sk) = dilithium5_keypair();
    HybridKeyPair { ed448_sk, ed448_vk, dil5_pk, dil5_sk }
}

/// Signs `message` with both secret keys of the pair, each on its own.
///
/// Where the Dilithium5 keys of the pair belong together, the Dilithium5
/// half of the signature verifies under the pair's public key. The whole
/// signature then verifies under the pair's public keys as soon as its
/// Ed448 half does; that is left as a condition, because the Ed448 verifier
/// refuses a zero scalar and the neutral point, which the signer can in
/// principle produce.
pub fn hybrid_sign(message: &[u8], keypair: &HybridKeyPair) -> (signature: HybridSignature)
    requires
        keypair.wf(),
    ensures
        signature.ed448_sig@ == ed448_signature(keypair.ed448_sk@, message@),
        signature.dil5_sig@ == dilithium5_signature(keypair.dil5_sk@, message@),
        signature.ed448_sig@.len() == ED448_SIG_LEN,
        signature.dil5_sig@.len() == DIL5_SIG_LEN,
        dilithium5_keys_match(keypair.dil5_pk@, keypair.dil5_sk@) ==> dilithium5_verifies(
            signature.dil5_sig@,
            message@,
            keypair.dil5_pk@,
        ),
        dilithium5_keys_match(keypair.dil5_pk@, keypair.dil5_sk@) && ed448_verifies(
            keypair.ed448_vk@,
            signature.ed448_sig@,
            message@,
        ) ==> spec_hybrid_verify(
            message@,
            signature.ed448_sig@,
            signature.dil5_sig@,
            keypair.ed448_vk@,
            keypair.dil5_pk@,
        ) == Ok::<(), SignatureError>(()),
{
    let ed448_sig: Vec<u8> = match ed448_sign(keypair.ed448_sk.as_slice(), message) {
        Some(s) => s,
        None => Vec::new(),
    };
    let dil5_sig: Vec<u8> = match dilithium5_sign(keypair.dil5_sk.as_slice(), message) {
        Some(s) => s,
        None => Vec::new(),
    };
    HybridSignature { ed448_sig, dil5_sig }
}

/// Verifies a hybrid signature: succeeds exactly when both halves verify
/// over `message`, each against its half of the public key.
///
/// Ed448 is verified first and its failure reported at once; Dilithium5 is
/// verified only after Ed448 has passed.
pub fn hybrid_verify(
    message: &[u8],
    signature: &HybridSignature,
    public_key: &HybridPublicKey,
) -> (result: Result<(), SignatureError>)
    ensures
        result == spec_hybrid_verify(
            message@,
            signature.ed448_sig@,
            signature.dil5_sig@,
            public_key.ed448_vk@,
            public_key.dil5_pk@,
        ),
{
    if !ed448_verify(public_key.ed448_vk.as_slice(), signature.ed448_sig.as_slice(), message) {
        return Err(SignatureError::Ed448VerifyFailed);
    }
    if !dilithium5_verify(signature.dil5_sig.as_slice(), message, public_key.dil5_pk.as_slice()) {
        return Err(SignatureError::Dilithium5VerifyFailed);
    }
    Ok(())
}

/// A hybrid signature verifies if and only if each half verifies on its
/// own: neither algorithm alone can make the hybrid pass.
pub proof fn lemma_hybrid_needs_both(
    message: Seq<u8>,
    ed448_sig: Seq<u8>,
    dil5_sig: Seq<u8>,
    ed448_vk: Seq<u8>,
    dil5_pk: Seq<u8>,
)
    ensures
        spec_hybrid_verify(message, ed448_sig, dil5_sig, ed448_vk, dil5_pk) is Ok <==> (
        ed448_verifies(ed448_vk, ed448_sig, message) && dilithium5_verifies(
            dil5_sig,
            message,
            dil5_pk,
        )),
{
}

/// Encoding a public key of the right sizes whose Ed448 half is valid and
/// decoding the bytes again finds no defect and gives back both halves.
pub proof fn lemma_public_key_roundtrip(ed448_vk: Seq<u8>, dil5_pk: Seq<u8>)
    requires
        ed448_vk.len() == ED448_PK_LEN,
        dil5_pk.len() == DIL5_PK_LEN,
        ed448_key_decodes(ed448_vk),
    ensures
        spec_public_key_defect(spec_encode(ed448_vk, dil5_pk)) is None,
        spec_encode(ed448_vk, dil5_pk).subrange(0, ED448_PK_LEN as int) == ed448_vk,
        spec_encode(ed448_vk, dil5_pk).skip(ED448_PK_LEN as int) == dil5_pk,
{
    let bytes = spec_encode(ed448_vk, dil5_pk);
    assert(bytes.subrange(0, ED448_PK_LEN as int) =~= ed448_vk);
    assert(bytes.skip(ED448_PK_LEN as int) =~= dil5_pk);
}

/// Encoding a signature of the right sizes whose Ed448 half is valid and
/// decoding the bytes again finds no defect and gives back both halves.
pub proof fn lemma_signature_roundtrip(ed448_sig: Seq<u8>, dil5_sig: Seq<u8>)
    requires
        ed448_sig.len() == ED448_SIG_LEN,
        dil5_sig.len() == DIL5_SIG_LEN,
        ed448_signature_decodes(ed448_sig),
    ensures
        spec_signature_defect(spec_encode(ed448_sig, dil5_sig)) is None,
        spec_encode(ed448_sig, dil5_sig).subrange(0, ED448_SIG_LEN as int) == ed448_sig,
        spec_encode(ed448_sig, dil5_sig).skip(ED448_SIG_LEN as int) == dil5_sig,
{
    let bytes = spec_encode(ed448_sig, dil5_sig);
    assert(bytes.subrange(0, ED448_SIG_LEN as int) =~= ed448_sig);
    assert(bytes.skip(ED448_SIG_LEN as int) =~= dil5_sig);
}

/// Bytes that decode without defect are the encoding of the halves they
/// decode to.
pub proof fn lemma_decode_then_encode(bytes: Seq<u8>, split: int)
    requires
        0 <= split <= bytes.len(),
    ensures
        spec_encode(bytes.subrange(0, split), bytes.skip(split)) == bytes,
{
    assert(spec_encode(bytes.subrange(0, split), bytes.skip(split)) =~= bytes);
}

/// A buffer of the wrong size is never a public key or a signature: decoding
/// reports the size it wanted and the size it got.
pub proof fn lemma_wrong_length_rejected(bytes: Seq<u8>)
    ensures
        bytes.len() != HYBRID_PK_LEN ==> spec_public_key_defect(bytes) == Some(
            SignatureError::InvalidPublicKey { expected: HYBRID_PK_LEN, got: bytes.len() as usize },
        ),
        bytes.len() != HYBRID_SIG_LEN ==> spec_signature_defect(bytes) == Some(
            SignatureError::InvalidSignature { expected: HYBRID_SIG_LEN, got: bytes.len() as usize },
        ),
{
}

} // verus!
