//! Post-quantum encryption of DNS queries on their way to the resolver.
//!
//! Wire format of one encrypted query:
//!
//! ```text
//! [1568 bytes: Kyber-1024 ciphertext]
//! [  24 bytes: XChaCha20-Poly1305 nonce]
//! [   N bytes: AEAD ciphertext, the query followed by a 16-byte tag]
//! ```

use crate::primitives::{
    aead_accepts, hkdf_sha3_512_expand, hkdf_sha3_512_key, kyber1024_decapsulate,
    kyber1024_encapsulate, kyber1024_encapsulates, kyber1024_keypair, kyber1024_keys_match,
    kyber1024_shared_secret, random_nonce, xchacha20poly1305_open, xchacha20poly1305_opened,
    xchacha20poly1305_seal, xchacha20poly1305_sealed, KYBER_PK_LEN, KYBER_SK_LEN,
    KYBER_SK_PK_OFFSET, KYBER_SS_LEN,
};
use vstd::prelude::*;
use vstd::slice::slice_subrange;
use vstd::slice::slice_to_vec;

verus! {

/// Kyber-1024 ciphertext size in bytes.
pub const KEM_CT_LEN: usize = 1568;

/// XChaCha20-Poly1305 nonce size in bytes.
pub const NONCE_LEN: usize = 24;

/// Poly1305 authentication tag size in bytes.
pub const TAG_LEN: usize = 16;

/// Smallest possible encrypted message: ciphertext, nonce and tag around an
/// empty query.
pub const OVERHEAD: usize = KEM_CT_LEN + NONCE_LEN + TAG_LEN;

/// Label that separates the keys derived here from those of any other
/// protocol: the ASCII text `odns-kyber1024-xchacha20-v1`.
pub const HKDF_INFO: [u8; 27] = [
    0x6f, 0x64, 0x6e, 0x73, 0x2d, 0x6b, 0x79, 0x62, 0x65, 0x72, 0x31, 0x30, 0x32, 0x34, 0x2d, 0x78,
    0x63, 0x68, 0x61, 0x63, 0x68, 0x61, 0x32, 0x30, 0x2d, 0x76, 0x31,
];

/// Why a query could not be encrypted or decrypted, or a key not decoded.
#[derive(Debug, Clone, Copy, PartialEq, Eq, Structural)]
pub enum Error {
    /// The message is shorter than the fixed parts of the wire format.
    MessageTooShort { min: usize, got: usize },
    /// The leading bytes are not a Kyber-1024 ciphertext.
    InvalidCiphertext,
    /// The cipher refused to encrypt.
    EncryptionFailed,
    /// Authentication failed. Wrong key, tampering and corruption are not
    /// told apart.
    DecryptionFailed,
    /// No symmetric key could be derived.
    KeyDerivationFailed,
    /// The bytes are not a public key: they have the wrong size.
    InvalidPublicKey { expected: usize, got: usize },
    /// The bytes are not a secret key: they have the wrong size.
    InvalidSecretKey { expected: usize, got: usize },
}

/// A Kyber-1024 public key, given to the proxy.
pub struct PublicKey {
    bytes: Vec<u8>,
}

/// A Kyber-1024 secret key, which never leaves the resolver.
pub struct SecretKey {
    bytes: Vec<u8>,
}

impl View for PublicKey {
    type V = Seq<u8>;

    closed spec fn view(&self) -> Seq<u8> {
        self.bytes@
    }
}

impl View for SecretKey {
    type V = Seq<u8>;

    closed spec fn view(&self) -> Seq<u8> {
        self.bytes@
    }
}

impl PublicKey {
    #[verifier::type_invariant]
    spec fn sized(&self) -> bool {
        self.bytes@.len() == KYBER_PK_LEN
    }

    /// The key as raw bytes.
    pub fn as_bytes(&self) -> (bytes: &[u8])
        ensures
            bytes@ == self@,
            bytes@.len() == KYBER_PK_LEN,
    {
        proof {
            use_type_invariant(self);
        }
        self.bytes.as_slice()
    }
}

impl SecretKey {
    #[verifier::type_invariant]
    spec fn sized(&self) -> bool {
        self.bytes@.len() == KYBER_SK_LEN
    }

    /// The key as raw bytes.
    pub fn as_bytes(&self) -> (bytes: &[u8])
        ensures
            bytes@ == self@,
            bytes@.len() == KYBER_SK_LEN,
    {
        proof {
            use_type_invariant(self);
        }
        self.bytes.as_slice()
    }
}

/// The public key that a secret key carries inside it.
pub open spec fn spec_embedded_public_key(secret_key: Seq<u8>) -> Seq<u8> {
    secret_key.subrange(KYBER_SK_PK_OFFSET as int, KYBER_SK_PK_OFFSET + KYBER_PK_LEN)
}

/// The symmetric key derived from a shared secret.
pub open spec fn spec_symmetric_key(shared_secret: Seq<u8>) -> Seq<u8> {
    hkdf_sha3_512_key(shared_secret, HKDF_INFO@)
}

/// The Kyber ciphertext at the front of an encrypted message.
pub open spec fn spec_kem_part(encrypted: Seq<u8>) -> Seq<u8> {
    encrypted.subrange(0, KEM_CT_LEN as int)
}

/// The nonce in the middle of an encrypted message.
pub open spec fn spec_nonce_part(encrypted: Seq<u8>) -> Seq<u8> {
    encrypted.subrange(KEM_CT_LEN as int, KEM_CT_LEN + NONCE_LEN)
}

/// The AEAD ciphertext at the end of an encrypted message.
pub open spec fn spec_aead_part(encrypted: Seq<u8>) -> Seq<u8> {
    encrypted.skip(KEM_CT_LEN + NONCE_LEN)
}

/// The encrypted message for `query`, once the shared secret, the Kyber
/// ciphertext and the nonce are fixed.
pub open spec fn spec_seal_query(
    query: Seq<u8>,
    shared_secret: Seq<u8>,
    kem_ciphertext: Seq<u8>,
    nonce: Seq<u8>,
) -> Seq<u8> {
    kem_ciphertext + nonce + xchacha20poly1305_sealed(
        spec_symmetric_key(shared_secret),
        nonce,
        query,
    )
}

/// `encrypted` has the size of an encryption of `query`, and its AEAD part
/// opens to `query` under the key derived from `shared_secret`.
pub open spec fn spec_sealed_for(encrypted: Seq<u8>, query: Seq<u8>, shared_secret: Seq<u8>) -> bool {
    &&& encrypted.len() == query.len() + OVERHEAD
    &&& xchacha20poly1305_opened(
        spec_symmetric_key(shared_secret),
        spec_nonce_part(encrypted),
        spec_aead_part(encrypted),
    ) == Some(query)
}

/// What decrypting `encrypted` under `secret_key` yields.
pub open spec fn spec_decrypt_query(encrypted: Seq<u8>, secret_key: Seq<u8>) -> Result<
    Seq<u8>,
    Error,
> {
    if encrypted.len() < OVERHEAD {
        Err(Error::MessageTooShort { min: OVERHEAD, got: encrypted.len() as usize })
    } else {
        match xchacha20poly1305_opened(
            spec_symmetric_key(kyber1024_shared_secret(spec_kem_part(encrypted), secret_key)),
            spec_nonce_part(encrypted),
            spec_aead_part(encrypted),
        ) {
            Some(query) => Ok(query),
            None => Err(Error::DecryptionFailed),
        }
    }
}

/// Generates a fresh Kyber-1024 key pair.
///
/// The two keys are the halves of one pair, and the secret key carries its
/// public key inside it.
pub fn generate_keypair() -> (pair: (PublicKey, SecretKey))
    ensures
        pair.0@.len() == KYBER_PK_LEN,
        pair.1@.len() == KYBER_SK_LEN,
        kyber1024_keys_match(pair.0@, pair.1@),
        spec_embedded_public_key(pair.1@) == pair.0@,
{
    let (pk, sk) = kyber1024_keypair();
    (PublicKey { bytes: pk }, SecretKey { bytes: sk })
}

/// Decodes a public key from raw bytes, which must be exactly 1568.
pub fn public_key_from_bytes(bytes: &[u8]) -> (result: Result<PublicKey, Error>)
    ensures
        match result {
            Ok(key) => bytes@.len() == KYBER_PK_LEN && key@ == bytes@,
            Err(e) => bytes@.len() != KYBER_PK_LEN && e == (Error::InvalidPublicKey {
                expected: KYBER_PK_LEN,
                got: bytes.len(),
            }),
        },
{
    if bytes.len() != KYBER_PK_LEN {
        return Err(Error::InvalidPublicKey { expected: KYBER_PK_LEN, got: bytes.len() });
    }
    Ok(PublicKey { bytes: slice_to_vec(bytes) })
}

/// Decodes a secret key from raw bytes, which must be exactly 3168.
pub fn secret_key_from_bytes(bytes: &[u8]) -> (result: Result<SecretKey, Error>)
    ensures
        match result {
            Ok(key) => bytes@.len() == KYBER_SK_LEN && key@ == bytes@,
            Err(e) => bytes@.len() != KYBER_SK_LEN && e == (Error::InvalidSecretKey {
                expected: KYBER_SK_LEN,
                got: bytes.len(),
            }),
        },
{
    if bytes.len() != KYBER_SK_LEN {
        return Err(Error::InvalidSecretKey { expected: KYBER_SK_LEN, got: bytes.len() });
    }
    Ok(SecretKey { bytes: slice_to_vec(bytes) })
}

/// Derives the 32-byte symmetric key from a shared secret with
/// HKDF-SHA3-512, no salt, and the label [`HKDF_INFO`].
pub fn derive_symmetric_key(shared_secret: &[u8]) -> (result: Result<Vec<u8>, Error>)
    ensures
        result matches Ok(key) && key@ == spec_symmetric_key(shared_secret@) && key@.len() == 32,
{
    match hkdf_sha3_512_expand(shared_secret, HKDF_INFO.as_slice()) {
        Some(key) => Ok(key),
        None => Err(Error::KeyDerivationFailed),
    }
}

/// Builds the encrypted message for `query` from the outcome of a key
/// encapsulation and a nonce: derives the symmetric key, encrypts, and lays
/// out ciphertext, nonce and AEAD output in wire order.
///
/// The only failure is the cipher refusing the size of the query.
pub fn seal_query(query: &[u8], shared_secret: &[u8], kem_ciphertext: &[u8], nonce: &[u8]) -> (result:
    Result<Vec<u8>, Error>)
    requires
        kem_ciphertext@.len() == KEM_CT_LEN,
        nonce@.len() == NONCE_LEN,
    ensures
        match result {
            Ok(encrypted) => {
                &&& aead_accepts(query@.len() as int)
                &&& encrypted@ == spec_seal_query(
                    query@,
                    shared_secret@,
                    kem_ciphertext@,
                    nonce@,
                )
                &&& spec_sealed_for(encrypted@, query@, shared_secret@)
                &&& spec_kem_part(encrypted@) == kem_ciphertext@
            },
            Err(e) => !aead_accepts(query@.len() as int) && e == Error::EncryptionFailed,
        },
{
    let key: Vec<u8> = match derive_symmetric_key(shared_secret) {
        Ok(key) => key,
        Err(e) => {
            return Err(e);
        },
    };
    let sealed: Vec<u8> = match xchacha20poly1305_seal(key.as_slice(), nonce, query) {
        Some(sealed) => sealed,
        None => {
            return Err(Error::EncryptionFailed);
        },
    };
    let mut wire: Vec<u8> = Vec::new();
    wire.extend_from_slice(kem_ciphertext);
    wire.extend_from_slice(nonce);
    wire.extend_from_slice(sealed.as_slice());
    proof {
        assert(wire@ =~= kem_ciphertext@ + nonce@ + sealed@);
        assert(spec_kem_part(wire@) =~= kem_ciphertext@);
        assert(spec_nonce_part(wire@) =~= nonce@);
        assert(spec_aead_part(wire@) =~= sealed@);
    }
    Ok(wire)
}

/// Encrypts a DNS query for the holder of the secret key that belongs to
/// `public_key`.
///
/// Encapsulates a fresh shared secret against the key, draws a fresh nonce,
/// and seals the query as [`seal_query`] does. Both are random, so the
/// contract says what holds of every outcome: some shared secret and Kyber
/// ciphertext that are an encapsulation against `public_key`, and some
/// nonce, exist of which the result is the sealing.
pub fn encrypt_query(query: &[u8], public_key: &PublicKey) -> (result: Result<Vec<u8>, Error>)
    ensures
        match result {
            Ok(encrypted) => {
                &&& aead_accepts(query@.len() as int)
                &&& encrypted@.len() == query@.len() + OVERHEAD
                &&& exists|shared_secret: Seq<u8>, kem_ciphertext: Seq<u8>, nonce: Seq<u8>|
                    {
                        &&& shared_secret.len() == KYBER_SS_LEN
                        &&& kem_ciphertext.len() == KEM_CT_LEN
                        &&& nonce.len() == NONCE_LEN
                        &&& kyber1024_encapsulates(public_key@, shared_secret, kem_ciphertext)
                        &&& encrypted@ == #[trigger] spec_seal_query(
                            query@,
                            shared_secret,
                            kem_ciphertext,
                            nonce,
                        )
                        &&& spec_sealed_for(encrypted@, query@, shared_secret)
                    }
            },
            Err(e) => !aead_accepts(query@.len() as int) && e == Error::EncryptionFailed,
        },
{
    let (shared_secret, kem_ciphertext) = match kyber1024_encapsulate(public_key.as_bytes()) {
        Some(pair) => pair,
        None => {
            return Err(
                Error::InvalidPublicKey { expected: KYBER_PK_LEN, got: public_key.as_bytes().len() },
            );
        },
    };
    let nonce: Vec<u8> = random_nonce();
    seal_query(query, shared_secret.as_slice(), kem_ciphertext.as_slice(), nonce.as_slice())
}

/// Decrypts a query that the proxy encrypted.
///
/// A message shorter than [`OVERHEAD`] is refused before anything else is
/// looked at. Otherwise the shared secret is decapsulated from the leading
/// ciphertext, the symmetric key derived from it, and the rest opened; any
/// authentication failure is reported as the one error
/// [`Error::DecryptionFailed`].
pub fn decrypt_query(encrypted: &[u8], secret_key: &SecretKey) -> (result: Result<Vec<u8>, Error>)
    ensures
        match result {
            Ok(query) => spec_decrypt_query(encrypted@, secret_key@) == Ok::<Seq<u8>, Error>(query@)
                && query@.len() + OVERHEAD == encrypted@.len(),
            Err(e) => spec_decrypt_query(encrypted@, secret_key@) == Err::<Seq<u8>, Error>(e),
        },
        encrypted@.len() < OVERHEAD ==> result == Err::<Vec<u8>, Error>(
            Error::MessageTooShort { min: OVERHEAD, got: encrypted.len() },
        ),
{
    if encrypted.len() < OVERHEAD {
        return Err(Error::MessageTooShort { min: OVERHEAD, got: encrypted.len() });
    }
    let kem_part: &[u8] = slice_subrange(encrypted, 0, KEM_CT_LEN);
    let nonce_part: &[u8] = slice_subrange(encrypted, KEM_CT_LEN, KEM_CT_LEN + NONCE_LEN);
    let aead_part: &[u8] = slice_subrange(encrypted, KEM_CT_LEN + NONCE_LEN, encrypted.len());
    assert(aead_part@ =~= spec_aead_part(encrypted@));

    let shared_secret: Vec<u8> = match kyber1024_decapsulate(kem_part, secret_key.as_bytes()) {
        Some(secret) => secret,
        None => {
            return Err(Error::InvalidCiphertext);
        },
    };
    let key: Vec<u8> = match derive_symmetric_key(shared_secret.as_slice()) {
        Ok(key) => key,
        Err(e) => {
            return Err(e);
        },
    };
    match xchacha20poly1305_open(key.as_slice(), nonce_part, aead_part) {
        Some(query) => Ok(query),
        None => Err(Error::DecryptionFailed),
    }
}

/// An encrypted message whose AEAD part opens to `query` under the key
/// derived from `shared_secret` decrypts to exactly `query` under every
/// secret key that decapsulates its leading ciphertext to `shared_secret`.
pub proof fn lemma_decrypt_inverts_seal(
    encrypted: Seq<u8>,
    query: Seq<u8>,
    shared_secret: Seq<u8>,
    secret_key: Seq<u8>,
)
    requires
        spec_sealed_for(encrypted, query, shared_secret),
        kyber1024_shared_secret(spec_kem_part(encrypted), secret_key) == shared_secret,
    ensures
        spec_decrypt_query(encrypted, secret_key) == Ok::<Seq<u8>, Error>(query),
{
}

/// A message shorter than the fixed overhead is refused as too short,
/// whatever it holds and whatever the key.
pub proof fn lemma_truncated_rejected(encrypted: Seq<u8>, secret_key: Seq<u8>)
    requires
        encrypted.len() < OVERHEAD,
    ensures
        spec_decrypt_query(encrypted, secret_key) == Err::<Seq<u8>, Error>(
            Error::MessageTooShort { min: OVERHEAD, got: encrypted.len() as usize },
        ),
{
}

/// A message of full size whose AEAD part does not authenticate under the
/// key that a secret key leads to is refused under that secret key. This is
/// what becomes of a message that was encrypted for another key, unless the
/// cipher is forged.
pub proof fn lemma_unauthentic_rejected(encrypted: Seq<u8>, secret_key: Seq<u8>)
    requires
        encrypted.len() >= OVERHEAD,
        xchacha20poly1305_opened(
            spec_symmetric_key(kyber1024_shared_secret(spec_kem_part(encrypted), secret_key)),
            spec_nonce_part(encrypted),
            spec_aead_part(encrypted),
        ) is None,
    ensures
        spec_decrypt_query(encrypted, secret_key) == Err::<Seq<u8>, Error>(Error::DecryptionFailed),
{
}

/// Decryption either returns a query or fails in one of exactly two ways:
/// too short, or not authentic. Nothing tells a wrong key from a damaged
/// message.
pub proof fn lemma_decrypt_fails_closed(encrypted: Seq<u8>, secret_key: Seq<u8>)
    ensures
        match spec_decrypt_query(encrypted, secret_key) {
            Ok(_) => encrypted.len() >= OVERHEAD,
            Err(e) => if encrypted.len() < OVERHEAD {
                e == (Error::MessageTooShort { min: OVERHEAD, got: encrypted.len() as usize })
            } else {
                e == Error::DecryptionFailed
            },
        },
{
}

} // verus!
