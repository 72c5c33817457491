//! The cryptographic primitives the transport is built from.
//!
//! Every function here hands its arguments to an outside crate and returns
//! what came back. Nothing in this file is proved: each contract is a
//! statement about the outside code that the rest of the library relies on.
//! Results that are a function of the arguments alone are given a name, so
//! that callers can say exactly which value they return.

use vstd::prelude::*;

verus! {

/// Kyber-1024 public key size in bytes.
pub const KYBER_PK_LEN: usize = 1568;

/// Kyber-1024 secret key size in bytes.
pub const KYBER_SK_LEN: usize = 3168;

/// Kyber-1024 ciphertext size in bytes.
pub const KYBER_CT_LEN: usize = 1568;

/// Kyber-1024 shared secret size in bytes.
pub const KYBER_SS_LEN: usize = 32;

/// Offset of the embedded public key inside a Kyber-1024 secret key.
pub const KYBER_SK_PK_OFFSET: usize = 1536;

/// XChaCha20-Poly1305 key size in bytes.
pub const AEAD_KEY_LEN: usize = 32;

/// XChaCha20-Poly1305 nonce size in bytes.
pub const AEAD_NONCE_LEN: usize = 24;

/// Poly1305 tag size in bytes.
pub const AEAD_TAG_LEN: usize = 16;

/// Whether `public_key` and `secret_key` are the two halves of one
/// Kyber-1024 key pair, as key generation makes them.
pub uninterp spec fn kyber1024_keys_match(public_key: Seq<u8>, secret_key: Seq<u8>) -> bool;

/// Whether `shared_secret` and `ciphertext` are an outcome of Kyber-1024
/// encapsulation against `public_key`.
pub uninterp spec fn kyber1024_encapsulates(
    public_key: Seq<u8>,
    shared_secret: Seq<u8>,
    ciphertext: Seq<u8>,
) -> bool;

/// The shared secret that Kyber-1024 decapsulation recovers from
/// `ciphertext` under `secret_key`.
pub uninterp spec fn kyber1024_shared_secret(ciphertext: Seq<u8>, secret_key: Seq<u8>) -> Seq<u8>;

/// The 32 bytes that HKDF over SHA3-512, without salt, expands from the input
/// keying material `ikm` for the label `info`.
pub uninterp spec fn hkdf_sha3_512_key(ikm: Seq<u8>, info: Seq<u8>) -> Seq<u8>;

/// The XChaCha20-Poly1305 ciphertext, tag included, of `plaintext` under `key`
/// and `nonce` with no associated data.
pub uninterp spec fn xchacha20poly1305_sealed(
    key: Seq<u8>,
    nonce: Seq<u8>,
    plaintext: Seq<u8>,
) -> Seq<u8>;

/// What XChaCha20-Poly1305 recovers from `ciphertext` under `key` and `nonce`
/// with no associated data: the plaintext, or nothing when the tag does not
/// authenticate.
pub uninterp spec fn xchacha20poly1305_opened(
    key: Seq<u8>,
    nonce: Seq<u8>,
    ciphertext: Seq<u8>,
) -> Option<Seq<u8>>;

/// Whether XChaCha20-Poly1305 accepts a message of `len` bytes: the cipher
/// refuses a buffer of `u32::MAX` or more 64-byte blocks.
pub open spec fn aead_accepts(len: int) -> bool {
    len / 64 < 0xffff_ffff
}

/// Calls `pqcrypto_kyber::kyber1024::keypair` and returns the public and the
/// secret key as bytes.
///
/// Claimed: the two sizes, that the two keys are the halves of one pair,
/// and that the secret key carries a copy of the public key at a fixed
/// offset, as the key generation routine writes it.
#[verifier::external_body]
pub(crate) fn kyber1024_keypair() -> (keys: (Vec<u8>, Vec<u8>))
    ensures
        keys.0@.len() == KYBER_PK_LEN,
        keys.1@.len() == KYBER_SK_LEN,
        kyber1024_keys_match(keys.0@, keys.1@),
        keys.1@.subrange(KYBER_SK_PK_OFFSET as int, KYBER_SK_PK_OFFSET + KYBER_PK_LEN) == keys.0@,
{
    let (pk, sk) = pqcrypto_kyber::kyber1024::keypair();
    (
        pqcrypto_traits::kem::PublicKey::as_bytes(&pk).to_vec(),
        pqcrypto_traits::kem::SecretKey::as_bytes(&sk).to_vec(),
    )
}

/// Calls `pqcrypto_kyber::kyber1024::encapsulate` on the key that
/// `public_key` decodes to and returns the shared secret and the ciphertext.
///
/// Claimed: the key decodes exactly when it has the right size; the two
/// output sizes; and that the outputs are an encapsulation against this
/// key. They depend on fresh randomness, so they have no name of their own.
#[verifier::external_body]
pub(crate) fn kyber1024_encapsulate(public_key: &[u8]) -> (out: Option<(Vec<u8>, Vec<u8>)>)
    ensures
        out.is_some() <==> public_key@.len() == KYBER_PK_LEN,
        out matches Some(pair) ==> (pair.0@.len() == KYBER_SS_LEN && pair.1@.len() == KYBER_CT_LEN
            && kyber1024_encapsulates(public_key@, pair.0@, pair.1@)),
{
    let pk = <pqcrypto_kyber::kyber1024::PublicKey as pqcrypto_traits::kem::PublicKey>::from_bytes(
        public_key,
    ).ok()?;
    let (ss, ct) = pqcrypto_kyber::kyber1024::encapsulate(&pk);
    Some(
        (
            pqcrypto_traits::kem::SharedSecret::as_bytes(&ss).to_vec(),
            pqcrypto_traits::kem::Ciphertext::as_bytes(&ct).to_vec(),
        ),
    )
}

/// Calls `pqcrypto_kyber::kyber1024::decapsulate` on what `ciphertext` and
/// `secret_key` decode to.
///
/// Claimed: both decode exactly when they have the right sizes;
/// decapsulation itself never fails, and its 32-byte result depends on the
/// two inputs alone.
#[verifier::external_body]
pub(crate) fn kyber1024_decapsulate(ciphertext: &[u8], secret_key: &[u8]) -> (secret: Option<Vec<u8>>)
    ensures
        secret.is_some() <==> (ciphertext@.len() == KYBER_CT_LEN && secret_key@.len()
            == KYBER_SK_LEN),
        secret matches Some(s) ==> (s@ == kyber1024_shared_secret(ciphertext@, secret_key@)
            && s@.len() == KYBER_SS_LEN),
{
    let ct = <pqcrypto_kyber::kyber1024::Ciphertext as pqcrypto_traits::kem::Ciphertext>::from_bytes(
        ciphertext,
    ).ok()?;
    let sk = <pqcrypto_kyber::kyber1024::SecretKey as pqcrypto_traits::kem::SecretKey>::from_bytes(
        secret_key,
    ).ok()?;
    let ss = pqcrypto_kyber::kyber1024::decapsulate(&ct, &sk);
    Some(pqcrypto_traits::kem::SharedSecret::as_bytes(&ss).to_vec())
}

/// Calls `hkdf::Hkdf::<Sha3_512>::new` without salt and then `expand` for 32
/// bytes.
///
/// Claimed: expansion to 32 bytes always succeeds (the limit is 255 hash
/// outputs), and the result depends on the two inputs alone.
#[verifier::external_body]
pub(crate) fn hkdf_sha3_512_expand(ikm: &[u8], info: &[u8]) -> (okm: Option<Vec<u8>>)
    ensures
        okm.is_some(),
        okm matches Some(k) ==> (k@ == hkdf_sha3_512_key(ikm@, info@) && k@.len() == AEAD_KEY_LEN),
{
    let hk = hkdf::Hkdf::<sha3::Sha3_512>::new(None, ikm);
    let mut okm = vec![0u8; 32];
    hk.expand(info, &mut okm).ok()?;
    Some(okm)
}

/// Fills 24 bytes from the operating system's random number generator with
/// `rand::rngs::OsRng`.
///
/// Claimed: the size only.
#[verifier::external_body]
pub(crate) fn random_nonce() -> (nonce: Vec<u8>)
    ensures
        nonce@.len() == AEAD_NONCE_LEN,
{
    let mut nonce = vec![0u8; 24];
    rand::RngCore::fill_bytes(&mut rand::rngs::OsRng, &mut nonce);
    nonce
}

/// Calls `XChaCha20Poly1305::encrypt` with no associated data.
///
/// Claimed: encryption succeeds exactly for the message sizes the cipher
/// accepts; the result is the message size plus the tag, depends on the
/// three inputs alone, and decrypts under the same key and nonce to the
/// message, decryption recomputing the same tag and key stream.
#[verifier::external_body]
pub(crate) fn xchacha20poly1305_seal(key: &[u8], nonce: &[u8], plaintext: &[u8]) -> (sealed: Option<Vec<u8>>)
    requires
        key@.len() == AEAD_KEY_LEN,
        nonce@.len() == AEAD_NONCE_LEN,
    ensures
        sealed.is_some() <==> aead_accepts(plaintext@.len() as int),
        sealed matches Some(c) ==> (c@ == xchacha20poly1305_sealed(key@, nonce@, plaintext@)
            && c@.len() == plaintext@.len() + AEAD_TAG_LEN
            && xchacha20poly1305_opened(key@, nonce@, c@) == Some(plaintext@)),
{
    let cipher = <chacha20poly1305::XChaCha20Poly1305 as chacha20poly1305::KeyInit>::new(
        chacha20poly1305::Key::from_slice(key),
    );
    chacha20poly1305::aead::Aead::encrypt(
        &cipher,
        chacha20poly1305::XNonce::from_slice(nonce),
        plaintext,
    ).ok()
}

/// Calls `XChaCha20Poly1305::decrypt` with no associated data.
///
/// Claimed: the result depends on the three inputs alone, and a recovered
/// plaintext is the ciphertext without its 16-byte tag in size.
#[verifier::external_body]
pub(crate) fn xchacha20poly1305_open(key: &[u8], nonce: &[u8], ciphertext: &[u8]) -> (opened: Option<Vec<u8>>)
    requires
        key@.len() == AEAD_KEY_LEN,
        nonce@.len() == AEAD_NONCE_LEN,
    ensures
        match opened {
            Some(p) => xchacha20poly1305_opened(key@, nonce@, ciphertext@) == Some(p@) && p@.len()
                + AEAD_TAG_LEN == ciphertext@.len(),
            None => xchacha20poly1305_opened(key@, nonce@, ciphertext@) is None,
        },
{
    let cipher = <chacha20poly1305::XChaCha20Poly1305 as chacha20poly1305::KeyInit>::new(
        chacha20poly1305::Key::from_slice(key),
    );
    chacha20poly1305::aead::Aead::decrypt(
        &cipher,
        chacha20poly1305::XNonce::from_slice(nonce),
        ciphertext,
    ).ok()
}

} // verus!
