//! Key handling around the transport: loading keys that were handed over as
//! Base64 text, generating a pair for an operator, and the resolver's one
//! mutable secret key with its rotation.

use crate::codec_primitives::{base64_bytes, base64_decode, base64_encode, base64_text};
use crate::crypto::{
    decrypt_query, generate_keypair, public_key_from_bytes, secret_key_from_bytes,
    spec_decrypt_query, spec_embedded_public_key, Error, PublicKey, SecretKey,
};
use crate::primitives::{kyber1024_keys_match, KYBER_PK_LEN, KYBER_SK_LEN};
use crate::text::{spec_parse_u64, spec_trim};
use vstd::prelude::*;
use vstd::string::StrSliceExecFns;

verus! {

/// Why no key could be loaded.
#[derive(Debug, Clone, Copy, PartialEq, Eq, Structural)]
pub enum KeyLoadError {
    /// Neither a key nor a file holding one was named.
    Missing,
    /// The text is not Base64.
    NotBase64,
    /// The bytes are not a key.
    Key(Error),
}

/// Where the key comes from.
pub enum KeyInput {
    /// The key itself, as Base64 text.
    Inline { text: String },
    /// The path of a file that holds the raw key.
    File { path: String },
}

/// A freshly generated key pair, ready to be shown to an operator.
pub struct KeygenReport {
    /// Name of the key encapsulation mechanism.
    pub algorithm: String,
    /// Name of the key derivation function.
    pub kdf: String,
    /// Name of the symmetric cipher.
    pub symmetric: String,
    /// Size of the public key in bytes.
    pub public_key_len: usize,
    /// The public key as Base64 text.
    pub public_key: String,
    /// Size of the secret key in bytes.
    pub secret_key_len: usize,
    /// The secret key as Base64 text.
    pub secret_key: String,
}

/// The resolver's current secret key. Decryption reads it; rotation replaces
/// it as a whole.
pub struct KeyStore {
    current: SecretKey,
    rotations: u64,
}

/// What a public key handed over as Base64 text decodes to.
pub open spec fn spec_public_key_from_base64(text: Seq<char>) -> Result<Seq<u8>, KeyLoadError> {
    match base64_bytes(text) {
        None => Err(KeyLoadError::NotBase64),
        Some(bytes) => if bytes.len() == KYBER_PK_LEN {
            Ok(bytes)
        } else {
            Err(
                KeyLoadError::Key(
                    Error::InvalidPublicKey { expected: KYBER_PK_LEN, got: bytes.len() as usize },
                ),
            )
        },
    }
}

/// What a secret key handed over as Base64 text decodes to.
pub open spec fn spec_secret_key_from_base64(text: Seq<char>) -> Result<Seq<u8>, KeyLoadError> {
    match base64_bytes(text) {
        None => Err(KeyLoadError::NotBase64),
        Some(bytes) => if bytes.len() == KYBER_SK_LEN {
            Ok(bytes)
        } else {
            Err(
                KeyLoadError::Key(
                    Error::InvalidSecretKey { expected: KYBER_SK_LEN, got: bytes.len() as usize },
                ),
            )
        },
    }
}

/// Picks the source of the key from what was given on the command line: the
/// key itself if there is one, else the file, else nothing.
pub fn choose_key_input(inline: Option<String>, file: Option<String>) -> (result: Result<
    KeyInput,
    KeyLoadError,
>)
    ensures
        match result {
            Ok(KeyInput::Inline { text }) => inline == Some(text),
            Ok(KeyInput::File { path }) => inline is None && file == Some(path),
            Err(e) => inline is None && file is None && e == KeyLoadError::Missing,
        },
{
    match inline {
        Some(text) => Ok(KeyInput::Inline { text }),
        None => match file {
            Some(path) => Ok(KeyInput::File { path }),
            None => Err(KeyLoadError::Missing),
        },
    }
}

/// Decodes a public key from Base64 text.
pub fn public_key_from_base64(text: &str) -> (result: Result<PublicKey, KeyLoadError>)
    ensures
        match result {
            Ok(key) => spec_public_key_from_base64(text@) == Ok::<Seq<u8>, KeyLoadError>(key@),
            Err(e) => spec_public_key_from_base64(text@) == Err::<Seq<u8>, KeyLoadError>(e),
        },
{
    let bytes: Vec<u8> = match base64_decode(text) {
        Some(bytes) => bytes,
        None => {
            return Err(KeyLoadError::NotBase64);
        },
    };
    match public_key_from_bytes(bytes.as_slice()) {
        Ok(key) => Ok(key),
        Err(e) => Err(KeyLoadError::Key(e)),
    }
}

/// Decodes a secret key from Base64 text.
pub fn secret_key_from_base64(text: &str) -> (result: Result<SecretKey, KeyLoadError>)
    ensures
        match result {
            Ok(key) => spec_secret_key_from_base64(text@) == Ok::<Seq<u8>, KeyLoadError>(key@),
            Err(e) => spec_secret_key_from_base64(text@) == Err::<Seq<u8>, KeyLoadError>(e),
        },
{
    let bytes: Vec<u8> = match base64_decode(text) {
        Some(bytes) => bytes,
        None => {
            return Err(KeyLoadError::NotBase64);
        },
    };
    match secret_key_from_bytes(bytes.as_slice()) {
        Ok(key) => Ok(key),
        Err(e) => Err(KeyLoadError::Key(e)),
    }
}

/// Describes a key pair for an operator: both keys as Base64 text with
/// their sizes, and the names of the algorithms in use.
pub fn describe_keypair(public_key: &PublicKey, secret_key: &SecretKey) -> (report: KeygenReport)
    ensures
        report.algorithm@ == "Kyber-1024 / ML-KEM-1024 (FIPS 203)"@,
        report.kdf@ == "HKDF-SHA3-512 (RFC 5869 + FIPS 202)"@,
        report.symmetric@ == "XChaCha20-Poly1305 (extended 192-bit nonce)"@,
        report.public_key_len == KYBER_PK_LEN,
        report.secret_key_len == KYBER_SK_LEN,
        report.public_key@ == base64_text(public_key@),
        report.secret_key@ == base64_text(secret_key@),
        base64_bytes(report.public_key@) == Some(public_key@),
        base64_bytes(report.secret_key@) == Some(secret_key@),
{
    let public_bytes: &[u8] = public_key.as_bytes();
    let secret_bytes: &[u8] = secret_key.as_bytes();
    KeygenReport {
        algorithm: "Kyber-1024 / ML-KEM-1024 (FIPS 203)".to_owned(),
        kdf: "HKDF-SHA3-512 (RFC 5869 + FIPS 202)".to_owned(),
        symmetric: "XChaCha20-Poly1305 (extended 192-bit nonce)".to_owned(),
        public_key_len: public_bytes.len(),
        public_key: base64_encode(public_bytes),
        secret_key_len: secret_bytes.len(),
        secret_key: base64_encode(secret_bytes),
    }
}

/// Generates a key pair and describes it, without starting anything.
///
/// The report names the algorithms in use, and its two texts are the Base64
/// of the two halves of one pair.
pub fn keygen() -> (report: KeygenReport)
    ensures
        report.algorithm@ == "Kyber-1024 / ML-KEM-1024 (FIPS 203)"@,
        report.kdf@ == "HKDF-SHA3-512 (RFC 5869 + FIPS 202)"@,
        report.symmetric@ == "XChaCha20-Poly1305 (extended 192-bit nonce)"@,
        report.public_key_len == KYBER_PK_LEN,
        report.secret_key_len == KYBER_SK_LEN,
        exists|public_key: Seq<u8>, secret_key: Seq<u8>|
            {
                &&& public_key.len() == KYBER_PK_LEN
                &&& secret_key.len() == KYBER_SK_LEN
                &&& #[trigger] kyber1024_keys_match(public_key, secret_key)
                &&& spec_embedded_public_key(secret_key) == public_key
                &&& report.public_key@ == base64_text(public_key)
                &&& report.secret_key@ == base64_text(secret_key)
                &&& base64_bytes(report.public_key@) == Some(public_key)
                &&& base64_bytes(report.secret_key@) == Some(secret_key)
            },
{
    let (public_key, secret_key) = generate_keypair();
    let report = describe_keypair(&public_key, &secret_key);
    proof {
        assert(kyber1024_keys_match(public_key@, secret_key@));
    }
    report
}

/// Whether the key is rotated at all: an interval of zero switches rotation
/// off.
pub fn rotation_enabled(interval_secs: u64) -> (enabled: bool)
    ensures
        enabled == (interval_secs > 0),
{
    interval_secs > 0
}

impl KeyStore {
    /// The secret key currently in use.
    pub closed spec fn secret(&self) -> Seq<u8> {
        self.current@
    }

    /// How many times the key has been rotated, as far as 64 bits count.
    pub closed spec fn rotations(&self) -> int {
        self.rotations as int
    }

    /// A store that starts out with `secret_key`.
    pub fn new(secret_key: SecretKey) -> (store: KeyStore)
        ensures
            store.secret() == secret_key@,
            store.rotations() == 0,
    {
        KeyStore { current: secret_key, rotations: 0 }
    }

    /// The number of rotations so far.
    pub fn rotation_count(&self) -> (count: u64)
        ensures
            count == self.rotations(),
    {
        self.rotations
    }

    /// Decrypts under the key that is current when the call is made. The
    /// outcome is that of [`decrypt_query`] under that key, whatever becomes
    /// of the store afterwards.
    pub fn decrypt(&self, encrypted: &[u8]) -> (result: Result<Vec<u8>, Error>)
        ensures
            match result {
                Ok(query) => spec_decrypt_query(encrypted@, self.secret()) == Ok::<Seq<u8>, Error>(
                    query@,
                ),
                Err(e) => spec_decrypt_query(encrypted@, self.secret()) == Err::<Seq<u8>, Error>(e),
            },
    {
        decrypt_query(encrypted, &self.current)
    }

    /// The key that is current, for a connection to work under.
    pub fn current(&self) -> (key: &SecretKey)
        ensures
            key@ == self.secret(),
    {
        &self.current
    }

    /// Puts the secret key of a given pair in place of the current one, as a
    /// whole, and returns the pair's public key as Base64 text for
    /// publication. Nothing else of the store changes but the count of
    /// rotations.
    pub fn install(&mut self, public_key: &PublicKey, secret_key: SecretKey) -> (published: String)
        ensures
            final(self).secret() == secret_key@,
            published@ == base64_text(public_key@),
            base64_bytes(published@) == Some(public_key@),
            final(self).rotations() == if old(self).rotations() < u64::MAX {
                old(self).rotations() + 1
            } else {
                old(self).rotations()
            },
    {
        let published: String = base64_encode(public_key.as_bytes());
        self.current = secret_key;
        if self.rotations < u64::MAX {
            self.rotations = self.rotations + 1;
        }
        published
    }

    /// Replaces the secret key by that of a fresh pair and returns the new
    /// public key as Base64 text, which has to reach the proxy by other
    /// means: until it does, what the proxy encrypts is meant for the key
    /// that is gone.
    ///
    /// The pair is drawn at random, so the contract says what holds of every
    /// outcome: the secret key now in place and the public key published are
    /// the two halves of one pair.
    pub fn rotate(&mut self) -> (published: String)
        ensures
            exists|public_key: Seq<u8>|
                {
                    &&& public_key.len() == KYBER_PK_LEN
                    &&& #[trigger] kyber1024_keys_match(public_key, final(self).secret())
                    &&& spec_embedded_public_key(final(self).secret()) == public_key
                    &&& published@ == base64_text(public_key)
                    &&& base64_bytes(published@) == Some(public_key)
                },
            final(self).secret().len() == KYBER_SK_LEN,
            final(self).rotations() == if old(self).rotations() < u64::MAX {
                old(self).rotations() + 1
            } else {
                old(self).rotations()
            },
    {
        let (public_key, secret_key) = generate_keypair();
        let ghost fresh = public_key@;
        let ghost secret = secret_key@;
        let published: String = self.install(&public_key, secret_key);
        proof {
            assert(kyber1024_keys_match(fresh, secret));
        }
        published
    }
}

/// Why a rotation interval could not be read.
#[derive(Debug, Clone, Copy, PartialEq, Eq, Structural)]
pub enum DurationError {
    /// The number before `h` is not a number of hours that can be counted
    /// in seconds.
    InvalidHours,
    /// The number before `m` is not a number of minutes that can be counted
    /// in seconds.
    InvalidMinutes,
    /// The number before `s` is not a number.
    InvalidSeconds,
    /// The text is not a number.
    InvalidDuration,
}

/// The seconds that `count` units of `unit` seconds each make, if `count` is
/// a number and the product fits 64 bits; else `error`.
pub open spec fn spec_scaled(count: Seq<char>, unit: int, error: DurationError) -> Result<
    u64,
    DurationError,
> {
    match spec_parse_u64(count) {
        Some(n) => if n * unit <= u64::MAX {
            Ok((n * unit) as u64)
        } else {
            Err(error)
        },
        None => Err(error),
    }
}

/// The number of seconds that a duration text stands for: `<N>h`, `<N>m`,
/// `<N>s` or a bare `<N>` of seconds, white space around it ignored.
pub open spec fn spec_parse_duration(s: Seq<char>) -> Result<u64, DurationError> {
    let t = spec_trim(s);
    if t.len() > 0 && t.last() == 'h' {
        spec_scaled(t.drop_last(), 3600, DurationError::InvalidHours)
    } else if t.len() > 0 && t.last() == 'm' {
        spec_scaled(t.drop_last(), 60, DurationError::InvalidMinutes)
    } else if t.len() > 0 && t.last() == 's' {
        spec_scaled(t.drop_last(), 1, DurationError::InvalidSeconds)
    } else {
        spec_scaled(t, 1, DurationError::InvalidDuration)
    }
}

fn scaled(count: &str, unit: u64, error: DurationError) -> (result: Result<u64, DurationError>)
    requires
        unit > 0,
    ensures
        result == spec_scaled(count@, unit as int, error),
{
    match crate::text::parse_u64(count) {
        Some(n) => {
            if n > u64::MAX / unit {
                assert(n * unit > u64::MAX) by (nonlinear_arith)
                    requires
                        n > u64::MAX / unit,
                        unit > 0,
                ;
                Err(error)
            } else {
                assert(n * unit <= u64::MAX) by (nonlinear_arith)
                    requires
                        n <= u64::MAX / unit,
                        unit > 0,
                ;
                Ok(n * unit)
            }
        },
        None => Err(error),
    }
}

/// Reads a rotation interval and returns it in seconds.
pub fn parse_duration(s: &str) -> (result: Result<u64, DurationError>)
    ensures
        result == spec_parse_duration(s@),
{
    let t: &str = crate::text::trim(s);
    let len: usize = t.unicode_len();
    if len == 0 {
        return scaled(t, 1, DurationError::InvalidDuration);
    }
    let last: char = t.get_char(len - 1);
    let head: &str = t.substring_char(0, len - 1);
    assert(head@ =~= t@.drop_last());
    if last == 'h' {
        scaled(head, 3600, DurationError::InvalidHours)
    } else if last == 'm' {
        scaled(head, 60, DurationError::InvalidMinutes)
    } else if last == 's' {
        scaled(head, 1, DurationError::InvalidSeconds)
    } else {
        scaled(t, 1, DurationError::InvalidDuration)
    }
}

} // verus!
