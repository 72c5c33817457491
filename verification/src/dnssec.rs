//! DNSSEC keys and record signatures with the hybrid Ed448 + Dilithium5
//! scheme, under the private-use algorithm number 253.
//!
//! Keys and signatures are the encodings of the hybrid scheme; digests are
//! BLAKE3.

use crate::codec_primitives::{
    base64_bytes, base64_decode, base64_encode, base64_text, blake3_digest, blake3_hash,
};
use crate::sig_primitives::{dilithium5_signature, ed448_signature};
use crate::signatures::{
    generate_hybrid_keypair, hybrid_sign, hybrid_verify as verify_halves, spec_encode,
    spec_hybrid_verify, spec_public_key_defect, spec_signature_defect, HybridKeyPair,
    HybridPublicKey, HybridSignature, ED448_PK_LEN, ED448_SIG_LEN, HYBRID_PK_LEN, HYBRID_SIG_LEN,
};
use crate::text::{append_decimal, hex_lower, spec_decimal_text, spec_hex};
use vstd::prelude::*;
use vstd::string::StringExecFns;
use vstd::utf8::encode_utf8;

verus! {

/// DNSSEC algorithm number of the hybrid scheme (private use).
pub const ALGORITHM_HYBRID_ED448_DIL5: u8 = 253;

/// Why a signature could not be checked.
#[derive(Debug, Clone, Copy, PartialEq, Eq, Structural)]
pub enum DnssecError {
    /// The public key has the wrong size.
    InvalidPublicKeyLength { expected: usize, got: usize },
    /// The signature has the wrong size.
    InvalidSignatureLength { expected: usize, got: usize },
    /// The Ed448 half of the public key is not a valid key.
    InvalidEd448Key,
    /// The Ed448 half of the signature is not a valid signature.
    InvalidEd448Signature,
    /// The signature is not Base64.
    InvalidBase64,
}

/// A hybrid key pair for signing a zone.
pub struct HybridDNSSECKey {
    pair: HybridKeyPair,
}

/// Generates keys and signs and verifies records.
pub struct DNSSECManager {}

/// What checking `signature` over `data` under `public_key` yields: an
/// error where key or signature does not decode, the size of the key first,
/// then the size of the signature, then the key's content, then the
/// signature's; else whether both halves verify.
pub open spec fn spec_dnssec_verify(data: Seq<u8>, signature: Seq<u8>, public_key: Seq<u8>) -> Result<
    bool,
    DnssecError,
> {
    if public_key.len() != HYBRID_PK_LEN {
        Err(
            DnssecError::InvalidPublicKeyLength {
                expected: HYBRID_PK_LEN,
                got: public_key.len() as usize,
            },
        )
    } else if signature.len() != HYBRID_SIG_LEN {
        Err(
            DnssecError::InvalidSignatureLength {
                expected: HYBRID_SIG_LEN,
                got: signature.len() as usize,
            },
        )
    } else if spec_public_key_defect(public_key) is Some {
        Err(DnssecError::InvalidEd448Key)
    } else if spec_signature_defect(signature) is Some {
        Err(DnssecError::InvalidEd448Signature)
    } else {
        Ok(
            spec_hybrid_verify(
                data,
                signature.subrange(0, ED448_SIG_LEN as int),
                signature.skip(ED448_SIG_LEN as int),
                public_key.subrange(0, ED448_PK_LEN as int),
                public_key.skip(ED448_PK_LEN as int),
            ) is Ok,
        )
    }
}

/// The `DNSKEY` record text of a key signing key.
pub open spec fn spec_dnskey(zone: Seq<char>, ksk_public: Seq<char>) -> Seq<char> {
    zone + " IN DNSKEY 257 3 253 "@ + ksk_public
}

/// The key tag of a `DNSKEY` record text: the first two bytes of its hash,
/// big-endian.
pub open spec fn spec_key_tag(dnskey: Seq<char>) -> u16 {
    let digest = blake3_digest(encode_utf8(dnskey));
    (digest[0] as int * 256 + digest[1] as int) as u16
}

/// The `DS` record text for a zone and its key signing key.
pub open spec fn spec_ds_record(zone: Seq<char>, ksk_public: Seq<char>) -> Seq<char> {
    let dnskey = spec_dnskey(zone, ksk_public);
    zone + " IN DS "@ + spec_decimal_text(spec_key_tag(dnskey) as nat) + " 253 253 "@ + spec_hex(
        blake3_digest(encode_utf8(dnskey)),
    )
}

impl HybridDNSSECKey {
    /// The key pair inside.
    pub closed spec fn pair(&self) -> HybridKeyPair {
        self.pair
    }

    #[verifier::type_invariant]
    spec fn sized(&self) -> bool {
        self.pair.wf()
    }

    /// Generates a new hybrid key pair.
    pub fn generate() -> (key: HybridDNSSECKey)
        ensures
            key.pair().wf(),
            key.pair().matched(),
    {
        HybridDNSSECKey { pair: generate_hybrid_keypair() }
    }

    /// The encoded public key: the Ed448 key followed by the Dilithium5
    /// key.
    pub fn public_key_bytes(&self) -> (bytes: Vec<u8>)
        ensures
            bytes@ == spec_encode(self.pair().ed448_vk@, self.pair().dil5_pk@),
            bytes@.len() == HYBRID_PK_LEN,
    {
        proof {
            use_type_invariant(self);
        }
        let mut bytes: Vec<u8> = Vec::new();
        bytes.extend_from_slice(self.pair.ed448_vk.as_slice());
        bytes.extend_from_slice(self.pair.dil5_pk.as_slice());
        assert(bytes@ =~= self.pair.ed448_vk@ + self.pair.dil5_pk@);
        bytes
    }

    /// Signs `data` with both secret keys and returns the encoded
    /// signature: the Ed448 signature followed by the Dilithium5 signature.
    pub fn sign(&self, data: &[u8]) -> (signature: Vec<u8>)
        ensures
            signature@ == spec_encode(
                ed448_signature(self.pair().ed448_sk@, data@),
                dilithium5_signature(self.pair().dil5_sk@, data@),
            ),
            signature@.len() == HYBRID_SIG_LEN,
    {
        proof {
            use_type_invariant(self);
        }
        hybrid_sign(data, &self.pair).to_bytes()
    }
}

/// Verifies an encoded hybrid signature over `data` under an encoded hybrid
/// public key. Both halves must verify.
pub fn hybrid_verify(data: &[u8], signature: &[u8], public_key: &[u8]) -> (result: Result<
    bool,
    DnssecError,
>)
    ensures
        result == spec_dnssec_verify(data@, signature@, public_key@),
{
    if public_key.len() != HYBRID_PK_LEN {
        return Err(
            DnssecError::InvalidPublicKeyLength { expected: HYBRID_PK_LEN, got: public_key.len() },
        );
    }
    if signature.len() != HYBRID_SIG_LEN {
        return Err(
            DnssecError::InvalidSignatureLength { expected: HYBRID_SIG_LEN, got: signature.len() },
        );
    }
    let key: HybridPublicKey = match HybridPublicKey::from_bytes(public_key) {
        Ok(key) => key,
        Err(_) => {
            return Err(DnssecError::InvalidEd448Key);
        },
    };
    let sig: HybridSignature = match HybridSignature::from_bytes(signature) {
        Ok(sig) => sig,
        Err(_) => {
            return Err(DnssecError::InvalidEd448Signature);
        },
    };
    match verify_halves(data, &sig, &key) {
        Ok(()) => Ok(true),
        Err(_) => Ok(false),
    }
}

impl DNSSECManager {
    /// Creates a manager.
    pub fn new() -> (manager: DNSSECManager) {
        DNSSECManager {  }
    }

    /// Calculates the key tag of a `DNSKEY` record text.
    pub fn calculate_key_tag(&self, dnskey: &str) -> (tag: u16)
        ensures
            tag == spec_key_tag(dnskey@),
    {
        let digest: Vec<u8> = blake3_hash(dnskey.as_bytes());
        (digest[0] as u16) * 256 + (digest[1] as u16)
    }

    /// Generates the `DS` record that the parent zone publishes for a key
    /// signing key.
    pub fn generate_ds_record(&self, zone: &str, ksk_public: &str) -> (record: String)
        ensures
            record@ == spec_ds_record(zone@, ksk_public@),
    {
        let mut dnskey: String = String::new();
        dnskey.append(zone);
        dnskey.append(" IN DNSKEY 257 3 253 ");
        dnskey.append(ksk_public);
        assert(dnskey@ =~= spec_dnskey(zone@, ksk_public@));
        let digest: Vec<u8> = blake3_hash(dnskey.as_str().as_bytes());
        let key_tag: u16 = self.calculate_key_tag(dnskey.as_str());
        let mut record: String = String::new();
        record.append(zone);
        record.append(" IN DS ");
        append_decimal(&mut record, key_tag as u64);
        record.append(" 253 253 ");
        record.append(hex_lower(digest.as_slice()).as_str());
        assert(record@ =~= spec_ds_record(zone@, ksk_public@));
        record
    }

    /// Generates the keys of a zone: a key signing key and a zone signing
    /// key, each as the Base64 text of its public half, and the `DS` record
    /// of the first. Each text is that of the public keys of a freshly
    /// generated pair.
    pub fn generate_keys(&self, zone: &str) -> (result: Result<(String, String, String), DnssecError>)
        ensures
            result matches Ok(keys) && {
                &&& keys.2@ == spec_ds_record(zone@, keys.0@)
                &&& base64_bytes(keys.0@) matches Some(ksk) && ksk.len() == HYBRID_PK_LEN
                &&& base64_bytes(keys.1@) matches Some(zsk) && zsk.len() == HYBRID_PK_LEN
                &&& exists|ksk: HybridKeyPair, zsk: HybridKeyPair|
                    #![trigger ksk.matched(), zsk.matched()]
                    {
                        &&& ksk.wf() && ksk.matched()
                        &&& zsk.wf() && zsk.matched()
                        &&& keys.0@ == base64_text(spec_encode(ksk.ed448_vk@, ksk.dil5_pk@))
                        &&& keys.1@ == base64_text(spec_encode(zsk.ed448_vk@, zsk.dil5_pk@))
                    }
            },
    {
        let ksk: HybridDNSSECKey = HybridDNSSECKey::generate();
        let ksk_public: String = base64_encode(ksk.public_key_bytes().as_slice());
        let zsk: HybridDNSSECKey = HybridDNSSECKey::generate();
        let zsk_public: String = base64_encode(zsk.public_key_bytes().as_slice());
        let ds_record: String = self.generate_ds_record(zone, ksk_public.as_str());
        proof {
            assert(ksk.pair().matched() && zsk.pair().matched());
        }
        Ok((ksk_public, zsk_public, ds_record))
    }

    /// Signs a record with a zone signing key and returns the signature as
    /// Base64 text.
    pub fn sign_record(&self, record_data: &str, zsk_key: &HybridDNSSECKey) -> (result: Result<
        String,
        DnssecError,
    >)
        ensures
            result matches Ok(text) && text@ == base64_text(
                spec_encode(
                    ed448_signature(zsk_key.pair().ed448_sk@, encode_utf8(record_data@)),
                    dilithium5_signature(zsk_key.pair().dil5_sk@, encode_utf8(record_data@)),
                ),
            ),
    {
        let signature: Vec<u8> = zsk_key.sign(record_data.as_bytes());
        Ok(base64_encode(signature.as_slice()))
    }

    /// Verifies the signature of a record, given as Base64 text, under an
    /// encoded public key.
    pub fn verify_signature(&self, record_data: &str, rrsig_b64: &str, public_key_bytes: &[u8]) -> (result:
        Result<bool, DnssecError>)
        ensures
            result == match base64_bytes(rrsig_b64@) {
                Some(signature) => spec_dnssec_verify(
                    encode_utf8(record_data@),
                    signature,
                    public_key_bytes@,
                ),
                None => Err(DnssecError::InvalidBase64),
            },
    {
        let signature: Vec<u8> = match base64_decode(rrsig_b64) {
            Some(bytes) => bytes,
            None => {
                return Err(DnssecError::InvalidBase64);
            },
        };
        hybrid_verify(record_data.as_bytes(), signature.as_slice(), public_key_bytes)
    }
}

impl Default for DNSSECManager {
    fn default() -> DNSSECManager {
        DNSSECManager::new()
    }
}

} // verus!
