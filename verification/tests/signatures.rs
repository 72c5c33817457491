use odns::signatures::{
    generate_hybrid_keypair, hybrid_sign, hybrid_verify, HybridPublicKey, HybridSignature,
    SignatureError, DIL5_PK_LEN, DIL5_SIG_LEN, ED448_PK_LEN, ED448_SIG_LEN, HYBRID_PK_LEN,
    HYBRID_SIG_LEN,
};

#[test]
fn hybrid_sign_verify_roundtrip() {
    let kp = generate_hybrid_keypair();
    let msg = b"test message for hybrid signature";

    let sig = hybrid_sign(msg, &kp);
    let pk = kp.public_key().unwrap();

    assert!(hybrid_verify(msg, &sig, &pk).is_ok());
}

#[test]
fn hybrid_rejects_wrong_message() {
    let kp = generate_hybrid_keypair();
    let sig = hybrid_sign(b"original", &kp);
    let pk = kp.public_key().unwrap();

    let result = hybrid_verify(b"tampered", &sig, &pk);
    assert!(result.is_err());
}

#[test]
fn hybrid_rejects_wrong_key() {
    let kp1 = generate_hybrid_keypair();
    let kp2 = generate_hybrid_keypair();

    let sig = hybrid_sign(b"test", &kp1);
    let pk2 = kp2.public_key().unwrap();

    let result = hybrid_verify(b"test", &sig, &pk2);
    assert!(result.is_err());
}

#[test]
fn public_key_serialization_roundtrip() {
    let kp = generate_hybrid_keypair();
    let pk = kp.public_key().unwrap();

    let bytes = pk.to_bytes();
    assert_eq!(bytes.len(), HYBRID_PK_LEN);

    let pk2 = HybridPublicKey::from_bytes(&bytes).unwrap();
    assert_eq!(pk.ed448_vk, pk2.ed448_vk);
    assert_eq!(pk.dil5_pk, pk2.dil5_pk);
}

#[test]
fn signature_serialization_roundtrip() {
    let kp = generate_hybrid_keypair();
    let msg = b"serialize this signature";
    let sig = hybrid_sign(msg, &kp);

    let bytes = sig.to_bytes();
    assert_eq!(bytes.len(), HYBRID_SIG_LEN);

    let sig2 = HybridSignature::from_bytes(&bytes).unwrap();
    let pk = kp.public_key().unwrap();
    assert!(hybrid_verify(msg, &sig2, &pk).is_ok());
}

#[test]
fn hybrid_sizes_are_fixed() {
    assert_eq!(ED448_PK_LEN, 57);
    assert_eq!(ED448_SIG_LEN, 114);
    assert_eq!(DIL5_PK_LEN, 2592);
    assert_eq!(DIL5_SIG_LEN, 4627);
    assert_eq!(HYBRID_PK_LEN, 2649);
    assert_eq!(HYBRID_SIG_LEN, 4741);
    let kp = generate_hybrid_keypair();
    assert_eq!(kp.ed448_sk.len(), 57);
    assert_eq!(kp.ed448_vk.len(), 57);
    assert_eq!(kp.dil5_pk.len(), 2592);
    assert_eq!(kp.dil5_sk.len(), 4896);
    let sig = hybrid_sign(b"m", &kp);
    assert_eq!(sig.ed448_sig.len(), 114);
    assert_eq!(sig.dil5_sig.len(), 4627);
}

#[test]
fn encoding_is_the_two_halves_in_order() {
    let kp = generate_hybrid_keypair();
    let pk = kp.public_key().unwrap();
    let bytes = pk.to_bytes();
    assert_eq!(&bytes[..57], &pk.ed448_vk[..]);
    assert_eq!(&bytes[57..], &pk.dil5_pk[..]);
    let sig = hybrid_sign(b"layout", &kp);
    let bytes = sig.to_bytes();
    assert_eq!(&bytes[..114], &sig.ed448_sig[..]);
    assert_eq!(&bytes[114..], &sig.dil5_sig[..]);
    let back = HybridSignature::from_bytes(&bytes).unwrap();
    assert_eq!(back.ed448_sig, sig.ed448_sig);
    assert_eq!(back.dil5_sig, sig.dil5_sig);
    assert_eq!(back.to_bytes(), bytes);
}

#[test]
fn wrong_length_public_key_is_a_length_mismatch() {
    for len in [0usize, 57, 2648, 2650, 4741] {
        match HybridPublicKey::from_bytes(&vec![1u8; len]) {
            Err(SignatureError::InvalidPublicKey { expected, got }) => {
                assert_eq!(expected, 2649);
                assert_eq!(got, len);
            }
            _ => panic!("length {} was not refused for its length", len),
        }
    }
}

#[test]
fn wrong_length_signature_is_a_length_mismatch() {
    for len in [0usize, 114, 4740, 4742, 2649] {
        match HybridSignature::from_bytes(&vec![1u8; len]) {
            Err(SignatureError::InvalidSignature { expected, got }) => {
                assert_eq!(expected, 4741);
                assert_eq!(got, len);
            }
            _ => panic!("length {} was not refused for its length", len),
        }
    }
}

#[test]
fn undecodable_ed448_halves_are_told_apart() {
    // An all-ones point encoding is not on the curve.
    let bytes = vec![0xffu8; 2649];
    assert!(matches!(HybridPublicKey::from_bytes(&bytes), Err(SignatureError::InvalidEd448Key)));
    let bytes = vec![0xffu8; 4741];
    assert!(matches!(
        HybridSignature::from_bytes(&bytes),
        Err(SignatureError::InvalidEd448Signature)
    ));
}

#[test]
fn ed448_failure_is_reported_before_dilithium() {
    let kp = generate_hybrid_keypair();
    let pk = kp.public_key().unwrap();
    let good = hybrid_sign(b"message", &kp);

    // Both halves wrong: Ed448 is the one reported.
    assert_eq!(hybrid_verify(b"other", &good, &pk), Err(SignatureError::Ed448VerifyFailed));

    // Only the Dilithium5 half wrong.
    let other = hybrid_sign(b"other", &kp);
    let mixed = HybridSignature { ed448_sig: good.ed448_sig.clone(), dil5_sig: other.dil5_sig };
    assert_eq!(
        hybrid_verify(b"message", &mixed, &pk),
        Err(SignatureError::Dilithium5VerifyFailed)
    );

    // Only the Ed448 half wrong.
    let other = hybrid_sign(b"other", &kp);
    let mixed = HybridSignature { ed448_sig: other.ed448_sig, dil5_sig: good.dil5_sig.clone() };
    assert_eq!(hybrid_verify(b"message", &mixed, &pk), Err(SignatureError::Ed448VerifyFailed));
}

#[test]
fn neither_half_alone_carries_the_hybrid() {
    let kp1 = generate_hybrid_keypair();
    let kp2 = generate_hybrid_keypair();
    let pk1 = kp1.public_key().unwrap();
    let sig1 = hybrid_sign(b"m", &kp1);
    let sig2 = hybrid_sign(b"m", &kp2);
    let forged = HybridSignature { ed448_sig: sig1.ed448_sig.clone(), dil5_sig: sig2.dil5_sig };
    assert!(hybrid_verify(b"m", &forged, &pk1).is_err());
    let forged = HybridSignature { ed448_sig: sig2.ed448_sig, dil5_sig: sig1.dil5_sig.clone() };
    assert!(hybrid_verify(b"m", &forged, &pk1).is_err());
    assert!(hybrid_verify(b"m", &sig1, &pk1).is_ok());
}

#[test]
fn malformed_keys_never_verify() {
    let kp = generate_hybrid_keypair();
    let sig = hybrid_sign(b"m", &kp);
    let pk = HybridPublicKey { ed448_vk: vec![], dil5_pk: kp.dil5_pk.clone() };
    assert_eq!(hybrid_verify(b"m", &sig, &pk), Err(SignatureError::Ed448VerifyFailed));
    let pk = HybridPublicKey { ed448_vk: kp.ed448_vk.clone(), dil5_pk: vec![0u8; 10] };
    assert_eq!(hybrid_verify(b"m", &sig, &pk), Err(SignatureError::Dilithium5VerifyFailed));
}

#[test]
fn public_key_of_a_damaged_pair_is_refused() {
    let mut kp = generate_hybrid_keypair();
    kp.dil5_pk.pop();
    assert!(matches!(kp.public_key(), Err(SignatureError::InvalidDilithiumKey)));
    let mut kp = generate_hybrid_keypair();
    kp.ed448_vk = vec![0xffu8; 57];
    assert!(matches!(kp.public_key(), Err(SignatureError::InvalidEd448Key)));
}

#[test]
fn signing_is_deterministic() {
    let kp = generate_hybrid_keypair();
    let a = hybrid_sign(b"same message", &kp);
    let b = hybrid_sign(b"same message", &kp);
    assert_eq!(a.ed448_sig, b.ed448_sig);
    assert_eq!(a.dil5_sig, b.dil5_sig);
    let c = hybrid_sign(b"another message", &kp);
    assert_ne!(a.ed448_sig, c.ed448_sig);
    assert_ne!(a.dil5_sig, c.dil5_sig);
}

#[test]
fn empty_message_roundtrips() {
    let kp = generate_hybrid_keypair();
    let sig = hybrid_sign(b"", &kp);
    assert!(hybrid_verify(b"", &sig, &kp.public_key().unwrap()).is_ok());
}

#[test]
fn ed448_public_key_is_derived_from_the_secret_key() {
    let kp = generate_hybrid_keypair();
    let signing_key = ed448_goldilocks_plus::SigningKey::try_from(&kp.ed448_sk[..]).unwrap();
    assert_eq!(kp.ed448_vk, signing_key.verifying_key().to_bytes().to_vec());
    let sig = hybrid_sign(b"message", &kp);
    assert_eq!(sig.ed448_sig, signing_key.sign_raw(b"message").to_bytes().to_vec());
}
