use odns::crypto::{
    decrypt_query, derive_symmetric_key, encrypt_query, generate_keypair, public_key_from_bytes,
    seal_query, secret_key_from_bytes, Error, HKDF_INFO, KEM_CT_LEN, NONCE_LEN, OVERHEAD, TAG_LEN,
};

#[test]
fn encrypt_decrypt_roundtrip() {
    let (pk, sk) = generate_keypair();
    let plaintext = b"example.com A query";

    let encrypted = encrypt_query(plaintext, &pk).unwrap();
    assert!(encrypted.len() >= OVERHEAD);

    let decrypted = decrypt_query(&encrypted, &sk).unwrap();
    assert_eq!(decrypted, plaintext);
}

#[test]
fn decrypt_wrong_key_fails() {
    let (pk, _sk) = generate_keypair();
    let (_pk2, sk2) = generate_keypair();

    let encrypted = encrypt_query(b"secret query", &pk).unwrap();
    let result = decrypt_query(&encrypted, &sk2);
    assert!(result.is_err());
}

#[test]
fn decrypt_truncated_fails() {
    let result = decrypt_query(&[0u8; 10], &generate_keypair().1);
    assert!(matches!(result, Err(Error::MessageTooShort { .. })));
}

#[test]
fn key_serialization_roundtrip() {
    let (pk, sk) = generate_keypair();

    let pk2 = public_key_from_bytes(pk.as_bytes()).unwrap();
    let sk2 = secret_key_from_bytes(sk.as_bytes()).unwrap();

    let encrypted = encrypt_query(b"test", &pk2).unwrap();
    let decrypted = decrypt_query(&encrypted, &sk2).unwrap();
    assert_eq!(decrypted, b"test");
}

#[test]
fn overhead_is_ciphertext_nonce_and_tag() {
    assert_eq!(KEM_CT_LEN, 1568);
    assert_eq!(NONCE_LEN, 24);
    assert_eq!(TAG_LEN, 16);
    assert_eq!(OVERHEAD, 1608);
}

#[test]
fn hkdf_label_is_the_protocol_name() {
    assert_eq!(&HKDF_INFO[..], b"odns-kyber1024-xchacha20-v1");
}

#[test]
fn key_sizes_are_fixed() {
    let (pk, sk) = generate_keypair();
    assert_eq!(pk.as_bytes().len(), 1568);
    assert_eq!(sk.as_bytes().len(), 3168);
}

#[test]
fn secret_key_carries_its_public_key() {
    let (pk, sk) = generate_keypair();
    assert_eq!(&sk.as_bytes()[1536..3104], pk.as_bytes());
}

#[test]
fn encrypted_length_is_query_plus_overhead() {
    let (pk, _sk) = generate_keypair();
    for len in [0usize, 1, 19, 512, 4096] {
        let query = vec![0xabu8; len];
        let encrypted = encrypt_query(&query, &pk).unwrap();
        assert_eq!(encrypted.len(), len + 1608);
    }
}

#[test]
fn empty_query_roundtrips() {
    let (pk, sk) = generate_keypair();
    let encrypted = encrypt_query(b"", &pk).unwrap();
    assert_eq!(encrypted.len(), OVERHEAD);
    assert_eq!(decrypt_query(&encrypted, &sk).unwrap(), b"");
}

#[test]
fn every_length_below_overhead_is_too_short() {
    let (_pk, sk) = generate_keypair();
    for len in [0usize, 1, 10, 1567, 1568, 1592, 1607] {
        let blob = vec![0x5au8; len];
        match decrypt_query(&blob, &sk) {
            Err(Error::MessageTooShort { min, got }) => {
                assert_eq!(min, 1608);
                assert_eq!(got, len);
            }
            other => panic!("length {} gave {:?}", len, other),
        }
    }
}

#[test]
fn garbage_of_full_length_fails_authentication() {
    let (_pk, sk) = generate_keypair();
    let blob = vec![0u8; 1608];
    assert_eq!(decrypt_query(&blob, &sk), Err(Error::DecryptionFailed));
    let blob = vec![0x11u8; 2000];
    assert_eq!(decrypt_query(&blob, &sk), Err(Error::DecryptionFailed));
}

#[test]
fn tampering_is_detected_in_every_region() {
    let (pk, sk) = generate_keypair();
    let encrypted = encrypt_query(b"example.com A query", &pk).unwrap();
    for index in [0usize, 1567, 1568, 1591, 1592, encrypted.len() - 1] {
        let mut damaged = encrypted.clone();
        damaged[index] ^= 0x01;
        assert_eq!(decrypt_query(&damaged, &sk), Err(Error::DecryptionFailed));
    }
}

#[test]
fn public_key_of_wrong_size_is_refused() {
    for len in [0usize, 1567, 1569, 3168] {
        let bytes = vec![0u8; len];
        match public_key_from_bytes(&bytes) {
            Err(Error::InvalidPublicKey { expected, got }) => {
                assert_eq!(expected, 1568);
                assert_eq!(got, len);
            }
            _ => panic!("length {} was accepted", len),
        }
    }
}

#[test]
fn secret_key_of_wrong_size_is_refused() {
    for len in [0usize, 1568, 3167, 3169] {
        let bytes = vec![0u8; len];
        match secret_key_from_bytes(&bytes) {
            Err(Error::InvalidSecretKey { expected, got }) => {
                assert_eq!(expected, 3168);
                assert_eq!(got, len);
            }
            _ => panic!("length {} was accepted", len),
        }
    }
}

#[test]
fn decoded_keys_keep_their_bytes() {
    let (pk, sk) = generate_keypair();
    assert_eq!(public_key_from_bytes(pk.as_bytes()).unwrap().as_bytes(), pk.as_bytes());
    assert_eq!(secret_key_from_bytes(sk.as_bytes()).unwrap().as_bytes(), sk.as_bytes());
}

#[test]
fn derived_key_matches_rfc_5869_over_sha3_512() {
    // HKDF-SHA3-512 of 32 zero bytes, no salt, with the protocol label.
    let key = derive_symmetric_key(&[0u8; 32]).unwrap();
    assert_eq!(key.len(), 32);
    let mut expected = [0u8; 32];
    hkdf::Hkdf::<sha3::Sha3_512>::new(None, &[0u8; 32])
        .expand(b"odns-kyber1024-xchacha20-v1", &mut expected)
        .unwrap();
    assert_eq!(key, expected.to_vec());
    let again = derive_symmetric_key(&[0u8; 32]).unwrap();
    assert_eq!(key, again);
    let other = derive_symmetric_key(&[1u8; 32]).unwrap();
    assert_ne!(key, other);
    assert_ne!(key, vec![0u8; 32]);
}

#[test]
fn sealing_uses_the_derived_key() {
    let shared_secret = [9u8; 32];
    let nonce = [3u8; 24];
    let wire = seal_query(b"query", &shared_secret, &vec![0u8; 1568], &nonce).unwrap();
    let key = derive_symmetric_key(&shared_secret).unwrap();
    let cipher = <chacha20poly1305::XChaCha20Poly1305 as chacha20poly1305::KeyInit>::new(
        chacha20poly1305::Key::from_slice(&key),
    );
    let opened = chacha20poly1305::aead::Aead::decrypt(
        &cipher,
        chacha20poly1305::XNonce::from_slice(&nonce),
        &wire[1592..],
    )
    .unwrap();
    assert_eq!(opened, b"query");
}

#[test]
fn sealing_lays_out_ciphertext_nonce_and_aead_output() {
    let shared_secret = [7u8; 32];
    let kem_ciphertext = vec![0xc7u8; 1568];
    let nonce = [0x24u8; 24];
    let query = b"example.com A query";
    let wire = seal_query(query, &shared_secret, &kem_ciphertext, &nonce).unwrap();
    assert_eq!(wire.len(), query.len() + 1608);
    assert_eq!(&wire[..1568], &kem_ciphertext[..]);
    assert_eq!(&wire[1568..1592], &nonce[..]);
    assert_ne!(&wire[1592..1592 + query.len()], &query[..]);
    // The same inputs seal to the same bytes.
    assert_eq!(wire, seal_query(query, &shared_secret, &kem_ciphertext, &nonce).unwrap());
    // Another nonce seals differently.
    let other = seal_query(query, &shared_secret, &kem_ciphertext, &[0x25u8; 24]).unwrap();
    assert_ne!(wire[1592..], other[1592..]);
}

#[test]
fn two_encryptions_of_one_query_differ() {
    let (pk, sk) = generate_keypair();
    let a = encrypt_query(b"same", &pk).unwrap();
    let b = encrypt_query(b"same", &pk).unwrap();
    assert_ne!(a, b);
    assert_eq!(decrypt_query(&a, &sk).unwrap(), b"same");
    assert_eq!(decrypt_query(&b, &sk).unwrap(), b"same");
}

#[test]
fn end_to_end_through_the_wire_format() {
    let (pk, sk) = generate_keypair();
    let query = b"example.com A query";
    let blob = encrypt_query(query, &pk).unwrap();
    assert!(blob.len() >= 1608);
    let on_the_wire = blob.clone();
    let recovered = decrypt_query(&on_the_wire, &sk).unwrap();
    assert_eq!(&recovered[..], &query[..]);
}
