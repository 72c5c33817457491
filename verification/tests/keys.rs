use base64::Engine;
use odns::crypto::{decrypt_query, encrypt_query, generate_keypair, Error};
use odns::keys::{
    choose_key_input, describe_keypair, keygen, public_key_from_base64, rotation_enabled,
    secret_key_from_base64, KeyInput, KeyLoadError, KeyStore,
};

#[test]
fn keygen_describes_a_pair() {
    let report = keygen();
    assert_eq!(report.algorithm, "Kyber-1024 / ML-KEM-1024 (FIPS 203)");
    assert_eq!(report.kdf, "HKDF-SHA3-512 (RFC 5869 + FIPS 202)");
    assert_eq!(report.symmetric, "XChaCha20-Poly1305 (extended 192-bit nonce)");
    assert_eq!(report.public_key_len, 1568);
    assert_eq!(report.secret_key_len, 3168);
    // 1568 and 3168 bytes in padded Base64.
    assert_eq!(report.public_key.len(), 2092);
    assert_eq!(report.secret_key.len(), 4224);

    let pk = public_key_from_base64(&report.public_key).unwrap();
    let sk = secret_key_from_base64(&report.secret_key).unwrap();
    let encrypted = encrypt_query(b"bootstrap", &pk).unwrap();
    assert_eq!(decrypt_query(&encrypted, &sk).unwrap(), b"bootstrap");
}

#[test]
fn described_keys_decode_to_themselves() {
    let (pk, sk) = generate_keypair();
    let report = describe_keypair(&pk, &sk);
    let b64 = base64::engine::general_purpose::STANDARD;
    assert_eq!(report.public_key, b64.encode(pk.as_bytes()));
    assert_eq!(report.secret_key, b64.encode(sk.as_bytes()));
    assert_eq!(public_key_from_base64(&report.public_key).unwrap().as_bytes(), pk.as_bytes());
    assert_eq!(secret_key_from_base64(&report.secret_key).unwrap().as_bytes(), sk.as_bytes());
}

#[test]
fn base64_text_is_the_standard_alphabet_with_padding() {
    // "AQID" is 01 02 03; a key of that size is refused for its size.
    match public_key_from_base64("AQID") {
        Err(KeyLoadError::Key(Error::InvalidPublicKey { expected, got })) => {
            assert_eq!(expected, 1568);
            assert_eq!(got, 3);
        }
        _ => panic!("three bytes were taken for a key"),
    }
    match secret_key_from_base64("AQIDBA==") {
        Err(KeyLoadError::Key(Error::InvalidSecretKey { expected, got })) => {
            assert_eq!(expected, 3168);
            assert_eq!(got, 4);
        }
        _ => panic!("four bytes were taken for a key"),
    }
    assert!(matches!(public_key_from_base64("not base64!"), Err(KeyLoadError::NotBase64)));
    assert!(matches!(secret_key_from_base64("AQIDBA"), Err(KeyLoadError::NotBase64)));
    assert!(matches!(public_key_from_base64(""), Err(KeyLoadError::Key(_))));
}

#[test]
fn key_given_inline_wins_over_file() {
    match choose_key_input(Some("abc".to_string()), Some("key.bin".to_string())) {
        Ok(KeyInput::Inline { text }) => assert_eq!(text, "abc"),
        _ => panic!("the inline key was not chosen"),
    }
    match choose_key_input(None, Some("key.bin".to_string())) {
        Ok(KeyInput::File { path }) => assert_eq!(path, "key.bin"),
        _ => panic!("the file was not chosen"),
    }
    assert!(matches!(choose_key_input(None, None), Err(KeyLoadError::Missing)));
}

#[test]
fn rotation_is_off_at_zero() {
    assert!(!rotation_enabled(0));
    assert!(rotation_enabled(1));
    assert!(rotation_enabled(86_400));
}

#[test]
fn rotation_replaces_the_key() {
    let (old_pk, old_sk) = generate_keypair();
    let old_sk_bytes = old_sk.as_bytes().to_vec();
    let under_old = encrypt_query(b"example.com A query", &old_pk).unwrap();

    let mut store = KeyStore::new(old_sk);
    assert_eq!(store.rotation_count(), 0);
    assert_eq!(store.current().as_bytes(), &old_sk_bytes[..]);
    // Before the rotation the old key decrypts.
    assert_eq!(store.decrypt(&under_old).unwrap(), b"example.com A query");

    let published = store.rotate();
    assert_eq!(store.rotation_count(), 1);
    assert_ne!(store.current().as_bytes(), &old_sk_bytes[..]);

    // A proxy that was not updated still encrypts under the old key: that fails now.
    assert_eq!(store.decrypt(&under_old), Err(Error::DecryptionFailed));
    let late = encrypt_query(b"late", &old_pk).unwrap();
    assert_eq!(store.decrypt(&late), Err(Error::DecryptionFailed));

    // The published key is the public half of the new secret key.
    let new_pk = public_key_from_base64(&published).unwrap();
    assert_eq!(new_pk.as_bytes(), &store.current().as_bytes()[1536..3104]);
    let under_new = encrypt_query(b"fresh", &new_pk).unwrap();
    assert_eq!(store.decrypt(&under_new).unwrap(), b"fresh");
}

#[test]
fn installing_a_pair_puts_its_secret_key_in_place() {
    let (old_pk, old_sk) = generate_keypair();
    let (new_pk, new_sk) = generate_keypair();
    let new_sk_bytes = new_sk.as_bytes().to_vec();
    let under_old = encrypt_query(b"old", &old_pk).unwrap();
    let under_new = encrypt_query(b"new", &new_pk).unwrap();

    let mut store = KeyStore::new(old_sk);
    // Until the new key is installed the store reads the old one.
    assert_eq!(store.decrypt(&under_old).unwrap(), b"old");
    assert!(store.decrypt(&under_new).is_err());

    let published = store.install(&new_pk, new_sk);
    assert_eq!(store.current().as_bytes(), &new_sk_bytes[..]);
    assert_eq!(store.rotation_count(), 1);
    let b64 = base64::engine::general_purpose::STANDARD;
    assert_eq!(published, b64.encode(new_pk.as_bytes()));
    assert_eq!(store.decrypt(&under_new).unwrap(), b"new");
    assert_eq!(store.decrypt(&under_old), Err(Error::DecryptionFailed));
}

#[test]
fn a_key_taken_before_rotation_still_decrypts() {
    let (pk, sk) = generate_keypair();
    let snapshot = odns::crypto::secret_key_from_bytes(sk.as_bytes()).unwrap();
    let encrypted = encrypt_query(b"in flight", &pk).unwrap();
    let mut store = KeyStore::new(sk);
    store.rotate();
    store.rotate();
    assert_eq!(store.rotation_count(), 2);
    assert_eq!(decrypt_query(&encrypted, &snapshot).unwrap(), b"in flight");
    assert!(store.decrypt(&encrypted).is_err());
}
