use rsa::pkcs1::EncodeRsaPublicKey;
use rsa::pkcs8::EncodePrivateKey;
use speem::crypto::Crypto;
use speem::errors::AppError;

#[test]
fn round_trip_empty_message() {
    let key = Crypto::generate_symmetric_key().unwrap();
    let (envelope, _nonce) = Crypto::encrypt_message(b"", &key).unwrap();
    assert_eq!(envelope.len(), 28);
    let decrypted = Crypto::decrypt_message(&envelope, &key).unwrap();
    assert_eq!(decrypted, Vec::<u8>::new());
}

#[test]
fn round_trip_short_message() {
    let key = Crypto::generate_symmetric_key().unwrap();
    let message = b"attack at dawn";
    let (envelope, nonce) = Crypto::encrypt_message(message, &key).unwrap();
    assert_eq!(nonce.len(), 12);
    assert_eq!(envelope.len(), message.len() + 28);
    assert_eq!(&envelope[..12], nonce.as_slice());
    let decrypted = Crypto::decrypt_message(&envelope, &key).unwrap();
    assert_eq!(decrypted, message.to_vec());
}

#[test]
fn round_trip_multi_kilobyte_message() {
    let key = Crypto::generate_symmetric_key().unwrap();
    let message: Vec<u8> = (0..4096u32).map(|i| (i % 251) as u8).collect();
    let (envelope, _nonce) = Crypto::encrypt_message(&message, &key).unwrap();
    let decrypted = Crypto::decrypt_message(&envelope, &key).unwrap();
    assert_eq!(decrypted, message);
}

#[test]
fn tamper_detection_every_bit() {
    let key = Crypto::generate_symmetric_key().unwrap();
    let message = b"hello";
    let (envelope, _nonce) = Crypto::encrypt_message(message, &key).unwrap();
    // Flip every single bit of the envelope in turn: nonce, body and tag.
    for byte in 0..envelope.len() {
        for bit in 0..8 {
            let mut tampered = envelope.clone();
            tampered[byte] ^= 1 << bit;
            match Crypto::decrypt_message(&tampered, &key) {
                Err(AppError::CryptoError) => {}
                other => panic!(
                    "bit {} of byte {} flipped, expected CryptoError, got {:?}",
                    bit, byte, other
                ),
            }
        }
    }
}

#[test]
fn decrypt_rejects_truncated_envelope() {
    let key = Crypto::generate_symmetric_key().unwrap();
    let (envelope, _nonce) = Crypto::encrypt_message(b"hello", &key).unwrap();
    // Anything shorter than nonce plus tag is rejected outright.
    for len in 0..28 {
        let short = &envelope[..len];
        assert_eq!(Crypto::decrypt_message(short, &key), Err(AppError::CryptoError));
    }
}

#[test]
fn decrypt_rejects_bad_key_length() {
    let (envelope, _nonce) = Crypto::encrypt_message(
        b"hello",
        &Crypto::generate_symmetric_key().unwrap(),
    )
    .unwrap();
    assert_eq!(
        Crypto::decrypt_message(&envelope, &[0u8; 16]),
        Err(AppError::CryptoError)
    );
    assert_eq!(
        Crypto::encrypt_message(b"hello", &[0u8; 16]),
        Err(AppError::CryptoError)
    );
}

#[test]
fn scenario_decrypt_with_wrong_key_fails() {
    let key = Crypto::generate_symmetric_key().unwrap();
    let (envelope, _nonce) = Crypto::encrypt_message(b"hello", &key).unwrap();
    let decrypted = Crypto::decrypt_message(&envelope, &key).unwrap();
    assert_eq!(decrypted, b"hello".to_vec());

    let other_key = Crypto::generate_symmetric_key().unwrap();
    assert_ne!(key, other_key);
    assert_eq!(
        Crypto::decrypt_message(&envelope, &other_key),
        Err(AppError::CryptoError)
    );
}

#[test]
fn scenario_wrap_all_zero_key() {
    let mut rng = rand::thread_rng();
    let private_key = rsa::RsaPrivateKey::new(&mut rng, 1024).unwrap();
    let public_key = rsa::RsaPublicKey::from(&private_key);
    let private_der = private_key.to_pkcs8_der().unwrap();
    let public_der = public_key.to_pkcs1_der().unwrap();

    let zero_key = [0u8; 32];
    let wrapped = Crypto::encrypt_symmetric_key(&zero_key, public_der.as_bytes()).unwrap();
    // A 1024-bit modulus produces a 128-byte RSA ciphertext.
    assert_eq!(wrapped.len(), 128);
    let unwrapped = Crypto::decrypt_symmetric_key(&wrapped, private_der.as_bytes()).unwrap();
    assert_eq!(unwrapped, zero_key.to_vec());

    // Unwrapping under an unrelated private key must fail, not hand back bytes.
    let unrelated = rsa::RsaPrivateKey::new(&mut rng, 1024).unwrap();
    let unrelated_der = unrelated.to_pkcs8_der().unwrap();
    assert_eq!(
        Crypto::decrypt_symmetric_key(&wrapped, unrelated_der.as_bytes()),
        Err(AppError::CryptoError)
    );
}

#[test]
fn wrap_succeeds_up_to_modulus_minus_padding() {
    // PKCS#1 v1.5 accepts payloads up to the modulus length minus 11 bytes:
    // 117 for a 1024-bit key. One byte more is rejected.
    let mut rng = rand::thread_rng();
    let private_key = rsa::RsaPrivateKey::new(&mut rng, 1024).unwrap();
    let public_key = rsa::RsaPublicKey::from(&private_key);
    let public_der = public_key.to_pkcs1_der().unwrap();

    let fitting = [0x5au8; 117];
    let wrapped = Crypto::encrypt_symmetric_key(&fitting, public_der.as_bytes()).unwrap();
    assert_eq!(wrapped.len(), 128);

    let too_large = [0x5au8; 118];
    assert_eq!(
        Crypto::encrypt_symmetric_key(&too_large, public_der.as_bytes()),
        Err(AppError::CryptoError)
    );
}

#[test]
fn wrap_rejects_malformed_public_key() {
    let key = [7u8; 32];
    assert_eq!(
        Crypto::encrypt_symmetric_key(&key, b"not a DER public key"),
        Err(AppError::CryptoError)
    );
}

#[test]
fn unwrap_rejects_malformed_private_key() {
    assert_eq!(
        Crypto::decrypt_symmetric_key(&[1u8; 128], b"not a DER private key"),
        Err(AppError::CryptoError)
    );
}

#[test]
fn mnemonic_generate_then_recover() {
    let (phrase, derived_key) = Crypto::generate_mnemonic().unwrap();
    // 16 bytes of entropy encode as 12 words.
    assert_eq!(phrase.split_whitespace().count(), 12);
    // The derived key is the hex of 32 bytes.
    assert_eq!(derived_key.len(), 64);
    assert!(derived_key.bytes().all(|b| b.is_ascii_hexdigit()));
    // The phrase is not the key: recovery goes through the wordlist.
    assert_ne!(phrase, derived_key);
    // Re-deriving from the phrase gives exactly the generated key.
    assert_eq!(Crypto::mnemonic_to_key(&phrase).unwrap(), derived_key);
}

#[test]
fn mnemonic_determinism() {
    let (phrase, _) = Crypto::generate_mnemonic().unwrap();
    let k1 = Crypto::mnemonic_to_key(&phrase).unwrap();
    let k2 = Crypto::mnemonic_to_key(&phrase).unwrap();
    assert_eq!(k1, k2);
}

#[test]
fn mnemonic_invalid_phrases_fail() {
    // A word that is in no wordlist.
    assert_eq!(
        Crypto::mnemonic_to_key(
            "notaword abandon abandon abandon abandon abandon abandon abandon abandon abandon abandon about"
        ),
        Err(AppError::CryptoError)
    );
    // A wrong word count.
    assert_eq!(
        Crypto::mnemonic_to_key("abandon abandon abandon"),
        Err(AppError::CryptoError)
    );
    // Twelve valid words whose checksum does not verify.
    assert_eq!(
        Crypto::mnemonic_to_key(
            "abandon abandon abandon abandon abandon abandon abandon abandon abandon abandon abandon abandon"
        ),
        Err(AppError::CryptoError)
    );
}

#[test]
fn mnemonic_altered_word_changes_or_rejects() {
    // Altering a word of a valid phrase either fails the checksum or, where
    // the altered phrase happens to be valid too, derives a different key.
    let (phrase, derived_key) = Crypto::generate_mnemonic().unwrap();
    let words: Vec<&str> = phrase.split_whitespace().collect();
    let replacement = if words[0] == "abandon" { "ability" } else { "abandon" };
    let mut altered_words = words.clone();
    altered_words[0] = replacement;
    let altered = altered_words.join(" ");
    match Crypto::mnemonic_to_key(&altered) {
        Err(AppError::CryptoError) => {}
        Ok(other_key) => assert_ne!(other_key, derived_key),
        Err(e) => panic!("unexpected error {:?}", e),
    }
}

#[test]
fn mnemonic_uniqueness() {
    // Distinctness over several independent generations: with 128 bits of
    // entropy a collision among a handful of phrases is negligible.
    let mut phrases = Vec::new();
    for _ in 0..8 {
        let (phrase, _) = Crypto::generate_mnemonic().unwrap();
        phrases.push(phrase);
    }
    for i in 0..phrases.len() {
        for j in (i + 1)..phrases.len() {
            assert_ne!(phrases[i], phrases[j]);
        }
    }
}

#[test]
fn symmetric_keys_are_distinct() {
    let k1 = Crypto::generate_symmetric_key().unwrap();
    let k2 = Crypto::generate_symmetric_key().unwrap();
    assert_eq!(k1.len(), 32);
    assert_eq!(k2.len(), 32);
    assert_ne!(k1, k2);
}

#[test]
fn encrypting_twice_differs() {
    // Fresh nonces make the same (key, plaintext) pair seal differently.
    let key = Crypto::generate_symmetric_key().unwrap();
    let (e1, n1) = Crypto::encrypt_message(b"same message", &key).unwrap();
    let (e2, n2) = Crypto::encrypt_message(b"same message", &key).unwrap();
    assert_ne!(n1, n2);
    assert_ne!(e1, e2);
}
