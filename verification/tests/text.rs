use textcrypt::cli::TextSignFormat;
use textcrypt::error::Error;
use textcrypt::text::{
    process_text_decypt, process_text_encypt, process_text_key_generate, process_text_sign,
    process_text_verify, Blake3, Ed25519Signer, Ed25519Verifier, EncryXChaCha20Poly1305,
    Encryptor, TextSigner, TextVerifier,
};

const ZERO_KEY: [u8; 32] = [0u8; 32];

#[test]
fn test_encrypt_decrypt() {
    let key: &[u8] = &[1];
    let cipher = EncryXChaCha20Poly1305::try_new().unwrap();

    let en_data = match cipher.encrypt(key) {
        Ok(data) => data,
        Err(err) => panic!("CryptoError: {:?}", err),
    };
    let ret = match cipher.decrypt(&en_data) {
        Ok(edata) => edata,
        Err(err) => panic!("DecryptError: {:?}", err),
    };
    println!("descrypt-result: {}", String::from_utf8_lossy(&ret));
    assert_eq!(ret, vec![1u8]);
}

#[test]
fn test_blake3_sign_roundtrip() {
    let data = b"hello".as_slice();
    let sig = process_text_sign(data, &ZERO_KEY, TextSignFormat::Blake3).unwrap();
    assert_eq!(sig.len(), 32);
    let ok = process_text_verify(data, &ZERO_KEY, &sig, TextSignFormat::Blake3).unwrap();
    assert!(ok);
}

#[test]
fn test_ed25519_sign_roundtrip() {
    let bundle = process_text_key_generate(TextSignFormat::Ed25519).unwrap();
    let sk = &bundle[0].1;
    let pk = &bundle[1].1;
    let data = b"hello".as_slice();
    let sig = process_text_sign(data, sk, TextSignFormat::Ed25519).unwrap();
    assert_eq!(sig.len(), 64);
    let ok = process_text_verify(data, pk, &sig, TextSignFormat::Ed25519).unwrap();
    assert!(ok);
}

#[test]
fn test_blake3_rejects_mutation() {
    let data = b"hello".to_vec();
    let sig = process_text_sign(&data, &ZERO_KEY, TextSignFormat::Blake3).unwrap();

    // one bit of the message flipped
    let mut mutated = data.clone();
    mutated[0] ^= 0x01;
    assert!(!process_text_verify(&mutated, &ZERO_KEY, &sig, TextSignFormat::Blake3).unwrap());

    // one bit of the signature flipped
    let mut bad_sig = sig.clone();
    bad_sig[31] ^= 0x80;
    assert!(!process_text_verify(&data, &ZERO_KEY, &bad_sig, TextSignFormat::Blake3).unwrap());
}

#[test]
fn test_ed25519_rejects_mutation() {
    let bundle = process_text_key_generate(TextSignFormat::Ed25519).unwrap();
    let sk = &bundle[0].1;
    let pk = &bundle[1].1;
    let data = b"hello".to_vec();
    let sig = process_text_sign(&data, sk, TextSignFormat::Ed25519).unwrap();

    let mut mutated = data.clone();
    mutated[4] ^= 0x04;
    assert!(!process_text_verify(&mutated, pk, &sig, TextSignFormat::Ed25519).unwrap());

    let mut bad_sig = sig.clone();
    bad_sig[0] ^= 0x01;
    assert!(!process_text_verify(&data, pk, &bad_sig, TextSignFormat::Ed25519).unwrap());
}

#[test]
fn test_short_key_errors() {
    let short = [7u8; 31];
    let data = b"hello".as_slice();
    let sig32 = [0u8; 32];
    let sig64 = [0u8; 64];

    assert_eq!(
        process_text_sign(data, &short, TextSignFormat::Blake3).unwrap_err(),
        Error::KeyFormat
    );
    assert_eq!(
        process_text_sign(data, &short, TextSignFormat::Ed25519).unwrap_err(),
        Error::KeyFormat
    );
    assert_eq!(
        process_text_verify(data, &short, &sig32, TextSignFormat::Blake3).unwrap_err(),
        Error::KeyFormat
    );
    assert_eq!(
        process_text_verify(data, &short, &sig64, TextSignFormat::Ed25519).unwrap_err(),
        Error::KeyFormat
    );
}

#[test]
fn test_invalid_ed25519_key_errors() {
    // 32 bytes that do not decompress to a curve point (y = 2 is not on the curve)
    let mut bad_pk = [0u8; 32];
    bad_pk[0] = 2;
    let data = b"hello".as_slice();
    let sig64 = [0u8; 64];
    assert_eq!(
        process_text_verify(data, &bad_pk, &sig64, TextSignFormat::Ed25519).unwrap_err(),
        Error::KeyFormat
    );
}

#[test]
fn test_sig_length_errors() {
    let data = b"hello".as_slice();
    for wrong in [0usize, 31, 33, 63] {
        let sig = vec![0u8; wrong];
        if wrong != 32 {
            assert_eq!(
                process_text_verify(data, &ZERO_KEY, &sig, TextSignFormat::Blake3).unwrap_err(),
                Error::SignatureFormat
            );
        }
    }
    let bundle = process_text_key_generate(TextSignFormat::Ed25519).unwrap();
    let pk = &bundle[1].1;
    for wrong in [0usize, 32, 63, 65] {
        let sig = vec![0u8; wrong];
        assert_eq!(
            process_text_verify(data, pk, &sig, TextSignFormat::Ed25519).unwrap_err(),
            Error::SignatureFormat
        );
    }
}

#[test]
fn test_key_generate_blake3() {
    let bundle = process_text_key_generate(TextSignFormat::Blake3).unwrap();
    assert_eq!(bundle.len(), 1);
    assert_eq!(bundle[0].0, "blake3.txt");
    assert_eq!(bundle[0].1.len(), 32);
    // printable key material, with every character class taking part
    let key = &bundle[0].1;
    for &b in key {
        let c = b as char;
        assert!(
            c.is_ascii_uppercase()
                || c.is_ascii_lowercase()
                || c.is_ascii_digit()
                || "!@#$%^&*_".contains(c),
            "unexpected key byte {}",
            b
        );
    }
    assert!(key.iter().any(|&b| (b as char).is_ascii_uppercase()));
    assert!(key.iter().any(|&b| (b as char).is_ascii_lowercase()));
    assert!(key.iter().any(|&b| (b as char).is_ascii_digit()));
    assert!(key.iter().any(|&b| "!@#$%^&*_".contains(b as char)));
}

#[test]
fn test_key_generate_ed25519() {
    let bundle = process_text_key_generate(TextSignFormat::Ed25519).unwrap();
    assert_eq!(bundle.len(), 2);
    assert_eq!(bundle[0].0, "ed25519.sk");
    assert_eq!(bundle[0].1.len(), 32);
    assert_eq!(bundle[1].0, "ed25519.pk");
    assert_eq!(bundle[1].1.len(), 32);
}

#[test]
fn test_generated_blake3_key_signs() {
    let bundle = process_text_key_generate(TextSignFormat::Blake3).unwrap();
    let key = &bundle[0].1;
    let data = b"some payload".as_slice();
    let sig = process_text_sign(data, key, TextSignFormat::Blake3).unwrap();
    assert!(process_text_verify(data, key, &sig, TextSignFormat::Blake3).unwrap());
}

#[test]
fn test_aead_roundtrip() {
    let cipher = EncryXChaCha20Poly1305::try_new().unwrap();
    for pt in [b"".to_vec(), b"hello world".to_vec(), vec![0xabu8; 1000]] {
        let ct = cipher.encrypt(&pt).unwrap();
        assert_eq!(ct.len(), pt.len() + 28);
        let back = cipher.decrypt(&ct).unwrap();
        assert_eq!(back, pt);
    }
}

#[test]
fn test_aead_tamper_detected() {
    let cipher = EncryXChaCha20Poly1305::try_new().unwrap();
    let ct = cipher.encrypt(b"attack at dawn").unwrap();

    let mut tampered = ct.clone();
    let last = tampered.len() - 1;
    tampered[last] ^= 0x01;
    assert_eq!(cipher.decrypt(&tampered).unwrap_err(), Error::Crypto);

    // too short to even hold the nonce
    assert_eq!(cipher.decrypt(&ct[0..5]).unwrap_err(), Error::Crypto);

    // a different instance holds a different key
    let other = EncryXChaCha20Poly1305::try_new().unwrap();
    assert_eq!(other.decrypt(&ct).unwrap_err(), Error::Crypto);
}

#[test]
fn test_process_encypt_fresh_key() {
    let data = b"hello".as_slice();
    let ct = process_text_encypt(data).unwrap();
    assert_eq!(ct.len(), data.len() + 28);
    // nothing holds the key that sealed it, so opening fails
    assert_eq!(process_text_decypt(&ct).unwrap_err(), Error::Crypto);
    assert_eq!(process_text_decypt(&ct[0..4]).unwrap_err(), Error::Crypto);
}

#[test]
fn test_blake3_hello_scenario() {
    let data = b"hello".as_slice();
    let sig1 = process_text_sign(data, &ZERO_KEY, TextSignFormat::Blake3).unwrap();
    let sig2 = process_text_sign(data, &ZERO_KEY, TextSignFormat::Blake3).unwrap();
    assert_eq!(sig1, sig2);
    assert_eq!(sig1.len(), 32);

    let other = b"hellp".as_slice();
    let sig3 = process_text_sign(other, &ZERO_KEY, TextSignFormat::Blake3).unwrap();
    assert_eq!(sig3.len(), 32);
    assert_ne!(sig1, sig3);
    assert!(!process_text_verify(other, &ZERO_KEY, &sig1, TextSignFormat::Blake3).unwrap());
}

#[test]
fn test_blake3_digest_differs_from_input() {
    // the wrapper must hash, not hand its input back
    let data = ZERO_KEY.to_vec();
    let sig = process_text_sign(&data, &ZERO_KEY, TextSignFormat::Blake3).unwrap();
    assert_ne!(sig, data);
}

#[test]
fn test_key_truncation_to_32_bytes() {
    // a longer key is truncated to its first 32 bytes
    let mut long_key = ZERO_KEY.to_vec();
    long_key.extend_from_slice(b"trailing bytes that do not count");
    let data = b"hello".as_slice();
    let sig_long = process_text_sign(data, &long_key, TextSignFormat::Blake3).unwrap();
    let sig_exact = process_text_sign(data, &ZERO_KEY, TextSignFormat::Blake3).unwrap();
    assert_eq!(sig_long, sig_exact);
}

#[test]
fn test_scheme_types_directly() {
    let signer = Blake3::new(ZERO_KEY);
    let sig = signer.sign(b"hello");
    let verifier = Blake3::try_new(&ZERO_KEY).unwrap();
    assert!(verifier.verify(b"hello", &sig).unwrap());

    let seed = [9u8; 32];
    let ed_signer = Ed25519Signer::new(&seed);
    let ed_sig = ed_signer.sign(b"hello");
    assert_eq!(ed_sig.len(), 64);
    let bundle = Ed25519Signer::generate().unwrap();
    let ed_verifier = Ed25519Verifier::try_new(&bundle[1].1).unwrap();
    assert!(!ed_verifier.verify(b"hello", &ed_sig).unwrap());
}
