use rstool::auth::{sign, verify, TextSignFormat};
use rstool::codec::{decode, encode, Base64Format};
use rstool::error::ToolError;
use rstool::keys::{generate, sign_with_key, verify_with_key, KeyMaterial};

#[test]
fn mac_scenario_hello_world() {
    let key = [0u8; 32];
    let sig = sign(TextSignFormat::Blake3, &key, b"hello world").unwrap();
    assert_eq!(sig.len(), 32);
    assert_eq!(verify(TextSignFormat::Blake3, &key, b"hello world", &sig), Ok(true));
    assert_eq!(verify(TextSignFormat::Blake3, &key, b"hello world!", &sig), Ok(false));
}

#[test]
fn mac_is_the_keyed_blake3_tag() {
    let key = [0u8; 32];
    let sig = sign(TextSignFormat::Blake3, &key, b"hello world").unwrap();
    assert_eq!(sig, blake3::keyed_hash(&key, b"hello world").as_bytes().to_vec());
    assert_ne!(sig, b"hello world".to_vec());
}

#[test]
fn mac_key_sensitivity() {
    let k1 = [0u8; 32];
    let k2 = [1u8; 32];
    let sig = sign(TextSignFormat::Blake3, &k1, b"content").unwrap();
    assert_eq!(verify(TextSignFormat::Blake3, &k2, b"content", &sig), Ok(false));
}

#[test]
fn signing_is_deterministic() {
    let k = KeyMaterial::from_seed(TextSignFormat::Ed25519, &[7u8; 32]);
    let a = sign(TextSignFormat::Ed25519, k.signing_key(), b"data").unwrap();
    let b = sign(TextSignFormat::Ed25519, k.signing_key(), b"data").unwrap();
    assert_eq!(a, b);
    assert_eq!(a.len(), 64);
}

#[test]
fn ed25519_scenario_generated_pairs() {
    let k1 = generate(TextSignFormat::Ed25519).unwrap();
    let k2 = generate(TextSignFormat::Ed25519).unwrap();
    let sig = sign(TextSignFormat::Ed25519, k1.signing_key(), b"test").unwrap();
    assert_eq!(verify(TextSignFormat::Ed25519, k1.verifying_key(), b"test", &sig), Ok(true));
    assert_eq!(verify(TextSignFormat::Ed25519, k2.verifying_key(), b"test", &sig), Ok(false));
    assert_eq!(verify(TextSignFormat::Ed25519, k1.verifying_key(), b"test!", &sig), Ok(false));
}

#[test]
fn ed25519_public_key_is_derived() {
    let k = KeyMaterial::from_seed(TextSignFormat::Ed25519, &[3u8; 32]);
    let expected = ed25519_dalek::SigningKey::from_bytes(&[3u8; 32]).verifying_key().to_bytes();
    assert_eq!(k.verifying_key(), &expected[..]);
    assert_eq!(k.signing_key(), &[3u8; 32][..]);
    assert_eq!(k.format(), TextSignFormat::Ed25519);
}

#[test]
fn mac_material_uses_one_secret() {
    let k = KeyMaterial::from_seed(TextSignFormat::Blake3, &[5u8; 32]);
    assert_eq!(k.signing_key(), k.verifying_key());
    assert_eq!(k.format(), TextSignFormat::Blake3);
    let g = generate(TextSignFormat::Blake3).unwrap();
    assert_eq!(g.signing_key().len(), 32);
    let h = generate(TextSignFormat::Blake3).unwrap();
    assert_ne!(g.signing_key(), h.signing_key());
}

#[test]
fn wrong_key_length_is_key_error() {
    assert_eq!(sign(TextSignFormat::Blake3, &[0u8; 31], b"x"), Err(ToolError::Key));
    assert_eq!(sign(TextSignFormat::Ed25519, &[0u8; 33], b"x"), Err(ToolError::Key));
    assert_eq!(verify(TextSignFormat::Blake3, &[], b"x", &[0u8; 32]), Err(ToolError::Key));
}

#[test]
fn malformed_signature_is_encoding_error() {
    let k = KeyMaterial::from_seed(TextSignFormat::Ed25519, &[9u8; 32]);
    assert_eq!(verify(TextSignFormat::Ed25519, k.verifying_key(), b"x", &[0u8; 10]), Err(ToolError::Encoding));
    assert_eq!(verify(TextSignFormat::Blake3, &[0u8; 32], b"x", &[0u8; 10]), Err(ToolError::Encoding));
    let tag = sign(TextSignFormat::Blake3, &[0u8; 32], b"x").unwrap();
    assert_eq!(verify(TextSignFormat::Blake3, &[0u8; 32], b"x", &tag[..31]), Err(ToolError::Encoding));
    assert_eq!(verify(TextSignFormat::Blake3, &[0u8; 32], b"x", &[0u8; 32]), Ok(false));
}

#[test]
fn public_key_off_the_curve_is_key_error() {
    let mut bad = [0u8; 32];
    bad[0] = 2;
    let found = (0u8..=255).any(|b| {
        bad[31] = b;
        ed25519_dalek::VerifyingKey::from_bytes(&bad).is_err()
    });
    assert!(found);
    assert_eq!(verify(TextSignFormat::Ed25519, &bad, b"x", &[0u8; 64]), Err(ToolError::Key));
}

#[test]
fn encoded_signature_round_trip() {
    let k = KeyMaterial::from_seed(TextSignFormat::Ed25519, &[1u8; 32]);
    let sig = sign(TextSignFormat::Ed25519, k.signing_key(), b"payload").unwrap();
    let text = encode(&sig, Base64Format::UrlSafe);
    let back = decode(&text, Base64Format::UrlSafe).unwrap();
    assert_eq!(verify(TextSignFormat::Ed25519, k.verifying_key(), b"payload", &back), Ok(true));
}

#[test]
fn key_material_of_another_scheme_is_key_error() {
    let mac = KeyMaterial::from_seed(TextSignFormat::Blake3, &[2u8; 32]);
    let pair = KeyMaterial::from_seed(TextSignFormat::Ed25519, &[2u8; 32]);
    assert_eq!(sign_with_key(TextSignFormat::Ed25519, &mac, b"m"), Err(ToolError::Key));
    assert_eq!(verify_with_key(TextSignFormat::Blake3, &pair, b"m", &[0u8; 32]), Err(ToolError::Key));
}

#[test]
fn key_material_round_trip() {
    for format in [TextSignFormat::Blake3, TextSignFormat::Ed25519] {
        let key = KeyMaterial::from_seed(format, &[8u8; 32]);
        let sig = sign_with_key(format, &key, b"message").unwrap();
        assert_eq!(verify_with_key(format, &key, b"message", &sig), Ok(true));
        assert_eq!(verify_with_key(format, &key, b"massage", &sig), Ok(false));
    }
}
