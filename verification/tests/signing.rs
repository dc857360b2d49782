use base64::Engine;
use ed25519_dalek::{Signature, Verifier, VerifyingKey};
use hotpatch::error::ErrorKind;
use hotpatch::signing::{encode_keypair, generate_keypair, sign_file};

fn b64(bytes: &[u8]) -> String {
    base64::engine::general_purpose::STANDARD.encode(bytes)
}

fn unb64(text: &str) -> Vec<u8> {
    base64::engine::general_purpose::STANDARD.decode(text).unwrap()
}

fn key_file(secret_hex: &str) -> Option<String> {
    Some(format!("{}\n", b64(&hex::decode(secret_hex).unwrap())))
}

const SECRET_ONE: &str = "9d61b19deffd5a60ba844af492ec2cc44449c5697b326919703bac031cae7f60";
const PUBLIC_ONE: &str = "d75a980182b10ab7d54bfed3c964073a0ee172f3daa62325af021a68f707511a";
const SECRET_TWO: &str = "4ccd089b28ff96da9db6c346ec114e0f5b8a319f35aba624da8cf6ed4fb8a6fb";

#[test]
fn signature_of_the_empty_message() {
    let signature = sign_file(&[], &key_file(SECRET_ONE)).unwrap();
    let expected = hex::decode(
        "e5564300c360ac729086e2cc806e828a84877f1eb8e5d974d873e065224901555fb8821590a33bacc61e39701cf9b46bd25bf5f0595bbe24655141438e7a100b",
    )
    .unwrap();
    assert_eq!(signature, b64(&expected));
}

#[test]
fn signature_of_one_byte() {
    let signature = sign_file(&[0x72], &key_file(SECRET_TWO)).unwrap();
    let expected = hex::decode(
        "92a009a9f0d4cab8720e820b5f642540a2b27b5416503f8fb3762223ebdb69da085ac1e43e15996e458f3613d0f11d8c387b2eaeb4302aeeb00d291612bb0c00",
    )
    .unwrap();
    assert_eq!(signature, b64(&expected));
}

#[test]
fn signature_has_sixty_four_bytes() {
    let signature = sign_file(b"some artifact", &key_file(SECRET_ONE)).unwrap();
    assert_eq!(unb64(&signature).len(), 64);
    assert_eq!(signature.len(), 88);
}

#[test]
fn signature_verifies_and_fails_on_any_altered_byte() {
    let message = b"bytes that go up to the registry".to_vec();
    let signature = sign_file(&message, &key_file(SECRET_ONE)).unwrap();
    let raw: [u8; 64] = unb64(&signature).try_into().unwrap();
    let signature = Signature::from_bytes(&raw);
    let public: [u8; 32] = hex::decode(PUBLIC_ONE).unwrap().try_into().unwrap();
    let verifier = VerifyingKey::from_bytes(&public).unwrap();
    assert!(verifier.verify(&message, &signature).is_ok());
    for i in 0..message.len() {
        let mut altered = message.clone();
        altered[i] ^= 0x01;
        assert!(verifier.verify(&altered, &signature).is_err(), "byte {}", i);
    }
}

#[test]
fn surrounding_whitespace_of_the_key_file_is_ignored() {
    let bare = Some(b64(&hex::decode(SECRET_ONE).unwrap()));
    let padded = Some(format!("  \t{}\r\n\n", b64(&hex::decode(SECRET_ONE).unwrap())));
    assert_eq!(sign_file(b"x", &bare), sign_file(b"x", &padded));
    assert!(sign_file(b"x", &bare).is_ok());
}

#[test]
fn missing_signing_key_is_not_configured() {
    assert_eq!(sign_file(b"x", &None), Err(ErrorKind::NotConfigured));
}

#[test]
fn malformed_signing_key_is_invalid_key() {
    assert_eq!(sign_file(b"x", &Some("not base64!".to_string())), Err(ErrorKind::InvalidKey));
    assert_eq!(sign_file(b"x", &Some(String::new())), Err(ErrorKind::InvalidKey));
    assert_eq!(sign_file(b"x", &Some(b64(&[1u8; 31]))), Err(ErrorKind::InvalidKey));
    assert_eq!(sign_file(b"x", &Some(b64(&[1u8; 33]))), Err(ErrorKind::InvalidKey));
    let inner_space = format!("{} {}", &b64(&[1u8; 32])[..10], &b64(&[1u8; 32])[10..]);
    assert_eq!(sign_file(b"x", &Some(inner_space)), Err(ErrorKind::InvalidKey));
}

#[test]
fn existing_key_is_kept_unless_forced() {
    assert_eq!(generate_keypair(false, true), Err(ErrorKind::AlreadyExists));
    assert!(generate_keypair(true, true).is_ok());
    assert!(generate_keypair(false, false).is_ok());
    assert!(generate_keypair(true, false).is_ok());
}

#[test]
fn generated_public_key_belongs_to_the_private_key() {
    let pair = generate_keypair(false, false).unwrap();
    let secret: [u8; 32] = unb64(&pair.private_key).try_into().unwrap();
    let public: [u8; 32] = unb64(&pair.public_key).try_into().unwrap();
    let signing = ed25519_dalek::SigningKey::from_bytes(&secret);
    assert_eq!(signing.verifying_key().to_bytes(), public);

    let message = b"signed with a generated key";
    let signature = sign_file(message, &Some(pair.private_key.clone())).unwrap();
    let raw: [u8; 64] = unb64(&signature).try_into().unwrap();
    let verifier = VerifyingKey::from_bytes(&public).unwrap();
    assert!(verifier.verify(message, &Signature::from_bytes(&raw)).is_ok());
}

#[test]
fn generated_keypairs_differ() {
    let first = generate_keypair(false, false).unwrap();
    let second = generate_keypair(false, false).unwrap();
    assert_ne!(first.private_key, second.private_key);
}

#[test]
fn keypair_is_encoded_in_base64() {
    let pair = encode_keypair(&[0u8; 32], &[0xff; 32]);
    assert_eq!(pair.private_key, "AAAAAAAAAAAAAAAAAAAAAAAAAAAAAAAAAAAAAAAAAAA=");
    assert_eq!(pair.public_key, "//////////////////////////////////////////8=");
}
