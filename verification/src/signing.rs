//! The signer: Ed25519 signatures over artifacts with the operator's
//! private key, and generation of that key. Verifying a signature is the
//! receiving device's business and has no place here.

use vstd::prelude::*;
use ed25519_dalek::Signer;
use crate::encoding::{
    base64_bytes, base64_decode, base64_encode, base64_len, base64_text,
    lemma_trimmed_without_whitespace, text_result, text_view, trim_text, trimmed,
};
use crate::error::ErrorKind;

verus! {

/// Bytes in a private signing key, and in a public verification key.
pub const SIGNING_KEY_LEN: usize = 32;

/// Bytes in a signature.
pub const SIGNATURE_LEN: usize = 64;

/// Characters in the base64 text of a signature.
pub const SIGNATURE_TEXT_LEN: usize = 88;

/// The Ed25519 signature of a message under a 32-byte private key.
pub uninterp spec fn ed25519_signature(secret: Seq<u8>, message: Seq<u8>) -> Seq<u8>;

/// The Ed25519 public key that belongs to a 32-byte private key.
pub uninterp spec fn ed25519_public_key(secret: Seq<u8>) -> Seq<u8>;

/// `Signer::sign` of `ed25519_dalek::SigningKey`, on the key that
/// `SigningKey::try_from` makes of the private bytes.
///
/// Trusted: exactly a 32-byte private key is accepted; the signature is a
/// function of key and message, and has 64 bytes.
#[verifier::external_body]
pub(crate) fn ed25519_sign(secret: &[u8], message: &[u8]) -> (signature: Option<Vec<u8>>)
    ensures
        signature is Some <==> secret@.len() == SIGNING_KEY_LEN,
        signature matches Some(s) ==> {
            &&& s@ == ed25519_signature(secret@, message@)
            &&& s@.len() == SIGNATURE_LEN
        },
{
    let key = ed25519_dalek::SigningKey::try_from(secret).ok()?;
    Some(key.sign(message).to_bytes().to_vec())
}

/// `SigningKey::generate` of `ed25519_dalek` on the operating system's
/// random source, handing back the private and the public key bytes.
///
/// Trusted: both have 32 bytes, and the public key is the one that
/// belongs to the private key. Nothing is promised of which key is drawn.
#[verifier::external_body]
pub(crate) fn ed25519_generate() -> (pair: (Vec<u8>, Vec<u8>))
    ensures
        pair.0@.len() == SIGNING_KEY_LEN,
        pair.1@.len() == SIGNING_KEY_LEN,
        pair.1@ == ed25519_public_key(pair.0@),
{
    let key = ed25519_dalek::SigningKey::generate(&mut rand::rngs::OsRng);
    (key.to_bytes().to_vec(), key.verifying_key().to_bytes().to_vec())
}

/// The private key that the text of a signing key file spells: its base64
/// content, surrounding whitespace aside, if that is 32 bytes.
pub open spec fn signing_secret(key_text: Seq<char>) -> Option<Seq<u8>> {
    match base64_bytes(trimmed(key_text)) {
        Some(bytes) => if bytes.len() == SIGNING_KEY_LEN {
            Some(bytes)
        } else {
            None
        },
        None => None,
    }
}

/// The signature, in base64, of an artifact under the stored signing key.
pub open spec fn signature_of(contents: Seq<u8>, signing_key: Option<Seq<char>>) -> Result<
    Seq<char>,
    ErrorKind,
> {
    match signing_key {
        None => Err(ErrorKind::NotConfigured),
        Some(text) => match signing_secret(text) {
            None => Err(ErrorKind::InvalidKey),
            Some(secret) => Ok(base64_text(ed25519_signature(secret, contents))),
        },
    }
}

/// Signs an artifact's bytes with the private key whose file content is
/// `signing_key`, and returns the 64-byte signature in base64, which is 88
/// characters whatever was signed.
///
/// Fails with `NotConfigured` when no signing key exists and with
/// `InvalidKey` when the file does not hold 32 bytes in base64.
pub fn sign_file(contents: &[u8], signing_key: &Option<String>) -> (signature: Result<
    String,
    ErrorKind,
>)
    ensures
        text_result(signature) == signature_of(contents@, text_view(*signing_key)),
        signature matches Ok(s) ==> {
            &&& s@.len() == SIGNATURE_TEXT_LEN
            &&& base64_bytes(s@) matches Some(raw)
            &&& raw.len() == SIGNATURE_LEN
        },
{
    match signing_key {
        None => Err(ErrorKind::NotConfigured),
        Some(text) => {
            match base64_decode(trim_text(text.as_str())) {
                None => Err(ErrorKind::InvalidKey),
                Some(secret) => match ed25519_sign(secret.as_slice(), contents) {
                    None => Err(ErrorKind::InvalidKey),
                    Some(raw) => Ok(base64_encode(raw.as_slice())),
                },
            }
        },
    }
}

/// A freshly generated signing keypair, each key as the base64 text that
/// goes into its file.
#[derive(Clone, Debug, PartialEq, Eq)]
pub struct Keypair {
    pub private_key: String,
    pub public_key: String,
}

/// Whether a keypair is the encoding of the given private key and of the
/// public key that belongs to it, and its private text is one that
/// [`sign_file`] reads that key from.
pub open spec fn is_keypair_of(pair: Keypair, secret: Seq<u8>) -> bool {
    &&& pair.private_key@ == base64_text(secret)
    &&& pair.public_key@ == base64_text(ed25519_public_key(secret))
    &&& signing_secret(pair.private_key@) == Some(secret)
}

/// Encodes the two keys of a pair for their files.
pub fn encode_keypair(secret: &[u8], public: &[u8]) -> (pair: Keypair)
    ensures
        pair.private_key@ == base64_text(secret@),
        pair.public_key@ == base64_text(public@),
        base64_bytes(pair.private_key@) == Some(secret@),
        base64_bytes(pair.public_key@) == Some(public@),
        pair.private_key@.len() == base64_len(secret@.len()),
        pair.public_key@.len() == base64_len(public@.len()),
        secret@.len() == SIGNING_KEY_LEN ==> signing_secret(pair.private_key@) == Some(secret@),
{
    let pair = Keypair { private_key: base64_encode(secret), public_key: base64_encode(public) };
    proof {
        lemma_trimmed_without_whitespace(pair.private_key@);
    }
    pair
}

/// Generates a signing keypair, unless one exists already and `force` is
/// not set: then it fails with `AlreadyExists`, and nothing is drawn.
///
/// Otherwise it succeeds, and the pair encodes some 32-byte private key
/// together with the public key that belongs to it; signing with the
/// private text then signs under that key.
pub fn generate_keypair(force: bool, key_exists: bool) -> (pair: Result<Keypair, ErrorKind>)
    ensures
        key_exists && !force ==> pair == Err::<Keypair, ErrorKind>(ErrorKind::AlreadyExists),
        !(key_exists && !force) ==> pair is Ok,
        pair is Ok ==> exists|secret: Seq<u8>|
            secret.len() == SIGNING_KEY_LEN && #[trigger] is_keypair_of(pair->Ok_0, secret),
{
    if key_exists && !force {
        return Err(ErrorKind::AlreadyExists);
    }
    let drawn = ed25519_generate();
    let encoded = encode_keypair(drawn.0.as_slice(), drawn.1.as_slice());
    let pair: Result<Keypair, ErrorKind> = Ok(encoded);
    proof {
        assert(is_keypair_of(pair->Ok_0, drawn.0@));
    }
    pair
}

} // verus!
