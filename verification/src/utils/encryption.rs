//! The symmetric cipher adapter: AES-256-GCM with a fresh random nonce per
//! message, framed as `nonce || ciphertext || tag`.

use vstd::prelude::*;
use vstd::slice::slice_subrange;
use aes_gcm::aead::Aead;
use aes_gcm::KeyInit;
use rand::RngCore;
use crate::encoding::bytes_result;
use crate::error::ErrorKind;

verus! {

/// Bytes in a cipher key.
pub const KEY_LEN: usize = 32;

/// Bytes in a nonce, which leads every ciphertext blob.
pub const NONCE_LEN: usize = 12;

/// Bytes in the integrity tag, which trails every ciphertext blob.
pub const TAG_LEN: usize = 16;

/// The longest plaintext, in bytes, that the cipher seals under one nonce.
pub const MAX_PLAINTEXT_LEN: u64 = 0x10_0000_0000;

/// What AES-256-GCM produces for a key, a nonce and a plaintext, with no
/// associated data: the ciphertext followed by its tag.
pub uninterp spec fn aes256gcm_seal(key: Seq<u8>, nonce: Seq<u8>, plaintext: Seq<u8>) -> Seq<u8>;

/// What AES-256-GCM recovers from a key, a nonce and a tagged ciphertext,
/// with no associated data; `None` when the tag does not verify.
pub uninterp spec fn aes256gcm_open(key: Seq<u8>, nonce: Seq<u8>, sealed: Seq<u8>) -> Option<
    Seq<u8>,
>;

/// `RngCore::fill_bytes` on `rand::thread_rng()`: nothing is promised of the
/// bytes but their number.
#[verifier::external_body]
pub(crate) fn random_bytes<const N: usize>() -> (bytes: [u8; N]) {
    let mut bytes = [0u8; N];
    rand::thread_rng().fill_bytes(&mut bytes);
    bytes
}

/// `Aead::encrypt` of `aes_gcm::Aes256Gcm`, keyed by `KeyInit::new_from_slice`.
///
/// Trusted: the call succeeds exactly when the plaintext is within the
/// cipher's length limit; its output is a function of the three arguments,
/// is one tag longer than the plaintext, and opens again to the plaintext
/// under the same key and nonce.
#[verifier::external_body]
pub(crate) fn aes256gcm_encrypt(key: &[u8], nonce: &[u8; 12], plaintext: &[u8]) -> (sealed:
    Option<Vec<u8>>)
    requires
        key@.len() == KEY_LEN,
    ensures
        sealed is Some <==> plaintext@.len() <= MAX_PLAINTEXT_LEN,
        sealed matches Some(c) ==> {
            &&& c@ == aes256gcm_seal(key@, nonce@, plaintext@)
            &&& c@.len() == plaintext@.len() + TAG_LEN
            &&& aes256gcm_open(key@, nonce@, c@) == Some(plaintext@)
        },
{
    let cipher = aes_gcm::Aes256Gcm::new_from_slice(key).ok()?;
    cipher.encrypt(aes_gcm::Nonce::from_slice(nonce), plaintext).ok()
}

/// `Aead::decrypt` of `aes_gcm::Aes256Gcm`, keyed by `KeyInit::new_from_slice`.
///
/// Trusted: the outcome is a function of the three arguments, and what is
/// too short to hold a tag is refused.
#[verifier::external_body]
pub(crate) fn aes256gcm_decrypt(key: &[u8], nonce: &[u8], sealed: &[u8]) -> (plaintext: Option<
    Vec<u8>,
>)
    requires
        key@.len() == KEY_LEN,
        nonce@.len() == NONCE_LEN,
    ensures
        plaintext matches Some(p) ==> aes256gcm_open(key@, nonce@, sealed@) == Some(p@),
        plaintext is None ==> aes256gcm_open(key@, nonce@, sealed@) is None,
        sealed@.len() < TAG_LEN ==> plaintext is None,
{
    let cipher = aes_gcm::Aes256Gcm::new_from_slice(key).ok()?;
    cipher.decrypt(aes_gcm::Nonce::from_slice(nonce), sealed).ok()
}

/// The ciphertext blob for a plaintext under a key and a nonce: the nonce,
/// then the sealed bytes.
pub open spec fn encrypted_blob(plaintext: Seq<u8>, key: Seq<u8>, nonce: Seq<u8>) -> Seq<u8> {
    nonce + aes256gcm_seal(key, nonce, plaintext)
}

/// What encrypting yields once the nonce is fixed.
pub open spec fn encrypted(plaintext: Seq<u8>, key: Seq<u8>, nonce: Seq<u8>) -> Result<
    Seq<u8>,
    ErrorKind,
> {
    if key.len() != KEY_LEN {
        Err(ErrorKind::InvalidKey)
    } else if plaintext.len() > MAX_PLAINTEXT_LEN {
        Err(ErrorKind::EncryptionFailed)
    } else {
        Ok(encrypted_blob(plaintext, key, nonce))
    }
}

/// What decrypting a blob under a key yields.
pub open spec fn decrypted(blob: Seq<u8>, key: Seq<u8>) -> Result<Seq<u8>, ErrorKind> {
    if key.len() != KEY_LEN {
        Err(ErrorKind::InvalidKey)
    } else if blob.len() < NONCE_LEN {
        Err(ErrorKind::InputTooSmall)
    } else {
        match aes256gcm_open(
            key,
            blob.subrange(0, NONCE_LEN as int),
            blob.subrange(NONCE_LEN as int, blob.len() as int),
        ) {
            Some(plaintext) => Ok(plaintext),
            None => Err(ErrorKind::DecryptionFailed),
        }
    }
}

/// Encrypts under a caller-chosen nonce. The caller must never pass the
/// same nonce twice for one key; [`encrypt_file`] draws a fresh one.
///
/// Beyond the exact result, a successful blob is guaranteed to decrypt to
/// the plaintext under the same key.
pub fn encrypt_with_nonce(plaintext: &[u8], key: &[u8], nonce: &[u8; 12]) -> (blob: Result<
    Vec<u8>,
    ErrorKind,
>)
    ensures
        bytes_result(blob) == encrypted(plaintext@, key@, nonce@),
        blob matches Ok(b) ==> {
            &&& b@.len() == NONCE_LEN + plaintext@.len() + TAG_LEN
            &&& decrypted(b@, key@) == Ok::<Seq<u8>, ErrorKind>(plaintext@)
        },
{
    if key.len() != KEY_LEN {
        return Err(ErrorKind::InvalidKey);
    }
    match aes256gcm_encrypt(key, nonce, plaintext) {
        None => Err(ErrorKind::EncryptionFailed),
        Some(sealed) => {
            let mut blob: Vec<u8> = Vec::new();
            blob.extend_from_slice(nonce.as_slice());
            blob.extend_from_slice(sealed.as_slice());
            proof {
                assert(blob@ =~= nonce@ + sealed@);
                assert(blob@.subrange(0, NONCE_LEN as int) =~= nonce@);
                assert(blob@.subrange(NONCE_LEN as int, blob@.len() as int) =~= sealed@);
            }
            Ok(blob)
        },
    }
}

/// Encrypts a plaintext under a 32-byte key with a freshly drawn random
/// nonce.
///
/// Fails with `InvalidKey` for any other key length, and with
/// `EncryptionFailed` for a plaintext beyond the cipher's limit. Otherwise
/// the blob is `nonce || sealed` for some 12-byte nonce, and decrypting it
/// under the same key gives the plaintext back.
pub fn encrypt_file(plaintext: &[u8], key: &[u8]) -> (blob: Result<Vec<u8>, ErrorKind>)
    ensures
        key@.len() != KEY_LEN ==> blob == Err::<Vec<u8>, ErrorKind>(ErrorKind::InvalidKey),
        key@.len() == KEY_LEN && plaintext@.len() > MAX_PLAINTEXT_LEN ==> blob == Err::<
            Vec<u8>,
            ErrorKind,
        >(ErrorKind::EncryptionFailed),
        key@.len() == KEY_LEN && plaintext@.len() <= MAX_PLAINTEXT_LEN ==> blob is Ok,
        blob matches Ok(b) ==> {
            &&& exists|nonce: Seq<u8>|
                nonce.len() == NONCE_LEN && b@ == #[trigger] encrypted_blob(
                    plaintext@,
                    key@,
                    nonce,
                )
            &&& b@.len() == NONCE_LEN + plaintext@.len() + TAG_LEN
            &&& decrypted(b@, key@) == Ok::<Seq<u8>, ErrorKind>(plaintext@)
        },
{
    if key.len() != KEY_LEN {
        return Err(ErrorKind::InvalidKey);
    }
    let nonce: [u8; 12] = random_bytes::<12>();
    let blob = encrypt_with_nonce(plaintext, key, &nonce);
    proof {
        if blob is Ok {
            assert(blob->Ok_0@ == encrypted_blob(plaintext@, key@, nonce@));
        }
    }
    blob
}

/// Decrypts a blob produced by [`encrypt_file`].
///
/// Fails with `InvalidKey` unless the key has 32 bytes, with `InputTooSmall`
/// when the blob cannot hold a nonce, and with `DecryptionFailed` when the
/// integrity tag does not verify, as it cannot where the blob has no room
/// for one.
pub fn decrypt_file(blob: &[u8], key: &[u8]) -> (plaintext: Result<Vec<u8>, ErrorKind>)
    ensures
        bytes_result(plaintext) == decrypted(blob@, key@),
        key@.len() == KEY_LEN && NONCE_LEN <= blob@.len() < NONCE_LEN + TAG_LEN ==> plaintext
            == Err::<Vec<u8>, ErrorKind>(ErrorKind::DecryptionFailed),
{
    if key.len() != KEY_LEN {
        return Err(ErrorKind::InvalidKey);
    }
    if blob.len() < NONCE_LEN {
        return Err(ErrorKind::InputTooSmall);
    }
    let nonce = slice_subrange(blob, 0, NONCE_LEN);
    let sealed = slice_subrange(blob, NONCE_LEN, blob.len());
    match aes256gcm_decrypt(key, nonce, sealed) {
        Some(p) => Ok(p),
        None => Err(ErrorKind::DecryptionFailed),
    }
}

/// Altering any one byte of a blob alters what decrypting hands to the
/// cipher: the nonce, if the byte is among the first twelve, else the
/// sealed bytes. Whether the cipher then refuses them is up to its
/// integrity tag.
pub proof fn lemma_altered_blob_has_altered_parts(blob: Seq<u8>, altered: Seq<u8>, at: int)
    requires
        blob.len() >= NONCE_LEN,
        altered.len() == blob.len(),
        0 <= at < blob.len(),
        altered[at] != blob[at],
    ensures
        at < NONCE_LEN ==> altered.subrange(0, NONCE_LEN as int) != blob.subrange(
            0,
            NONCE_LEN as int,
        ),
        at >= NONCE_LEN ==> altered.subrange(NONCE_LEN as int, altered.len() as int)
            != blob.subrange(NONCE_LEN as int, blob.len() as int),
{
    if at < NONCE_LEN {
        assert(altered.subrange(0, NONCE_LEN as int)[at] != blob.subrange(0, NONCE_LEN as int)[at]);
    } else {
        assert(altered.subrange(NONCE_LEN as int, altered.len() as int)[at - NONCE_LEN]
            != blob.subrange(NONCE_LEN as int, blob.len() as int)[at - NONCE_LEN]);
    }
}

} // verus!
