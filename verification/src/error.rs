//! The failure taxonomy shared by every component.

use vstd::prelude::*;

verus! {

/// The class of a failure.
#[derive(Clone, Copy, Debug, PartialEq, Eq, Structural)]
pub enum ErrorKind {
    /// A request field is outside its allowed range or set.
    Validation,
    /// No stored credentials: the operator has not logged in.
    NotAuthenticated,
    /// A named version or key does not exist.
    NotFound,
    /// A key was asked for by id but no keyring has ever been created.
    KeyringEmpty,
    /// A symmetric or signing key is malformed or has the wrong length.
    InvalidKey,
    /// A ciphertext blob is too short to hold its nonce.
    InputTooSmall,
    /// The integrity tag of a ciphertext did not verify.
    DecryptionFailed,
    /// The plaintext exceeds what the cipher can seal under one nonce.
    EncryptionFailed,
    /// The registry already holds this version on this channel.
    VersionConflict,
    /// The registry could not be reached.
    Network,
    /// The registry answered with a failure of its own.
    Remote,
    /// The external build tool failed.
    BuildFailed,
    /// No signing key has been generated.
    NotConfigured,
    /// A signing key is already present and overwriting was not requested.
    AlreadyExists,
    /// The old bytes are more than the differ can index.
    DiffFailed,
    /// A patch is not framed as one, or its streams cannot be read.
    InvalidPatch,
    /// An event arrived that the pipeline was not waiting for.
    OutOfOrder,
    /// The user's home directory could not be determined.
    NoHomeDirectory,
}

impl ErrorKind {
    /// A short, stable, human-readable name for the class.
    pub fn name(&self) -> (s: &'static str)
        ensures
            s@ == self.spec_name(),
    {
        match self {
            ErrorKind::Validation => "validation error",
            ErrorKind::NotAuthenticated => "not authenticated",
            ErrorKind::NotFound => "not found",
            ErrorKind::KeyringEmpty => "keyring empty",
            ErrorKind::InvalidKey => "invalid key",
            ErrorKind::InputTooSmall => "input too small",
            ErrorKind::DecryptionFailed => "decryption failed",
            ErrorKind::EncryptionFailed => "encryption failed",
            ErrorKind::VersionConflict => "version conflict",
            ErrorKind::Network => "network error",
            ErrorKind::Remote => "remote error",
            ErrorKind::BuildFailed => "build failed",
            ErrorKind::NotConfigured => "not configured",
            ErrorKind::AlreadyExists => "already exists",
            ErrorKind::DiffFailed => "diff failed",
            ErrorKind::InvalidPatch => "invalid patch",
            ErrorKind::OutOfOrder => "out of order",
            ErrorKind::NoHomeDirectory => "no home directory",
        }
    }

    pub open spec fn spec_name(&self) -> Seq<char> {
        match self {
            ErrorKind::Validation => "validation error"@,
            ErrorKind::NotAuthenticated => "not authenticated"@,
            ErrorKind::NotFound => "not found"@,
            ErrorKind::KeyringEmpty => "keyring empty"@,
            ErrorKind::InvalidKey => "invalid key"@,
            ErrorKind::InputTooSmall => "input too small"@,
            ErrorKind::DecryptionFailed => "decryption failed"@,
            ErrorKind::EncryptionFailed => "encryption failed"@,
            ErrorKind::VersionConflict => "version conflict"@,
            ErrorKind::Network => "network error"@,
            ErrorKind::Remote => "remote error"@,
            ErrorKind::BuildFailed => "build failed"@,
            ErrorKind::NotConfigured => "not configured"@,
            ErrorKind::AlreadyExists => "already exists"@,
            ErrorKind::DiffFailed => "diff failed"@,
            ErrorKind::InvalidPatch => "invalid patch"@,
            ErrorKind::OutOfOrder => "out of order"@,
            ErrorKind::NoHomeDirectory => "no home directory"@,
        }
    }
}

} // verus!
