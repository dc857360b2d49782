//! Release packaging for over-the-air updates: encrypting, hashing, signing
//! and diffing application bundles, and the decision logic that sequences
//! those steps around a remote release registry.

pub mod api;
pub mod bundle;
pub mod commands;
pub mod config;
pub mod encoding;
pub mod error;
pub mod keyring;
pub mod pipeline;
pub mod signing;
pub mod utils;

pub use commands::keys::KeyCommands;
