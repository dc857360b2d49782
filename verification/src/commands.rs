//! The operator's commands, as decisions: what each one does with what it
//! is given, apart from the reading, sending and printing around it.

pub mod keygen;
pub mod keys;
pub mod login;
pub mod patch;
pub mod release;
pub mod rollback;
pub mod status;
