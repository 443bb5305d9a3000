//! Deterministic password derivation and passphrase-based sealing of byte
//! buffers, with the decisions of a command-line session around them.

pub mod alphabet;
pub mod cipher;
pub mod cli;
pub mod error;
pub mod kdf;
pub mod password;
pub mod session;
