//! Authenticated encryption of whole files with AES-256-GCM.
//!
//! The library holds every decision of the tool: how a password becomes a
//! key, how a buffer is sealed or opened in place, which path each artifact
//! gets, and how the command line is read. Reading and writing files is left
//! to the caller, which hands the library the bytes it read and writes the
//! bytes it gets back.

mod cipher;
mod cli;
mod error;
mod paths;
mod pipeline;

pub use cipher::{
    open_in_place, opened, seal_in_place, sealed, CipherKey, KEY_LEN, MAX_SEAL_LEN, NONCE_LEN,
    TAG_LEN,
};
pub use error::EncryptError;
pub use paths::{
    decrypted_path, decrypted_path_of, encrypted_path, encrypted_path_of, last_dot,
    lemma_paths_round_trip,
};
pub use pipeline::{
    decrypt, decryption, encrypt, encryption, lemma_encryption_deterministic, Artifact,
};
pub use cli::{
    command_named, json_byte_array, parse_args, parse_nonce, Command, Invocation, Request,
};
