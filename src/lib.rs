//! Keychain of named public/secret keypairs for the saltlick file-encryption tool.
//!
//! The library decides everything about the keychain: which names are valid,
//! which files a keypair occupies, which outcomes of the filesystem calls make
//! which result, and how a directory listing turns into keypair names.
//! Operations that take several filesystem calls (create, remove, rename,
//! find) are `Job`s: each step takes what the last call gave and says which
//! call comes next, so their order is part of what is verified. The calls
//! themselves are made by the program that drives the library.

pub mod cli;
pub mod error;
pub mod job;
pub mod keychain;
pub mod keys;
pub mod listing;
pub mod model;
pub mod name;
pub mod path;

pub use cli::{Cli, Command, DecryptArgs, EncryptArgs, GenerateArgs, KeySource, KeychainArgs};
pub use error::{CliError, KeychainError};
pub use job::{Action, Event, Job, JobKind, Phase};
pub use keychain::{Found, Keychain, Keypair};
pub use listing::KeychainIter;
pub use name::{InvalidKeypairName, KeypairName};
