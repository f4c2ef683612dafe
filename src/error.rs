use vstd::prelude::*;

use crate::name::InvalidKeypairName;

verus! {

/// An I/O failure reported by the operating system.
#[verifier::external_type_specification]
#[verifier::external_body]
pub struct ExIoError(std::io::Error);

/// A failure of saltlick to read or write a key file: I/O, or a malformed key.
#[verifier::external_type_specification]
#[verifier::external_body]
pub struct ExKeyIoError(saltlick::SaltlickKeyIoError);

/// Everything that can go wrong in a keychain operation.
#[derive(Debug)]
pub enum KeychainError {
    /// The keychain directory could not be created or listed.
    BadKeychainDir { error: std::io::Error, path: String },
    /// A file of the keypair was present and could not be removed.
    DeleteError { name: String, error: std::io::Error },
    /// The name given for a keypair is not a valid keypair name.
    InvalidKeypairName { name: String, error: InvalidKeypairName },
    /// A file of the keypair is already present: nothing was written.
    KeypairAlreadyExists { name: String },
    /// One or both files of the keypair are absent.
    KeypairNotFound { name: String },
    /// Both files were present but one of them could not be read as a key.
    LoadError { name: String, error: saltlick::SaltlickKeyIoError },
    /// No stored keypair has the public key searched for.
    PublicKeyNotFound,
    /// A key file could not be written.
    SaveError { name: String, error: saltlick::SaltlickKeyIoError },
    /// A rename stored the keypair under its new name but could not remove
    /// the old one: both names now hold the same keys.
    RenameIncomplete { old_name: String, new_name: String, error: std::io::Error },
    /// No home directory could be determined for the user's keychain.
    NoConfigDir,
}

/// Everything that can go wrong in a command of the saltlick tool.
#[derive(Debug)]
pub enum CliError {
    /// Both a keychain name and a key file path were given for a key.
    BothKeyAndPath { type_: String },
    /// The input file could not be opened.
    InputFileIoError { error: std::io::Error, path: String },
    /// A keychain operation failed.
    KeychainError { error: KeychainError },
    /// A key file to be generated already exists.
    KeyExists { path: String, type_: String },
    /// A key file could not be loaded.
    KeyLoadError { error: saltlick::SaltlickKeyIoError, path: String, type_: String },
    /// Neither a keychain name nor a key file path was given for a key.
    MissingKeyAndPath { type_: String },
    /// The output file could not be opened.
    OutputFileIoError { error: std::io::Error, path: String },
    /// A key file could not be written.
    SaltlickKeyIoError { error: saltlick::SaltlickKeyIoError },
    /// Reading, transforming or writing the stream failed.
    StreamIoError { error: std::io::Error },
}

} // verus!
