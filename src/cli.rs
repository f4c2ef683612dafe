use vstd::prelude::*;

use crate::error::CliError;

verus! {

/// A command line of the saltlick tool: one subcommand.
#[derive(Debug, Clone, PartialEq, Eq)]
pub struct Cli {
    pub cmd: Command,
}

/// The subcommands.
#[derive(Debug, Clone, PartialEq, Eq)]
pub enum Command {
    /// Decrypt an encrypted file.
    Decrypt(DecryptArgs),
    /// Encrypt a file or stream.
    Encrypt(EncryptArgs),
    /// Generate new key files.
    Generate(GenerateArgs),
    /// Interact with stored keys.
    Keychain(KeychainArgs),
}

/// Options of `decrypt`.
#[derive(Debug, Clone, PartialEq, Eq)]
pub struct DecryptArgs {
    /// Overwrite an existing output file.
    pub force: bool,
    /// Input file; standard input where absent.
    pub infile: Option<String>,
    /// Name of the keychain keypair to decrypt with.
    pub key: Option<String>,
    /// Path of a public key file to decrypt with.
    pub public: Option<String>,
    /// Path of a secret key file to decrypt with.
    pub secret: Option<String>,
    /// Output file; standard output where absent.
    pub outfile: Option<String>,
}

/// Options of `encrypt`.
#[derive(Debug, Clone, PartialEq, Eq)]
pub struct EncryptArgs {
    /// Overwrite an existing output file.
    pub force: bool,
    /// Input file; standard input where absent.
    pub infile: Option<String>,
    /// Name of the keychain keypair to encrypt with.
    pub key: Option<String>,
    /// Path of a public key file to encrypt with.
    pub public: Option<String>,
    /// Output file; standard output where absent.
    pub outfile: Option<String>,
}

/// Options of `generate`.
#[derive(Debug, Clone, PartialEq, Eq)]
pub struct GenerateArgs {
    /// Output public key file (`public.pem` where absent).
    pub public: Option<String>,
    /// Output secret key file (`secret.pem` where absent).
    pub secret: Option<String>,
}

/// The keychain subcommands.
#[derive(Debug, Clone, PartialEq, Eq)]
pub enum KeychainArgs {
    /// Export a stored keypair to files.
    Export { name: String, public: Option<String>, secret: Option<String> },
    /// Create a new keypair and store it.
    Generate { name: String },
    /// Import public and secret key files as a keypair.
    Import { name: String, public: String, secret: String },
    /// List the stored keypairs.
    List,
    /// Remove a stored keypair.
    Remove { name: String },
    /// Rename a stored keypair.
    Rename { old_name: String, new_name: String },
}

/// Where a key comes from: a key file, or a keypair of the keychain.
#[derive(Debug, Clone, PartialEq, Eq)]
pub enum KeySource {
    /// A key file at this path.
    File(String),
    /// The keychain keypair of this name.
    Keychain(String),
}

/// Chooses where the `type_` key (`public` or `secret`) comes from, given a
/// key file `path` and a keychain `name`: exactly one of them must be given.
pub fn key_source(path: Option<String>, name: Option<String>, type_: &str) -> (r: Result<
    KeySource,
    CliError,
>)
    ensures
        match (path, name) {
            (Some(p), None) => r matches Ok(KeySource::File(q)) && q@ == p@,
            (None, Some(n)) => r matches Ok(KeySource::Keychain(m)) && m@ == n@,
            (Some(_), Some(_)) => r matches Err(CliError::BothKeyAndPath { type_: t }) && t@
                == type_@,
            (None, None) => r matches Err(CliError::MissingKeyAndPath { type_: t }) && t@
                == type_@,
        },
{
    match (path, name) {
        (Some(p), None) => Ok(KeySource::File(p)),
        (None, Some(n)) => Ok(KeySource::Keychain(n)),
        (Some(_), Some(_)) => Err(CliError::BothKeyAndPath { type_: type_.to_string() }),
        (None, None) => Err(CliError::MissingKeyAndPath { type_: type_.to_string() }),
    }
}

/// Whether `decrypt` searches the keychain for the keypair that matches the
/// input's public key: when neither a public key file nor a name is given.
pub fn decrypt_searches_keychain(args: &DecryptArgs) -> (r: bool)
    ensures
        r == (args.public is None && args.key is None),
{
    args.public.is_none() && args.key.is_none()
}

/// The default public key file of `generate`.
pub open spec fn default_public_path() -> Seq<char> {
    seq!['p', 'u', 'b', 'l', 'i', 'c', '.', 'p', 'e', 'm']
}

/// The default secret key file of `generate`.
pub open spec fn default_secret_path() -> Seq<char> {
    seq!['s', 'e', 'c', 'r', 'e', 't', '.', 'p', 'e', 'm']
}

/// The files that `generate` writes: the paths given, or `public.pem` and `secret.pem`.
pub fn generate_paths(args: GenerateArgs) -> (r: (String, String))
    ensures
        r.0@ == match args.public {
            Some(p) => p@,
            None => default_public_path(),
        },
        r.1@ == match args.secret {
            Some(s) => s@,
            None => default_secret_path(),
        },
{
    proof {
        reveal_strlit("public.pem");
        reveal_strlit("secret.pem");
        assert("public.pem"@ =~= default_public_path());
        assert("secret.pem"@ =~= default_secret_path());
    }
    let public = match args.public {
        Some(p) => p,
        None => String::from_str("public.pem"),
    };
    let secret = match args.secret {
        Some(s) => s,
        None => String::from_str("secret.pem"),
    };
    (public, secret)
}

/// Whether `generate` may write its key files, given whether a regular file
/// already stands at each: never over an existing file, the public one reported first.
pub fn generate_check(
    public_path: &str,
    secret_path: &str,
    public_exists: bool,
    secret_exists: bool,
) -> (r: Result<(), CliError>)
    ensures
        r is Ok <==> !public_exists && !secret_exists,
        public_exists ==> (r matches Err(CliError::KeyExists { path, type_ }) && path@
            == public_path@ && type_@ == seq!['p', 'u', 'b', 'l', 'i', 'c']),
        !public_exists && secret_exists ==> (r matches Err(CliError::KeyExists { path, type_ })
            && path@ == secret_path@ && type_@ == seq!['s', 'e', 'c', 'r', 'e', 't']),
{
    proof {
        reveal_strlit("public");
        reveal_strlit("secret");
        assert("public"@ =~= seq!['p', 'u', 'b', 'l', 'i', 'c']);
        assert("secret"@ =~= seq!['s', 'e', 'c', 'r', 'e', 't']);
    }
    if public_exists {
        Err(CliError::KeyExists { path: public_path.to_string(), type_: String::from_str("public") })
    } else if secret_exists {
        Err(CliError::KeyExists { path: secret_path.to_string(), type_: String::from_str("secret") })
    } else {
        Ok(())
    }
}

} // verus!
