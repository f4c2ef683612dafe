use vstd::prelude::*;

use saltlick::{PublicKey, SaltlickKeyIoError, SecretKey};

use crate::error::KeychainError;
use crate::listing::KeychainIter;
use crate::name::{public_filename_of, secret_filename_of, validation_of, KeypairName};
use crate::path::{join, join_spec};

verus! {

/// What stood at the path of one key file when the keychain looked.
#[derive(Debug)]
pub enum Found<K> {
    /// No regular file.
    Absent,
    /// A regular file, and what reading a key from it gave.
    Present(Result<K, SaltlickKeyIoError>),
}

/// What loading keypair `name` gives when the key files show `public` and `secret`:
/// an invalid name is refused first; a missing file means the keypair is not
/// there; otherwise the public key's read failure, then the secret key's, is
/// reported, and with both keys read the keypair is loaded.
pub open spec fn load_post(
    name: Seq<char>,
    public: Found<PublicKey>,
    secret: Found<SecretKey>,
    r: Result<Keypair, KeychainError>,
) -> bool {
    match validation_of(name) {
        Err(e) => r matches Err(KeychainError::InvalidKeypairName { name: n, error }) && n@ == name
            && error == e,
        Ok(_) => match (public, secret) {
            (Found::Present(Ok(p)), Found::Present(Ok(s))) => r matches Ok(kp) && kp.name_view()
                == name && kp.public_key() == p && kp.secret_key() == s,
            (Found::Present(Err(e)), Found::Present(_)) => r matches Err(
                KeychainError::LoadError { name: n, error },
            ) && n@ == name && error == e,
            (Found::Present(Ok(_)), Found::Present(Err(e))) => r matches Err(
                KeychainError::LoadError { name: n, error },
            ) && n@ == name && error == e,
            _ => r matches Err(KeychainError::KeypairNotFound { name: n }) && n@ == name,
        },
    }
}

/// What validating `name` as the name of a keypair gives, in the keychain's error type.
pub open spec fn parse_post(name: Seq<char>, r: Result<KeypairName, KeychainError>) -> bool {
    match validation_of(name) {
        Ok(s) => r matches Ok(n) && n@ == s,
        Err(e) => r matches Err(KeychainError::InvalidKeypairName { name: m, error }) && m@ == name
            && error == e,
    }
}

/// What the check before a save of keypair `name` gives, where a regular file
/// does (`public_exists`, `secret_exists`) or does not stand at each key path:
/// a conflict if either does.
pub open spec fn save_check_post(
    name: Seq<char>,
    public_exists: bool,
    secret_exists: bool,
    r: Result<(), KeychainError>,
) -> bool {
    &&& r is Ok <==> !public_exists && !secret_exists
    &&& r is Err ==> (r matches Err(KeychainError::KeypairAlreadyExists { name: n }) && n@ == name)
}

/// A public key and a secret key under a keypair name.
#[derive(Debug)]
pub struct Keypair {
    name: KeypairName,
    public: PublicKey,
    secret: SecretKey,
}

impl Keypair {
    /// The keypair's name.
    pub closed spec fn name_view(&self) -> Seq<char> {
        self.name@
    }

    /// The keypair's public key.
    pub closed spec fn public_key(&self) -> PublicKey {
        self.public
    }

    /// The keypair's secret key.
    pub closed spec fn secret_key(&self) -> SecretKey {
        self.secret
    }

    /// The name of the keypair.
    pub fn name(&self) -> (r: &KeypairName)
        ensures
            r@ == self.name_view(),
    {
        &self.name
    }

    /// The public key.
    pub fn public(&self) -> (r: &PublicKey)
        ensures
            *r == self.public_key(),
    {
        &self.public
    }

    /// The secret key.
    pub fn secret(&self) -> (r: &SecretKey)
        ensures
            *r == self.secret_key(),
    {
        &self.secret
    }

    /// The same keys under `name`.
    pub(crate) fn renamed(self, name: KeypairName) -> (r: Keypair)
        ensures
            r.name_view() == name@,
            r.public_key() == self.public_key(),
            r.secret_key() == self.secret_key(),
    {
        Keypair { name, public: self.public, secret: self.secret }
    }

    /// Pairs the valid name `name` with `public` and `secret`.
    pub(crate) fn assemble(name: KeypairName, public: PublicKey, secret: SecretKey) -> (r: Keypair)
        ensures
            r.name_view() == name@,
            r.public_key() == public,
            r.secret_key() == secret,
    {
        Keypair { name, public, secret }
    }

    /// Validates `name` for use as a keypair name.
    fn parse_keypair_name(name: &str) -> (r: Result<KeypairName, KeychainError>)
        ensures
            parse_post(name@, r),
    {
        match KeypairName::new(name) {
            Ok(n) => Ok(n),
            Err(error) => Err(KeychainError::InvalidKeypairName { name: name.to_string(), error }),
        }
    }

    /// Loads keypair `name` from what was found at its two key files.
    pub fn load(name: &str, public: Found<PublicKey>, secret: Found<SecretKey>) -> (r: Result<
        Keypair,
        KeychainError,
    >)
        ensures
            load_post(name@, public, secret, r),
    {
        let name = match Self::parse_keypair_name(name) {
            Ok(n) => n,
            Err(e) => return Err(e),
        };
        match (public, secret) {
            (Found::Present(public), Found::Present(secret)) => {
                let public = match public {
                    Ok(k) => k,
                    Err(error) => {
                        return Err(KeychainError::LoadError { name: name.to_string(), error });
                    },
                };
                let secret = match secret {
                    Ok(k) => k,
                    Err(error) => {
                        return Err(KeychainError::LoadError { name: name.to_string(), error });
                    },
                };
                Ok(Keypair { name, public, secret })
            },
            _ => Err(KeychainError::KeypairNotFound { name: name.to_string() }),
        }
    }

    /// Whether saving may go on, given whether a regular file already stands
    /// at the public and at the secret key's path: it may not if either does,
    /// so that a save never overwrites half of a stored keypair.
    pub fn save_check(&self, public_exists: bool, secret_exists: bool) -> (r: Result<
        (),
        KeychainError,
    >)
        ensures
            save_check_post(self.name_view(), public_exists, secret_exists, r),
    {
        if public_exists || secret_exists {
            Err(KeychainError::KeypairAlreadyExists { name: self.name.to_string() })
        } else {
            Ok(())
        }
    }

    /// The result of a save, given the outcome of writing the public key file
    /// and then, if that succeeded, the secret key file.
    pub fn save_outcome(&self, written: Result<(), SaltlickKeyIoError>) -> (r: Result<
        (),
        KeychainError,
    >)
        ensures
            match written {
                Ok(()) => r is Ok,
                Err(e) => r matches Err(KeychainError::SaveError { name, error }) && name@
                    == self.name_view() && error == e,
            },
    {
        match written {
            Ok(()) => Ok(()),
            Err(error) => Err(KeychainError::SaveError { name: self.name.to_string(), error }),
        }
    }
}

/// Relies on `directories::ProjectDirs::from` and `config_dir`: the
/// configuration directory of the application, when the user's home
/// directory can be determined (a path that is not valid UTF-8 gives `None`).
/// It depends on the environment, so nothing is promised of it.
#[verifier::external_body]
fn project_config_dir(qualifier: &str, organization: &str, application: &str) -> (r: Option<
    String,
>) {
    directories::ProjectDirs::from(qualifier, organization, application).and_then(
        |dirs| dirs.config_dir().to_str().map(String::from),
    )
}

/// The subdirectory of the configuration directory that holds the keypairs.
pub open spec fn keypairs_segment() -> Seq<char> {
    seq!['k', 'e', 'y', 'p', 'a', 'i', 'r', 's']
}

/// Handle on a keychain directory: the one place where keypairs are stored,
/// read again by every operation.
#[derive(Debug)]
pub struct Keychain {
    key_dir: String,
}

impl Keychain {
    /// The keychain's directory.
    pub closed spec fn dir(&self) -> Seq<char> {
        self.key_dir@
    }

    /// Path of the public key file of keypair `name` in this keychain.
    pub open spec fn public_path_of(&self, name: Seq<char>) -> Seq<char> {
        join_spec(self.dir(), public_filename_of(name))
    }

    /// Path of the secret key file of keypair `name` in this keychain.
    pub open spec fn secret_path_of(&self, name: Seq<char>) -> Seq<char> {
        join_spec(self.dir(), secret_filename_of(name))
    }

    /// Binds a handle to directory `path`, given the outcome of creating it
    /// and its missing parents (an existing directory counts as created).
    pub fn open_at(path: &str, created: Result<(), std::io::Error>) -> (r: Result<
        Keychain,
        KeychainError,
    >)
        ensures
            match created {
                Ok(()) => r matches Ok(k) && k.dir() == path@,
                Err(e) => r matches Err(KeychainError::BadKeychainDir { path: p, error }) && p@
                    == path@ && error == e,
            },
    {
        match created {
            Ok(()) => Ok(Keychain { key_dir: path.to_string() }),
            Err(error) => Err(KeychainError::BadKeychainDir { path: path.to_string(), error }),
        }
    }

    /// Where the user's keychain lives: the `keypairs` subdirectory of the
    /// configuration directory of the application `saltlick` of `bitcurry`
    /// (qualifier `com`). Fails with `NoConfigDir` where that directory
    /// cannot be determined; see `keychain_dir_of`.
    pub fn default_dir() -> (r: Result<String, KeychainError>)
        ensures
            r is Err ==> r matches Err(KeychainError::NoConfigDir),
            r is Ok ==> exists|c: Seq<char>| r->Ok_0@ == join_spec(c, keypairs_segment()),
    {
        Self::keychain_dir_of(project_config_dir("com", "bitcurry", "saltlick"))
    }

    /// The keychain directory inside configuration directory `config`, or
    /// `NoConfigDir` where there is none.
    pub fn keychain_dir_of(config: Option<String>) -> (r: Result<String, KeychainError>)
        ensures
            match config {
                Some(c) => r matches Ok(d) && d@ == join_spec(c@, keypairs_segment()),
                None => r matches Err(KeychainError::NoConfigDir),
            },
    {
        match config {
            Some(config) => {
                let dir = join(config.as_str(), "keypairs");
                proof {
                    reveal_strlit("keypairs");
                    assert("keypairs"@ =~= keypairs_segment());
                }
                Ok(dir)
            },
            None => Err(KeychainError::NoConfigDir),
        }
    }

    /// The keychain's directory.
    pub fn key_dir(&self) -> (r: &str)
        ensures
            r@ == self.dir(),
    {
        self.key_dir.as_str()
    }

    /// Path of the public key file of keypair `name`: `<dir>/<name>.pub`.
    pub fn public_path(&self, name: &KeypairName) -> (r: String)
        ensures
            r@ == self.public_path_of(name@),
    {
        let file = name.public_filename();
        join(self.key_dir.as_str(), file.as_str())
    }

    /// Path of the secret key file of keypair `name`: `<dir>/<name>.sec`.
    pub fn secret_path(&self, name: &KeypairName) -> (r: String)
        ensures
            r@ == self.secret_path_of(name@),
    {
        let file = name.secret_filename();
        join(self.key_dir.as_str(), file.as_str())
    }

    /// Starts an iteration over the keypairs of the keychain, given the
    /// names of the directory's entries as listed (or the listing's failure).
    pub fn iter(&self, listing: Result<Vec<String>, std::io::Error>) -> (r: Result<
        KeychainIter,
        KeychainError,
    >)
        ensures
            match listing {
                Err(e) => r matches Err(KeychainError::BadKeychainDir { error, path }) && error
                    == e && path@ == self.dir(),
                Ok(files) => r matches Ok(it) && it.wf() && it.position() == 0 && it.root()
                    == self.dir() && forall|s: Seq<char>|
                    #![auto]
                    it.names().contains(s) <==> crate::listing::listed(
                        crate::listing::views(files@),
                        s,
                    ),
            },
    {
        KeychainIter::new(self.key_dir.as_str(), listing)
    }

    /// The keypair `name`, from what was found at its two key files
    /// (`public_path` and `secret_path`).
    pub fn get(&self, name: &str, public: Found<PublicKey>, secret: Found<SecretKey>) -> (r:
        Result<Keypair, KeychainError>)
        ensures
            load_post(name@, public, secret, r),
    {
        Keypair::load(name, public, secret)
    }

}

} // verus!
