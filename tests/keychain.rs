use std::collections::BTreeMap;

use saltlick::{PublicKey, SecretKey};
use saltlick_cli::cli::{decrypt_searches_keychain, generate_check, generate_paths, key_source};
use saltlick_cli::{
    Action, CliError, DecryptArgs, Event, Found, GenerateArgs, Job, KeySource, Keychain,
    KeychainError, KeychainIter, Keypair, KeypairName,
};

/// A directory held in memory: file path to what it holds, and paths whose
/// writing or removal fails.
#[derive(Default)]
struct Disk {
    files: BTreeMap<String, Stored>,
    failing: Vec<String>,
}

#[derive(Clone)]
enum Stored {
    Public(PublicKey),
    Secret(SecretKey),
}

fn io_error() -> std::io::Error {
    std::io::Error::new(std::io::ErrorKind::Other, "refused")
}

fn key_io_error() -> saltlick::SaltlickKeyIoError {
    saltlick::SaltlickKeyIoError::from(io_error())
}

impl Disk {
    fn is_file(&self, path: &str) -> bool {
        self.files.contains_key(path)
    }

    fn public(&self, path: &str) -> Found<PublicKey> {
        match self.files.get(path) {
            None => Found::Absent,
            Some(Stored::Public(k)) => Found::Present(Ok(k.clone())),
            Some(_) => Found::Present(Err(key_io_error())),
        }
    }

    fn secret(&self, path: &str) -> Found<SecretKey> {
        match self.files.get(path) {
            None => Found::Absent,
            Some(Stored::Secret(k)) => Found::Present(Ok(k.clone())),
            Some(_) => Found::Present(Err(key_io_error())),
        }
    }

    fn write(&mut self, path: &str, stored: Stored) -> Result<(), saltlick::SaltlickKeyIoError> {
        if self.failing.iter().any(|p| p == path) || self.is_file(path) {
            return Err(key_io_error());
        }
        self.files.insert(String::from(path), stored);
        Ok(())
    }

    fn remove(&mut self, path: &str) -> Result<(), std::io::Error> {
        if self.failing.iter().any(|p| p == path) {
            return Err(io_error());
        }
        match self.files.remove(path) {
            Some(_) => Ok(()),
            None => Err(io_error()),
        }
    }

    fn listing(&self, dir: &str) -> Vec<String> {
        let prefix = format!("{}/", dir);
        self.files.keys().filter_map(|p| p.strip_prefix(&prefix).map(String::from)).collect()
    }
}

fn open(disk: &Disk) -> Keychain {
    let _ = disk;
    Keychain::open_at("/keys", Ok(())).unwrap()
}

fn run(disk: &mut Disk, mut job: Job, mut action: Action) -> Result<Option<Keypair>, KeychainError> {
    loop {
        let event = match action {
            Action::Load { public, secret } => Event::Loaded(disk.public(&public), disk.secret(&secret)),
            Action::Probe { public, secret } => {
                Event::Probed { public: disk.is_file(&public), secret: disk.is_file(&secret) }
            }
            Action::WritePublic(path) => {
                let key = job.to_save().unwrap().public().clone();
                Event::Written(disk.write(&path, Stored::Public(key)))
            }
            Action::WriteSecret(path) => {
                let key = job.to_save().unwrap().secret().clone();
                Event::Written(disk.write(&path, Stored::Secret(key)))
            }
            Action::Remove(path) => Event::Removed(disk.remove(&path)),
            Action::List(dir) => Event::Listed(Ok(disk.listing(&dir))),
            Action::Finish(result) => return result.map(|()| None),
            Action::Found(kp) => return Ok(Some(kp)),
        };
        let (j, a) = job.step(event);
        job = j;
        action = a;
    }
}

fn create(
    kc: &Keychain,
    disk: &mut Disk,
    name: &str,
    public: PublicKey,
    secret: SecretKey,
) -> Result<(), KeychainError> {
    let (job, action) = kc.create(name, public, secret);
    run(disk, job, action).map(|_| ())
}

fn get(kc: &Keychain, disk: &Disk, name: &str) -> Result<Keypair, KeychainError> {
    match KeypairName::new(name) {
        Ok(n) => kc.get(name, disk.public(&kc.public_path(&n)), disk.secret(&kc.secret_path(&n))),
        Err(_) => kc.get(name, Found::Absent, Found::Absent),
    }
}

fn remove(kc: &Keychain, disk: &mut Disk, name: &str) -> Result<(), KeychainError> {
    let (job, action) = kc.remove(name);
    run(disk, job, action).map(|_| ())
}

fn rename(kc: &Keychain, disk: &mut Disk, old: &str, new: &str) -> Result<(), KeychainError> {
    let (job, action) = kc.rename(old, new);
    run(disk, job, action).map(|_| ())
}

fn list(kc: &Keychain, disk: &Disk) -> Vec<Keypair> {
    let mut it = kc.iter(Ok(disk.listing(kc.key_dir()))).unwrap();
    let mut out = Vec::new();
    while let Some(name) = it.pending() {
        let loaded = get(kc, disk, &name);
        if let Some(kp) = it.next(loaded) {
            out.push(kp);
        }
    }
    out
}

fn find(kc: &Keychain, disk: &mut Disk, public: &PublicKey) -> Result<Keypair, KeychainError> {
    let (job, action) = kc.find(public.clone());
    match run(disk, job, action)? {
        Some(kp) => Ok(kp),
        None => Err(KeychainError::PublicKeyNotFound),
    }
}

#[test]
fn crud_keypair_test() {
    let mut disk = Disk::default();
    let keychain = open(&disk);
    let (public, secret) = saltlick::gen_keypair();
    create(&keychain, &mut disk, "test_keypair", public.clone(), secret.clone()).unwrap();
    assert!(disk.is_file("/keys/test_keypair.pub"));
    assert!(disk.is_file("/keys/test_keypair.sec"));

    for i in 0..10 {
        let (public, secret) = saltlick::gen_keypair();
        create(&keychain, &mut disk, &format!("keypair_{}", i), public, secret).unwrap();
    }

    let keypair = get(&keychain, &disk, "test_keypair").unwrap();
    assert_eq!(&public, keypair.public());
    assert_eq!(&secret, keypair.secret());

    let keypair = find(&keychain, &mut disk, &public).unwrap();
    assert_eq!(&public, keypair.public());
    assert_eq!(&secret, keypair.secret());

    let found = list(&keychain, &disk)
        .into_iter()
        .map(|keypair| keypair.name().to_string())
        .find(|name| name == "test_keypair");
    assert_eq!(found, Some(String::from("test_keypair")));

    rename(&keychain, &mut disk, "test_keypair", "renamed_keypair").unwrap();
    let keypair = get(&keychain, &disk, "renamed_keypair").unwrap();
    assert_eq!(&public, keypair.public());
    assert_eq!(&secret, keypair.secret());
    assert!(!disk.is_file("/keys/test_keypair.pub"));
    assert!(!disk.is_file("/keys/test_keypair.sec"));
    assert!(disk.is_file("/keys/renamed_keypair.pub"));
    assert!(disk.is_file("/keys/renamed_keypair.sec"));

    remove(&keychain, &mut disk, "renamed_keypair").unwrap();
    get(&keychain, &disk, "renamed_keypair").unwrap_err();
    assert!(!disk.is_file("/keys/renamed_keypair.pub"));
    assert!(!disk.is_file("/keys/renamed_keypair.sec"));
}

#[test]
fn create_twice_conflicts() {
    let mut disk = Disk::default();
    let kc = open(&disk);
    let (public, secret) = saltlick::gen_keypair();
    create(&kc, &mut disk, "alice", public.clone(), secret.clone()).unwrap();
    let (p2, s2) = saltlick::gen_keypair();
    let err = create(&kc, &mut disk, "alice", p2, s2).unwrap_err();
    assert!(matches!(err, KeychainError::KeypairAlreadyExists { ref name } if name == "alice"));
    let kp = get(&kc, &disk, "alice").unwrap();
    assert_eq!(kp.public(), &public);
    assert_eq!(kp.secret(), &secret);
}

#[test]
fn half_present_pair_refuses_save() {
    let mut disk = Disk::default();
    let kc = open(&disk);
    let (public, secret) = saltlick::gen_keypair();
    disk.files.insert(String::from("/keys/bob.sec"), Stored::Secret(secret.clone()));
    let err = create(&kc, &mut disk, "bob", public, secret).unwrap_err();
    assert!(matches!(err, KeychainError::KeypairAlreadyExists { .. }));
    assert!(!disk.is_file("/keys/bob.pub"));
}

#[test]
fn find_unknown_public_key_fails() {
    let mut disk = Disk::default();
    let kc = open(&disk);
    let (public, secret) = saltlick::gen_keypair();
    create(&kc, &mut disk, "alice", public.clone(), secret).unwrap();
    assert_eq!(find(&kc, &mut disk, &public).unwrap().name().as_str(), "alice");
    let (other, _) = saltlick::gen_keypair();
    assert!(matches!(find(&kc, &mut disk, &other), Err(KeychainError::PublicKeyNotFound)));
}

#[test]
fn remove_then_get_not_found() {
    let mut disk = Disk::default();
    let kc = open(&disk);
    let (public, secret) = saltlick::gen_keypair();
    create(&kc, &mut disk, "alice", public, secret).unwrap();
    remove(&kc, &mut disk, "alice").unwrap();
    assert!(!disk.is_file("/keys/alice.pub"));
    assert!(!disk.is_file("/keys/alice.sec"));
    let err = get(&kc, &disk, "alice").unwrap_err();
    assert!(matches!(err, KeychainError::KeypairNotFound { ref name } if name == "alice"));
    assert!(matches!(remove(&kc, &mut disk, "alice"), Err(KeychainError::KeypairNotFound { .. })));
}

#[test]
fn rename_moves_and_refuses_taken_name() {
    let mut disk = Disk::default();
    let kc = open(&disk);
    let (public, secret) = saltlick::gen_keypair();
    create(&kc, &mut disk, "alice", public.clone(), secret.clone()).unwrap();
    rename(&kc, &mut disk, "alice", "bob").unwrap();
    let kp = get(&kc, &disk, "bob").unwrap();
    assert_eq!(kp.public(), &public);
    assert_eq!(kp.secret(), &secret);
    assert!(matches!(get(&kc, &disk, "alice"), Err(KeychainError::KeypairNotFound { .. })));

    let (p2, s2) = saltlick::gen_keypair();
    create(&kc, &mut disk, "carol", p2, s2).unwrap();
    let err = rename(&kc, &mut disk, "bob", "carol").unwrap_err();
    assert!(matches!(err, KeychainError::KeypairAlreadyExists { ref name } if name == "carol"));
    let kp = get(&kc, &disk, "bob").unwrap();
    assert_eq!(kp.public(), &public);
}

#[test]
fn rename_with_failed_removal_is_incomplete() {
    let mut disk = Disk::default();
    let kc = open(&disk);
    let (public, secret) = saltlick::gen_keypair();
    create(&kc, &mut disk, "alice", public.clone(), secret).unwrap();
    disk.failing.push(String::from("/keys/alice.sec"));
    let r = rename(&kc, &mut disk, "alice", "bob");
    assert!(matches!(r, Err(KeychainError::RenameIncomplete { ref old_name, ref new_name, .. })
        if old_name == "alice" && new_name == "bob"));
    assert_eq!(get(&kc, &disk, "bob").unwrap().public(), &public);
    assert!(!disk.is_file("/keys/alice.pub"));
    assert!(disk.is_file("/keys/alice.sec"));
}

#[test]
fn rename_onto_itself_conflicts() {
    let mut disk = Disk::default();
    let kc = open(&disk);
    let (public, secret) = saltlick::gen_keypair();
    create(&kc, &mut disk, "a", public.clone(), secret).unwrap();
    let r = rename(&kc, &mut disk, "a", "a");
    assert!(matches!(r, Err(KeychainError::KeypairAlreadyExists { ref name }) if name == "a"));
    assert_eq!(get(&kc, &disk, "a").unwrap().public(), &public);
}

#[test]
fn rename_of_missing_keypair_creates_nothing() {
    let mut disk = Disk::default();
    let kc = open(&disk);
    let r = rename(&kc, &mut disk, "ghost", "bob");
    assert!(matches!(r, Err(KeychainError::KeypairNotFound { ref name }) if name == "ghost"));
    assert!(disk.files.is_empty());
    let r = rename(&kc, &mut disk, "ghost", "bad name");
    assert!(matches!(r, Err(KeychainError::KeypairNotFound { .. })));
}

#[test]
fn invalid_names_are_refused_before_any_access() {
    let mut disk = Disk::default();
    let kc = open(&disk);
    let (public, secret) = saltlick::gen_keypair();
    let err = create(&kc, &mut disk, "bad name", public.clone(), secret.clone()).unwrap_err();
    assert!(matches!(err, KeychainError::InvalidKeypairName { ref name, error: saltlick_cli::InvalidKeypairName::BadChar(' ') } if name == "bad name"));
    let err = kc.get("", Found::Absent, Found::Absent).unwrap_err();
    assert!(matches!(err, KeychainError::InvalidKeypairName { error: saltlick_cli::InvalidKeypairName::Empty, .. }));
    create(&kc, &mut disk, "alice", public, secret).unwrap();
    let err = rename(&kc, &mut disk, "alice", "a/b").unwrap_err();
    assert!(matches!(err, KeychainError::InvalidKeypairName { error: saltlick_cli::InvalidKeypairName::BadChar('/'), .. }));
    assert!(disk.is_file("/keys/alice.pub"));
}

#[test]
fn unreadable_key_file_is_load_error() {
    let kc = Keychain::open_at("/keys", Ok(())).unwrap();
    let (_, secret) = saltlick::gen_keypair();
    let r = kc.get("alice", Found::Present(Err(key_io_error())), Found::Present(Ok(secret)));
    assert!(matches!(r, Err(KeychainError::LoadError { ref name, .. }) if name == "alice"));
    let (public, _) = saltlick::gen_keypair();
    let r = kc.get("alice", Found::Present(Ok(public)), Found::Present(Err(key_io_error())));
    assert!(matches!(r, Err(KeychainError::LoadError { .. })));
}

#[test]
fn delete_reports_failure_on_present_file() {
    let mut disk = Disk::default();
    let kc = open(&disk);
    let (public, secret) = saltlick::gen_keypair();
    create(&kc, &mut disk, "alice", public, secret).unwrap();
    disk.failing.push(String::from("/keys/alice.pub"));
    let r = remove(&kc, &mut disk, "alice");
    assert!(matches!(r, Err(KeychainError::DeleteError { ref name, .. }) if name == "alice"));
    assert!(!disk.is_file("/keys/alice.sec"));
}

#[test]
fn remove_of_incomplete_pair_deletes_nothing() {
    let mut disk = Disk::default();
    let kc = open(&disk);
    let (public, _) = saltlick::gen_keypair();
    disk.files.insert(String::from("/keys/x.pub"), Stored::Public(public));
    let r = remove(&kc, &mut disk, "x");
    assert!(matches!(r, Err(KeychainError::KeypairNotFound { .. })));
    assert!(disk.is_file("/keys/x.pub"));
}

#[test]
fn save_write_failure_is_save_error() {
    let mut disk = Disk::default();
    let kc = open(&disk);
    let (public, secret) = saltlick::gen_keypair();
    disk.failing.push(String::from("/keys/alice.pub"));
    let r = create(&kc, &mut disk, "alice", public, secret);
    assert!(matches!(r, Err(KeychainError::SaveError { ref name, .. }) if name == "alice"));
    assert!(!disk.is_file("/keys/alice.sec"));
}

#[test]
fn find_in_unlistable_directory_is_bad_keychain_dir() {
    let kc = Keychain::open_at("/keys", Ok(())).unwrap();
    let (public, _) = saltlick::gen_keypair();
    let (job, action) = kc.find(public);
    assert!(matches!(action, Action::List(ref d) if d == "/keys"));
    let (_, action) = job.step(Event::Listed(Err(io_error())));
    assert!(matches!(action, Action::Finish(Err(KeychainError::BadKeychainDir { ref path, .. })) if path == "/keys"));
}

#[test]
fn keychain_dir_of_config() {
    assert_eq!(Keychain::keychain_dir_of(Some(String::from("/home/u/.config/saltlick"))).unwrap(), "/home/u/.config/saltlick/keypairs");
    assert!(matches!(Keychain::keychain_dir_of(None), Err(KeychainError::NoConfigDir)));
}

#[test]
fn incomplete_pair_is_not_listed() {
    let mut disk = Disk::default();
    let kc = open(&disk);
    let (public, secret) = saltlick::gen_keypair();
    disk.files.insert(String::from("/keys/x.pub"), Stored::Public(public.clone()));
    create(&kc, &mut disk, "y", public, secret).unwrap();
    let names: Vec<String> = list(&kc, &disk).iter().map(|k| k.name().to_string()).collect();
    assert_eq!(names, vec![String::from("y")]);
}

#[test]
fn empty_keychain_lists_nothing() {
    let disk = Disk::default();
    let kc = open(&disk);
    let mut it = kc.iter(Ok(Vec::new())).unwrap();
    assert_eq!(it.pending(), None);
    assert!(list(&kc, &disk).is_empty());
    assert!(it.pending().is_none());
    let _ = &mut it;
}

#[test]
fn listing_deduplicates_and_skips_other_files() {
    let files = vec![
        String::from("a.pub"),
        String::from("a.sec"),
        String::from("notes.txt"),
        String::from("b.sec"),
        String::from(".pub"),
    ];
    let mut it = KeychainIter::new("/keys", Ok(files)).unwrap();
    let mut names = Vec::new();
    while let Some(n) = it.pending() {
        names.push(n);
        let _ = it.next(Err(KeychainError::PublicKeyNotFound));
    }
    names.sort();
    assert_eq!(names, vec![String::from("a"), String::from("b")]);
    assert_eq!(it.root_path(), "/keys");
}

#[test]
fn unlistable_directory_is_bad_keychain_dir() {
    let r = KeychainIter::new("/nowhere", Err(io_error()));
    assert!(matches!(r, Err(KeychainError::BadKeychainDir { ref path, .. }) if path == "/nowhere"));
}

#[test]
fn failed_directory_creation_is_open_error() {
    let r = Keychain::open_at("/keys", Err(io_error()));
    assert!(matches!(r, Err(KeychainError::BadKeychainDir { ref path, .. }) if path == "/keys"));
    let kc = Keychain::open_at("/keys", Ok(())).unwrap();
    assert_eq!(kc.key_dir(), "/keys");
    let n = KeypairName::new("alice").unwrap();
    assert_eq!(kc.public_path(&n), "/keys/alice.pub");
    assert_eq!(kc.secret_path(&n), "/keys/alice.sec");
}

#[test]
fn default_dir_ends_in_keypairs() {
    match Keychain::default_dir() {
        Ok(dir) => assert!(dir.ends_with("/keypairs")),
        Err(e) => assert!(matches!(e, KeychainError::NoConfigDir)),
    }
}

#[test]
fn key_source_needs_exactly_one() {
    let path = Some(String::from("k.pem"));
    let name = Some(String::from("alice"));
    assert_eq!(key_source(path.clone(), None, "public").unwrap(), KeySource::File(String::from("k.pem")));
    assert_eq!(key_source(None, name.clone(), "public").unwrap(), KeySource::Keychain(String::from("alice")));
    assert!(matches!(key_source(path, name, "secret"), Err(CliError::BothKeyAndPath { ref type_ }) if type_ == "secret"));
    assert!(matches!(key_source(None, None, "public"), Err(CliError::MissingKeyAndPath { ref type_ }) if type_ == "public"));
}

#[test]
fn generate_defaults_and_existing_files() {
    let (p, s) = generate_paths(GenerateArgs { public: None, secret: None });
    assert_eq!((p.as_str(), s.as_str()), ("public.pem", "secret.pem"));
    let (p, s) = generate_paths(GenerateArgs { public: Some(String::from("a")), secret: None });
    assert_eq!((p.as_str(), s.as_str()), ("a", "secret.pem"));
    assert!(generate_check("p", "s", false, false).is_ok());
    assert!(matches!(generate_check("p", "s", true, true), Err(CliError::KeyExists { ref path, ref type_ }) if path == "p" && type_ == "public"));
    assert!(matches!(generate_check("p", "s", false, true), Err(CliError::KeyExists { ref path, ref type_ }) if path == "s" && type_ == "secret"));
}

#[test]
fn decrypt_searches_keychain_without_key_options() {
    let mut args = DecryptArgs { force: false, infile: None, key: None, public: None, secret: None, outfile: None };
    assert!(decrypt_searches_keychain(&args));
    args.key = Some(String::from("alice"));
    assert!(!decrypt_searches_keychain(&args));
}
