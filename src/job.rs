use vstd::prelude::*;

use saltlick::{PublicKey, SaltlickKeyIoError, SecretKey};

use crate::error::KeychainError;
use crate::keychain::{load_post, Found, Keychain, Keypair};
use crate::keys::same_public_key;
use crate::listing::KeychainIter;
use crate::name::{public_filename_of, secret_filename_of, validation_of, KeypairName};
use crate::path::{join, join_spec};

verus! {

/// Path of the public key file of keypair `name` in directory `dir`.
pub open spec fn public_path_in(dir: Seq<char>, name: Seq<char>) -> Seq<char> {
    join_spec(dir, public_filename_of(name))
}

/// Path of the secret key file of keypair `name` in directory `dir`.
pub open spec fn secret_path_in(dir: Seq<char>, name: Seq<char>) -> Seq<char> {
    join_spec(dir, secret_filename_of(name))
}

/// Whether loading keypair `name` from what its files showed succeeds.
pub open spec fn loads(name: Seq<char>, public: Found<PublicKey>, secret: Found<SecretKey>) -> bool {
    &&& validation_of(name) is Ok
    &&& (public matches Found::Present(Ok(_)))
    &&& (secret matches Found::Present(Ok(_)))
}

/// The keychain operations that take more than one filesystem call.
#[derive(Debug, Clone, Copy, PartialEq, Eq, Structural)]
pub enum JobKind {
    Create,
    Remove,
    Rename,
    Find,
}

/// Where an operation stands: which answer it waits for.
#[derive(Debug)]
pub enum Phase {
    /// Waits for `Event::Loaded` of the keypair to remove or rename.
    Loading,
    /// Waits for `Event::Probed` of the files of the keypair to save.
    ProbingTarget,
    /// Waits for `Event::Written` of the public key file.
    WritingPublic,
    /// Waits for `Event::Written` of the secret key file.
    WritingSecret,
    /// Waits for `Event::Probed` of the files to remove.
    ProbingOld,
    /// Waits for `Event::Removed` of the public key file.
    RemovingPublic { secret_present: bool },
    /// Waits for `Event::Removed` of the secret key file.
    RemovingSecret { public_failure: Option<std::io::Error> },
    /// Waits for `Event::Listed` of the keychain directory.
    Listing,
    /// Waits for `Event::Loaded` of the pending candidate of the search.
    Searching,
    /// Nothing more to do.
    Finished,
}

/// How a removal ends, given the failure to remove the public key file, if
/// any, and the outcome for the secret key file: `Ok` where nothing failed;
/// else the first failure, as `DeleteError` for a remove and as
/// `RenameIncomplete` for a rename (the new name was saved by then).
pub open spec fn removal_end(
    j: Job,
    public_failure: Option<std::io::Error>,
    secret: Result<(), std::io::Error>,
    a: Action,
) -> bool {
    if public_failure is None && secret is Ok {
        a matches Action::Finish(Ok(()))
    } else {
        let first = match public_failure {
            Some(e) => e,
            None => secret->Err_0,
        };
        a matches Action::Finish(Err(err)) && (j.kind() is Remove ==> (err matches
            KeychainError::DeleteError { name, error } && name@ == j.name() && error == first)) && (
        j.kind() is Rename ==> (err matches KeychainError::RenameIncomplete {
            old_name,
            new_name,
            error,
        } && old_name@ == j.name() && new_name@ == j.new_name() && error == first))
    }
}

/// A search that goes on: it asks to load its pending candidate, or, with no
/// candidate left, ends with `PublicKeyNotFound`.
pub open spec fn search_goes_on(n: Job, a: Action) -> bool {
    &&& n.search() is Some
    &&& n.search()->0.wf()
    &&& match a {
        Action::Load { public, secret } => {
            let it = n.search()->0;
            let c = it.names()[it.position() as int];
            &&& n.phase() is Searching
            &&& public@ == public_path_in(n.dir(), c)
            &&& secret@ == secret_path_in(n.dir(), c)
        },
        Action::Finish(Err(KeychainError::PublicKeyNotFound)) => n.search()->0.position()
            == n.search()->0.names().len(),
        _ => false,
    }
}

/// What one step of job `j` on answer `e` gives: the job `r.0` and its next
/// action `r.1`.
pub open spec fn step_post(j: Job, e: Event, r: (Job, Action)) -> bool {
    let n = r.0;
    let a = r.1;
    &&& n.wf()
    &&& n.kind() == j.kind() && n.dir() == j.dir() && n.name() == j.name() && n.new_name()
        == j.new_name() && n.searched() == j.searched()
    &&& (a is Finish || a is Found) <==> n.phase() is Finished
    &&& j.saved() ==> n.saved()
    &&& a is Remove ==> (j.kind() is Remove || n.saved())
    &&& match (j.phase(), e) {
        (Phase::Loading, Event::Loaded(p, s)) => if !loads(j.name(), p, s) {
            a matches Action::Finish(Err(err)) && load_post(j.name(), p, s, Err(err))
        } else if j.kind() is Remove {
            a matches Action::Probe { public, secret } && public@ == public_path_in(
                j.dir(),
                j.name(),
            ) && secret@ == secret_path_in(j.dir(), j.name()) && n.phase() is ProbingOld
        } else {
            match validation_of(j.new_name()) {
                Err(x) => a matches Action::Finish(
                    Err(KeychainError::InvalidKeypairName { name, error }),
                ) && name@ == j.new_name() && error == x,
                Ok(_) => a matches Action::Probe { public, secret } && public@ == public_path_in(
                    j.dir(),
                    j.new_name(),
                ) && secret@ == secret_path_in(j.dir(), j.new_name()) && n.phase() is ProbingTarget
                    && (n.target() matches Some(t) && t.name_view() == j.new_name()
                    && t.public_key() == p->Present_0->Ok_0 && t.secret_key()
                    == s->Present_0->Ok_0),
            }
        },
        (Phase::ProbingTarget, Event::Probed { public: x, secret: y }) => if x || y {
            a matches Action::Finish(Err(KeychainError::KeypairAlreadyExists { name })) && name@
                == j.target()->0.name_view()
        } else {
            a matches Action::WritePublic(path) && path@ == public_path_in(
                j.dir(),
                j.target()->0.name_view(),
            ) && n.phase() is WritingPublic && n.target() == j.target()
        },
        (Phase::WritingPublic, Event::Written(w)) => match w {
            Err(x) => a matches Action::Finish(Err(KeychainError::SaveError { name, error }))
                && name@ == j.target()->0.name_view() && error == x,
            Ok(()) => a matches Action::WriteSecret(path) && path@ == secret_path_in(
                j.dir(),
                j.target()->0.name_view(),
            ) && n.phase() is WritingSecret && n.target() == j.target(),
        },
        (Phase::WritingSecret, Event::Written(w)) => match w {
            Err(x) => a matches Action::Finish(Err(KeychainError::SaveError { name, error }))
                && name@ == j.target()->0.name_view() && error == x,
            Ok(()) => n.saved() && if j.kind() is Rename {
                a matches Action::Probe { public, secret } && public@ == public_path_in(
                    j.dir(),
                    j.name(),
                ) && secret@ == secret_path_in(j.dir(), j.name()) && n.phase() is ProbingOld
            } else {
                a matches Action::Finish(Ok(()))
            },
        },
        (Phase::ProbingOld, Event::Probed { public: x, secret: y }) => if x {
            a matches Action::Remove(path) && path@ == public_path_in(j.dir(), j.name())
                && n.phase() == (Phase::RemovingPublic { secret_present: y })
        } else if y {
            a matches Action::Remove(path) && path@ == secret_path_in(j.dir(), j.name())
                && (n.phase() matches Phase::RemovingSecret { public_failure }
                && public_failure is None)
        } else {
            a matches Action::Finish(Ok(()))
        },
        (Phase::RemovingPublic { secret_present }, Event::Removed(x)) => if secret_present {
            a matches Action::Remove(path) && path@ == secret_path_in(j.dir(), j.name())
                && (n.phase() matches Phase::RemovingSecret { public_failure }
                && public_failure == match x {
                Ok(()) => None,
                Err(f) => Some(f),
            })
        } else {
            removal_end(j, match x {
                Ok(()) => None,
                Err(f) => Some(f),
            }, Ok(()), a)
        },
        (Phase::RemovingSecret { public_failure }, Event::Removed(x)) => removal_end(
            j,
            public_failure,
            x,
            a,
        ),
        (Phase::Listing, Event::Listed(l)) => match l {
            Err(x) => a matches Action::Finish(Err(KeychainError::BadKeychainDir { path, error }))
                && path@ == j.dir() && error == x,
            Ok(files) => search_goes_on(n, a) && n.search()->0.root() == j.dir() && forall|
                s: Seq<char>,
            |
                #![auto]
                n.search()->0.names().contains(s) <==> crate::listing::listed(
                    crate::listing::views(files@),
                    s,
                ),
        },
        (Phase::Searching, Event::Loaded(p, s)) => {
            let it = j.search()->0;
            let c = it.names()[it.position() as int];
            if loads(c, p, s) && p->Present_0->Ok_0 == j.searched()->0 {
                a matches Action::Found(kp) && kp.name_view() == c && kp.public_key()
                    == j.searched()->0 && kp.secret_key() == s->Present_0->Ok_0
            } else {
                search_goes_on(n, a) && n.search()->0.names() == it.names()
                    && n.search()->0.position() > it.position()
            }
        },
        _ => true,
    }
}

/// A filesystem call that an operation asks for, or its end.
#[derive(Debug)]
pub enum Action {
    /// Look at both key files: is each a regular file, and if both are, read
    /// each as a key. Answer with `Event::Loaded`.
    Load { public: String, secret: String },
    /// Say whether a regular file stands at each path. Answer with `Event::Probed`.
    Probe { public: String, secret: String },
    /// Write the public key of `Job::to_save` to this new file. Answer with `Event::Written`.
    WritePublic(String),
    /// Write the secret key of `Job::to_save` to this new file. Answer with `Event::Written`.
    WriteSecret(String),
    /// Remove this file. Answer with `Event::Removed`.
    Remove(String),
    /// List the names of the entries of this directory. Answer with `Event::Listed`.
    List(String),
    /// The operation is over, with this result.
    Finish(Result<(), KeychainError>),
    /// A search is over: this keypair has the public key searched for.
    Found(Keypair),
}

/// The answer to an `Action`.
#[derive(Debug)]
pub enum Event {
    Loaded(Found<PublicKey>, Found<SecretKey>),
    Probed { public: bool, secret: bool },
    Written(Result<(), SaltlickKeyIoError>),
    Removed(Result<(), std::io::Error>),
    Listed(Result<Vec<String>, std::io::Error>),
}

/// A keychain operation in progress: the decisions between its filesystem calls.
pub struct Job {
    kind: JobKind,
    phase: Phase,
    dir: String,
    name: String,
    new_name: String,
    old: Option<KeypairName>,
    target: Option<Keypair>,
    public: Option<PublicKey>,
    iter: Option<KeychainIter>,
    saved: Ghost<bool>,
}

/// The two key file paths of keypair `n` in directory `dir`.
fn paths_of(dir: &str, n: &KeypairName) -> (r: (String, String))
    ensures
        r.0@ == public_path_in(dir@, n@),
        r.1@ == secret_path_in(dir@, n@),
{
    let p = n.public_filename();
    let s = n.secret_filename();
    (join(dir, p.as_str()), join(dir, s.as_str()))
}

impl Job {
    pub closed spec fn kind(&self) -> JobKind {
        self.kind
    }

    pub closed spec fn phase(&self) -> Phase {
        self.phase
    }

    /// The keychain directory.
    pub closed spec fn dir(&self) -> Seq<char> {
        self.dir@
    }

    /// The name of the keypair that is removed or renamed.
    pub closed spec fn name(&self) -> Seq<char> {
        self.name@
    }

    /// The name that a rename gives.
    pub closed spec fn new_name(&self) -> Seq<char> {
        self.new_name@
    }

    /// The keypair being saved, once known.
    pub closed spec fn target(&self) -> Option<Keypair> {
        self.target
    }

    /// The public key searched for.
    pub closed spec fn searched(&self) -> Option<PublicKey> {
        self.public
    }

    /// The candidates of a search.
    pub closed spec fn search(&self) -> Option<KeychainIter> {
        self.iter
    }

    /// Whether both key files of the keypair being saved were written.
    pub closed spec fn saved(&self) -> bool {
        self.saved@
    }

    /// The operation's invariant.
    pub closed spec fn wf(&self) -> bool {
        &&& (self.phase is ProbingTarget || self.phase is WritingPublic
            || self.phase is WritingSecret) ==> self.target is Some
        &&& (self.phase is ProbingOld || self.phase is RemovingPublic
            || self.phase is RemovingSecret) ==> self.old is Some && self.old->0@ == self.name@
        &&& (self.phase is ProbingOld || self.phase is RemovingPublic
            || self.phase is RemovingSecret) && self.kind is Rename ==> self.saved@
        &&& (self.phase is ProbingOld || self.phase is RemovingPublic
            || self.phase is RemovingSecret) ==> self.kind is Remove || self.kind is Rename
        &&& self.phase is Loading ==> self.kind is Remove || self.kind is Rename
        &&& (self.phase is ProbingTarget || self.phase is WritingPublic
            || self.phase is WritingSecret) && self.kind is Rename ==> self.old is Some
            && self.old->0@ == self.name@
        &&& self.phase is Loading ==> validation_of(self.name@) is Ok
        &&& self.phase is Searching ==> self.public is Some && self.iter is Some && self.iter->0.wf()
            && self.iter->0.position() < self.iter->0.names().len() && validation_of(
            self.iter->0.names()[self.iter->0.position() as int],
        ) is Ok
        &&& self.phase is Listing ==> self.public is Some
    }

    /// Whether `e` answers the action that the operation asked for last.
    pub open spec fn awaits(&self, e: Event) -> bool {
        match self.phase() {
            Phase::Loading | Phase::Searching => e is Loaded,
            Phase::ProbingTarget | Phase::ProbingOld => e is Probed,
            Phase::WritingPublic | Phase::WritingSecret => e is Written,
            Phase::RemovingPublic { .. } | Phase::RemovingSecret { .. } => e is Removed,
            Phase::Listing => e is Listed,
            Phase::Finished => false,
        }
    }

    /// The keypair whose keys a `WritePublic` or `WriteSecret` asks to write.
    pub fn to_save(&self) -> (r: Option<&Keypair>)
        ensures
            r is Some <==> self.target() is Some,
            r matches Some(k) ==> *k == self.target()->0,
    {
        self.target.as_ref()
    }

    fn new(kind: JobKind, dir: &str, name: &str, new_name: &str) -> (r: Job)
        ensures
            r.kind() == kind,
            r.dir() == dir@,
            r.name() == name@,
            r.new_name() == new_name@,
            r.phase() is Finished,
            r.target() is None,
            !r.saved(),
            r.wf(),
    {
        Job {
            kind,
            phase: Phase::Finished,
            dir: dir.to_string(),
            name: name.to_string(),
            new_name: new_name.to_string(),
            old: None,
            target: None,
            public: None,
            iter: None,
            saved: Ghost(false),
        }
    }
}

/// Moves `it` to its first candidate, from its position on, that is a valid
/// name (the others cannot load and are skipped), and gives that candidate's
/// two key file paths, or `None` with no candidate left.
fn seek(from: KeychainIter, dir: &str) -> (r: (KeychainIter, Option<(String, String)>))
    requires
        from.wf(),
    ensures
        r.0.wf(),
        r.0.names() == from.names(),
        r.0.root() == from.root(),
        r.0.position() >= from.position(),
        match r.1 {
            Some(ps) => r.0.position() < r.0.names().len() && validation_of(
                r.0.names()[r.0.position() as int],
            ) is Ok && ps.0@ == public_path_in(dir@, r.0.names()[r.0.position() as int])
                && ps.1@ == secret_path_in(dir@, r.0.names()[r.0.position() as int]),
            None => r.0.position() == r.0.names().len(),
        },
{
    let ghost names = from.names();
    let ghost root = from.root();
    let ghost start = from.position();
    let mut it = from;
    loop
        invariant
            it.wf(),
            it.position() >= start,
            it.names() == names,
            it.root() == root,
            names == from.names(),
            root == from.root(),
            start == from.position(),
        decreases it.names().len() - it.position(),
    {
        match it.pending() {
            None => {
                return (it, None);
            },
            Some(c) => match KeypairName::new(c.as_str()) {
                Ok(n) => {
                    let ps = paths_of(dir, &n);
                    return (it, Some(ps));
                },
                Err(_) => {
                    let _ = it.next(Err(KeychainError::PublicKeyNotFound));
                },
            },
        }
    }
}

impl Keychain {
    /// Starts storing `public` and `secret` as keypair `name`: the name is
    /// validated first, then both key files are looked at, and only where
    /// neither is there are they written, the public one first.
    pub fn create(&self, name: &str, public: PublicKey, secret: SecretKey) -> (r: (Job, Action))
        ensures
            r.0.wf(),
            r.0.kind() is Create,
            r.0.dir() == self.dir(),
            r.0.name() == name@,
            !r.0.saved(),
            match validation_of(name@) {
                Err(x) => r.1 matches Action::Finish(
                    Err(KeychainError::InvalidKeypairName { name: n, error }),
                ) && n@ == name@ && error == x && r.0.phase() is Finished,
                Ok(v) => r.1 matches Action::Probe { public: p, secret: s } && p@ == public_path_in(
                    self.dir(),
                    name@,
                ) && s@ == secret_path_in(self.dir(), name@) && r.0.phase() is ProbingTarget
                    && (r.0.target() matches Some(t) && t.name_view() == v && t.public_key()
                    == public && t.secret_key() == secret),
            },
    {
        let mut job = Job::new(JobKind::Create, self.key_dir(), name, name);
        match KeypairName::new(name) {
            Err(error) => (
                job,
                Action::Finish(Err(KeychainError::InvalidKeypairName { name: name.to_string(), error })),
            ),
            Ok(n) => {
                let (p, s) = paths_of(self.key_dir(), &n);
                job.target = Some(Keypair::assemble(n, public, secret));
                job.phase = Phase::ProbingTarget;
                (job, Action::Probe { public: p, secret: s })
            },
        }
    }

    fn start_with_load(&self, kind: JobKind, name: &str, new_name: &str) -> (r: (Job, Action))
        requires
            kind is Remove || kind is Rename,
        ensures
            r.0.wf(),
            r.0.kind() == kind,
            r.0.dir() == self.dir(),
            r.0.name() == name@,
            r.0.new_name() == new_name@,
            !r.0.saved(),
            match validation_of(name@) {
                Err(x) => r.1 matches Action::Finish(
                    Err(KeychainError::InvalidKeypairName { name: n, error }),
                ) && n@ == name@ && error == x && r.0.phase() is Finished,
                Ok(_) => r.1 matches Action::Load { public: p, secret: s } && p@ == public_path_in(
                    self.dir(),
                    name@,
                ) && s@ == secret_path_in(self.dir(), name@) && r.0.phase() is Loading,
            },
    {
        let mut job = Job::new(kind, self.key_dir(), name, new_name);
        match KeypairName::new(name) {
            Err(error) => (
                job,
                Action::Finish(Err(KeychainError::InvalidKeypairName { name: name.to_string(), error })),
            ),
            Ok(n) => {
                let (p, s) = paths_of(self.key_dir(), &n);
                job.phase = Phase::Loading;
                (job, Action::Load { public: p, secret: s })
            },
        }
    }

    /// Starts removing keypair `name`: it is loaded first, and a failed load
    /// ends the removal with that error and nothing removed; then each of
    /// its files that is there is removed (an absent one counts as removed).
    pub fn remove(&self, name: &str) -> (r: (Job, Action))
        ensures
            r.0.wf(),
            r.0.kind() is Remove,
            r.0.dir() == self.dir(),
            r.0.name() == name@,
            match validation_of(name@) {
                Err(x) => r.1 matches Action::Finish(
                    Err(KeychainError::InvalidKeypairName { name: n, error }),
                ) && n@ == name@ && error == x && r.0.phase() is Finished,
                Ok(_) => r.1 matches Action::Load { public: p, secret: s } && p@ == public_path_in(
                    self.dir(),
                    name@,
                ) && s@ == secret_path_in(self.dir(), name@) && r.0.phase() is Loading,
            },
    {
        self.start_with_load(JobKind::Remove, name, name)
    }

    /// Starts renaming keypair `old_name` to `new_name`: `old_name` is loaded,
    /// its keys are saved under `new_name` as a create does, and only after
    /// both files were written are the old files removed. Any failure before
    /// that ends the rename with nothing removed; a failed removal after it
    /// ends with `RenameIncomplete`.
    pub fn rename(&self, old_name: &str, new_name: &str) -> (r: (Job, Action))
        ensures
            r.0.wf(),
            r.0.kind() is Rename,
            r.0.dir() == self.dir(),
            r.0.name() == old_name@,
            r.0.new_name() == new_name@,
            !r.0.saved(),
            match validation_of(old_name@) {
                Err(x) => r.1 matches Action::Finish(
                    Err(KeychainError::InvalidKeypairName { name: n, error }),
                ) && n@ == old_name@ && error == x && r.0.phase() is Finished,
                Ok(_) => r.1 matches Action::Load { public: p, secret: s } && p@ == public_path_in(
                    self.dir(),
                    old_name@,
                ) && s@ == secret_path_in(self.dir(), old_name@) && r.0.phase() is Loading,
            },
    {
        self.start_with_load(JobKind::Rename, old_name, new_name)
    }

    /// Starts searching the keychain for the keypair whose public key is
    /// `public`: the directory is listed, then its candidates are loaded one
    /// by one until one has that key.
    pub fn find(&self, public: PublicKey) -> (r: (Job, Action))
        ensures
            r.0.wf(),
            r.0.kind() is Find,
            r.0.dir() == self.dir(),
            r.0.searched() == Some(public),
            r.0.phase() is Listing,
            r.1 matches Action::List(d) && d@ == self.dir(),
    {
        let mut job = Job::new(JobKind::Find, self.key_dir(), "", "");
        job.public = Some(public);
        job.phase = Phase::Listing;
        let d = self.key_dir().to_string();
        (job, Action::List(d))
    }
}

impl Job {
    /// Takes the answer `event` to the last action and decides the next one.
    pub fn step(self, event: Event) -> (r: (Job, Action))
        requires
            self.wf(),
            self.awaits(event),
        ensures
            step_post(self, event, r),
    {
        let Job { kind, phase, dir, name, new_name, old, target, public, iter, saved } = self;
        match (phase, event) {
            (Phase::Loading, Event::Loaded(p, s)) => {
                match Keypair::load(name.as_str(), p, s) {
                    Err(e) => {
                        let job = Job { kind, phase: Phase::Finished, dir, name, new_name, old, target, public, iter, saved };
                        (job, Action::Finish(Err(e)))
                    },
                    Ok(kp) => {
                        let n = kp.name().clone();
                        if kind == JobKind::Remove {
                            let (pp, sp) = paths_of(dir.as_str(), &n);
                            let job = Job { kind, phase: Phase::ProbingOld, dir, name, new_name, old: Some(n), target, public, iter, saved };
                            (job, Action::Probe { public: pp, secret: sp })
                        } else {
                            match KeypairName::new(new_name.as_str()) {
                                Err(error) => {
                                    let err = KeychainError::InvalidKeypairName { name: new_name.clone(), error };
                                    let job = Job { kind, phase: Phase::Finished, dir, name, new_name, old, target, public, iter, saved };
                                    (job, Action::Finish(Err(err)))
                                },
                                Ok(nn) => {
                                    let (pp, sp) = paths_of(dir.as_str(), &nn);
                                    let t = kp.renamed(nn);
                                    let job = Job { kind, phase: Phase::ProbingTarget, dir, name, new_name, old: Some(n), target: Some(t), public, iter, saved };
                                    (job, Action::Probe { public: pp, secret: sp })
                                },
                            }
                        }
                    },
                }
            },
            (Phase::ProbingTarget, Event::Probed { public: x, secret: y }) => {
                let t = match target {
                    Some(t) => t,
                    None => {
                        proof {
                            assert(false);
                        }
                        return vstd::pervasive::unreached();
                    },
                };
                match t.save_check(x, y) {
                    Err(e) => {
                        let job = Job { kind, phase: Phase::Finished, dir, name, new_name, old, target: Some(t), public, iter, saved };
                        (job, Action::Finish(Err(e)))
                    },
                    Ok(()) => {
                        let (pp, _) = paths_of(dir.as_str(), t.name());
                        let job = Job { kind, phase: Phase::WritingPublic, dir, name, new_name, old, target: Some(t), public, iter, saved };
                        (job, Action::WritePublic(pp))
                    },
                }
            },
            (Phase::WritingPublic, Event::Written(w)) => {
                let t = match target {
                    Some(t) => t,
                    None => {
                        proof {
                            assert(false);
                        }
                        return vstd::pervasive::unreached();
                    },
                };
                match t.save_outcome(w) {
                    Err(e) => {
                        let job = Job { kind, phase: Phase::Finished, dir, name, new_name, old, target: Some(t), public, iter, saved };
                        (job, Action::Finish(Err(e)))
                    },
                    Ok(()) => {
                        let (_, sp) = paths_of(dir.as_str(), t.name());
                        let job = Job { kind, phase: Phase::WritingSecret, dir, name, new_name, old, target: Some(t), public, iter, saved };
                        (job, Action::WriteSecret(sp))
                    },
                }
            },
            (Phase::WritingSecret, Event::Written(w)) => {
                let t = match target {
                    Some(t) => t,
                    None => {
                        proof {
                            assert(false);
                        }
                        return vstd::pervasive::unreached();
                    },
                };
                match t.save_outcome(w) {
                    Err(e) => {
                        let job = Job { kind, phase: Phase::Finished, dir, name, new_name, old, target: Some(t), public, iter, saved };
                        (job, Action::Finish(Err(e)))
                    },
                    Ok(()) => {
                        if kind == JobKind::Rename {
                            let n = match &old {
                                Some(n) => n,
                                None => {
                                    proof {
                                        assert(false);
                                    }
                                    return vstd::pervasive::unreached();
                                },
                            };
                            let (pp, sp) = paths_of(dir.as_str(), n);
                            let job = Job { kind, phase: Phase::ProbingOld, dir, name, new_name, old, target: Some(t), public, iter, saved: Ghost(true) };
                            (job, Action::Probe { public: pp, secret: sp })
                        } else {
                            let job = Job { kind, phase: Phase::Finished, dir, name, new_name, old, target: Some(t), public, iter, saved: Ghost(true) };
                            (job, Action::Finish(Ok(())))
                        }
                    },
                }
            },
            (Phase::ProbingOld, Event::Probed { public: x, secret: y }) => {
                let (pp, sp) = match &old {
                    Some(n) => paths_of(dir.as_str(), n),
                    None => {
                        proof {
                            assert(false);
                        }
                        return vstd::pervasive::unreached();
                    },
                };
                if x {
                    let job = Job { kind, phase: Phase::RemovingPublic { secret_present: y }, dir, name, new_name, old, target, public, iter, saved };
                    (job, Action::Remove(pp))
                } else if y {
                    let job = Job { kind, phase: Phase::RemovingSecret { public_failure: None }, dir, name, new_name, old, target, public, iter, saved };
                    (job, Action::Remove(sp))
                } else {
                    let job = Job { kind, phase: Phase::Finished, dir, name, new_name, old, target, public, iter, saved };
                    (job, Action::Finish(Ok(())))
                }
            },
            (Phase::RemovingPublic { secret_present }, Event::Removed(x)) => {
                let failure = match x {
                    Ok(()) => None,
                    Err(f) => Some(f),
                };
                if secret_present {
                    let sp = match &old {
                        Some(n) => paths_of(dir.as_str(), n).1,
                        None => {
                            proof {
                                assert(false);
                            }
                            return vstd::pervasive::unreached();
                        },
                    };
                    let job = Job { kind, phase: Phase::RemovingSecret { public_failure: failure }, dir, name, new_name, old, target, public, iter, saved };
                    (job, Action::Remove(sp))
                } else {
                    let a = Self::removal_result(kind, &name, &new_name, failure, Ok(()));
                    let job = Job { kind, phase: Phase::Finished, dir, name, new_name, old, target, public, iter, saved };
                    (job, a)
                }
            },
            (Phase::RemovingSecret { public_failure }, Event::Removed(x)) => {
                let a = Self::removal_result(kind, &name, &new_name, public_failure, x);
                let job = Job { kind, phase: Phase::Finished, dir, name, new_name, old, target, public, iter, saved };
                (job, a)
            },
            (Phase::Listing, Event::Listed(l)) => {
                match KeychainIter::new(dir.as_str(), l) {
                    Err(e) => {
                        let job = Job { kind, phase: Phase::Finished, dir, name, new_name, old, target, public, iter, saved };
                        (job, Action::Finish(Err(e)))
                    },
                    Ok(it) => Self::search_on(kind, dir, name, new_name, old, target, public, it, saved),
                }
            },
            (Phase::Searching, Event::Loaded(p, s)) => {
                let (mut it, key) = match (iter, public) {
                    (Some(it), Some(key)) => (it, key),
                    _ => {
                        proof {
                            assert(false);
                        }
                        return vstd::pervasive::unreached();
                    },
                };
                let c = match it.pending() {
                    Some(c) => c,
                    None => {
                        proof {
                            assert(false);
                        }
                        return vstd::pervasive::unreached();
                    },
                };
                let loaded = Keypair::load(c.as_str(), p, s);
                let hit = match &loaded {
                    Ok(kp) => same_public_key(kp.public(), &key),
                    Err(_) => false,
                };
                if hit {
                    match loaded {
                        Ok(kp) => {
                            let job = Job { kind, phase: Phase::Finished, dir, name, new_name, old, target, public: Some(key), iter: Some(it), saved };
                            (job, Action::Found(kp))
                        },
                        Err(_) => {
                            proof {
                                assert(false);
                            }
                            vstd::pervasive::unreached()
                        },
                    }
                } else {
                    let _ = it.next(loaded);
                    Self::search_on(kind, dir, name, new_name, old, target, Some(key), it, saved)
                }
            },
            _ => {
                proof {
                    assert(false);
                }
                vstd::pervasive::unreached()
            },
        }
    }

    fn removal_result(
        kind: JobKind,
        name: &String,
        new_name: &String,
        public_failure: Option<std::io::Error>,
        secret: Result<(), std::io::Error>,
    ) -> (a: Action)
        ensures
            forall|j: Job|
                j.kind() == kind && j.name() == name@ && j.new_name() == new_name@ ==> removal_end(
                    j,
                    public_failure,
                    secret,
                    a,
                ),
            a is Finish,
    {
        let first = match (public_failure, secret) {
            (None, Ok(())) => {
                return Action::Finish(Ok(()));
            },
            (Some(e), _) => e,
            (None, Err(e)) => e,
        };
        if kind == JobKind::Rename {
            Action::Finish(
                Err(
                    KeychainError::RenameIncomplete {
                        old_name: name.clone(),
                        new_name: new_name.clone(),
                        error: first,
                    },
                ),
            )
        } else {
            Action::Finish(Err(KeychainError::DeleteError { name: name.clone(), error: first }))
        }
    }

    #[verifier::rlimit(50)]
    fn search_on(
        kind: JobKind,
        dir: String,
        name: String,
        new_name: String,
        old: Option<KeypairName>,
        target: Option<Keypair>,
        public: Option<PublicKey>,
        it: KeychainIter,
        saved: Ghost<bool>,
    ) -> (r: (Job, Action))
        requires
            it.wf(),
            public is Some,
        ensures
            search_goes_on(r.0, r.1),
            r.0.wf(),
            r.0.kind() == kind,
            r.0.dir() == dir@,
            r.0.name() == name@,
            r.0.new_name() == new_name@,
            r.0.searched() == public,
            r.0.saved() == saved@,
            r.0.search()->0.names() == it.names(),
            r.0.search()->0.root() == it.root(),
            r.0.search()->0.position() >= it.position(),
            (r.1 is Finish || r.1 is Found) <==> r.0.phase() is Finished,
            !(r.1 is Remove),
    {
        let (it, next) = seek(it, dir.as_str());
        match next {
            Some((pp, sp)) => {
                let job = Job { kind, phase: Phase::Searching, dir, name, new_name, old, target, public, iter: Some(it), saved };
                (job, Action::Load { public: pp, secret: sp })
            },
            None => {
                let job = Job { kind, phase: Phase::Finished, dir, name, new_name, old, target, public, iter: Some(it), saved };
                (job, Action::Finish(Err(KeychainError::PublicKeyNotFound)))
            },
        }
    }
}

} // verus!
