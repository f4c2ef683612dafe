use vstd::prelude::*;

use saltlick::{PublicKey, SaltlickKeyIoError, SecretKey};

use crate::error::KeychainError;
use crate::keychain::{load_post, save_check_post, Found, Keypair};
use crate::listing::{listed, KeychainIter};
use crate::name::{
    first_bad_from, first_bad_index, is_name_char, is_valid_name, public_filename_of,
    secret_filename_of, validation_of, InvalidKeypairName,
};

verus! {

/// What a regular file of a keychain directory holds, as the keychain reads it.
pub enum Stored {
    /// A file that reads as this public key.
    Public(PublicKey),
    /// A file that reads as this secret key.
    Secret(SecretKey),
    /// A file that reads as no key.
    Unreadable,
}

/// A read failure of unknown cause.
pub open spec fn some_read_failure() -> SaltlickKeyIoError {
    vstd::pervasive::arbitrary()
}

/// What looking for a public key at file `f` of directory `d` finds, where
/// every file reads back what was written to it.
pub open spec fn found_public(d: Map<Seq<char>, Stored>, f: Seq<char>) -> Found<PublicKey> {
    if !d.contains_key(f) {
        Found::Absent
    } else {
        match d[f] {
            Stored::Public(k) => Found::Present(Ok(k)),
            _ => Found::Present(Err(some_read_failure())),
        }
    }
}

/// What looking for a secret key at file `f` of directory `d` finds.
pub open spec fn found_secret(d: Map<Seq<char>, Stored>, f: Seq<char>) -> Found<SecretKey> {
    if !d.contains_key(f) {
        Found::Absent
    } else {
        match d[f] {
            Stored::Secret(k) => Found::Present(Ok(k)),
            _ => Found::Present(Err(some_read_failure())),
        }
    }
}

/// What getting keypair `name` from directory `d` may give: what `Keychain::get`
/// promises on what its two files show.
pub open spec fn get_in(
    d: Map<Seq<char>, Stored>,
    name: Seq<char>,
    r: Result<Keypair, KeychainError>,
) -> bool {
    load_post(
        name,
        found_public(d, public_filename_of(name)),
        found_secret(d, secret_filename_of(name)),
        r,
    )
}

/// Directory `d` after keys `public` and `secret` were written for keypair `name`.
pub open spec fn saved(
    d: Map<Seq<char>, Stored>,
    name: Seq<char>,
    public: PublicKey,
    secret: SecretKey,
) -> Map<Seq<char>, Stored> {
    d.insert(public_filename_of(name), Stored::Public(public)).insert(
        secret_filename_of(name),
        Stored::Secret(secret),
    )
}

/// Directory `d` after the files of keypair `name` were removed.
pub open spec fn removed(d: Map<Seq<char>, Stored>, name: Seq<char>) -> Map<Seq<char>, Stored> {
    d.remove(public_filename_of(name)).remove(secret_filename_of(name))
}

proof fn lemma_filenames_differ(a: Seq<char>, b: Seq<char>)
    ensures
        public_filename_of(a) != secret_filename_of(b),
{
    let p = public_filename_of(a);
    let s = secret_filename_of(b);
    if p == s {
        assert(p[p.len() - 1] == 'b');
        assert(s[s.len() - 1] == 'c');
    }
}

proof fn lemma_filenames_injective(a: Seq<char>, b: Seq<char>)
    ensures
        public_filename_of(a) == public_filename_of(b) ==> a == b,
        secret_filename_of(a) == secret_filename_of(b) ==> a == b,
{
    if public_filename_of(a) == public_filename_of(b) {
        assert(a =~= public_filename_of(a).subrange(0, a.len() as int));
        assert(b =~= public_filename_of(b).subrange(0, b.len() as int));
    }
    if secret_filename_of(a) == secret_filename_of(b) {
        assert(secret_filename_of(a).len() == a.len() + 4);
        assert(secret_filename_of(b).len() == b.len() + 4);
        assert(a =~= secret_filename_of(a).subrange(0, a.len() as int));
        assert(b =~= secret_filename_of(b).subrange(0, b.len() as int));
    }
}

/// A non-empty string of letters, digits, `-`, `_` and `.` is accepted as a
/// keypair name and kept exactly as it was given.
pub proof fn lemma_valid_name_accepted(s: Seq<char>)
    requires
        is_valid_name(s),
    ensures
        validation_of(s) == Ok::<Seq<char>, InvalidKeypairName>(s),
{
    lemma_no_bad_from(s, 0);
}

proof fn lemma_no_bad_from(s: Seq<char>, from: int)
    requires
        0 <= from,
        forall|i: int| 0 <= i < s.len() ==> is_name_char(#[trigger] s[i]),
    ensures
        first_bad_from(s, from) is None,
    decreases s.len() - from,
{
    if from < s.len() {
        lemma_no_bad_from(s, from + 1);
    }
}

proof fn lemma_first_bad_found(s: Seq<char>, from: int, k: int)
    requires
        0 <= from <= k < s.len(),
        !is_name_char(s[k]),
    ensures
        first_bad_from(s, from) matches Some(i) && from <= i <= k && !is_name_char(s[i])
            && forall|j: int| from <= j < i ==> is_name_char(#[trigger] s[j]),
    decreases k - from,
{
    if is_name_char(s[from]) {
        lemma_first_bad_found(s, from + 1, k);
    }
}

/// Every other string is refused: the empty one as empty, and any other with
/// the first character, from the left, that a name may not hold.
pub proof fn lemma_invalid_name_refused(s: Seq<char>)
    requires
        !is_valid_name(s),
    ensures
        validation_of(s) is Err,
        s.len() == 0 ==> validation_of(s) == Err::<Seq<char>, InvalidKeypairName>(
            InvalidKeypairName::Empty,
        ),
        s.len() > 0 ==> exists|i: int|
            0 <= i < s.len() && !is_name_char(s[i]) && (forall|j: int|
                0 <= j < i ==> is_name_char(#[trigger] s[j])) && validation_of(s) == Err::<
                Seq<char>,
                InvalidKeypairName,
            >(InvalidKeypairName::BadChar(s[i])),
{
    if s.len() > 0 {
        let k = choose|k: int| 0 <= k < s.len() && !is_name_char(#[trigger] s[k]);
        lemma_first_bad_found(s, 0, k);
        let i = first_bad_index(s)->0;
        assert(0 <= i < s.len() && !is_name_char(s[i]));
    }
}

/// Once keypair `name` has been saved with `public` and `secret` into a
/// directory that held neither of its files, getting it gives those keys.
pub proof fn lemma_create_then_get(
    d: Map<Seq<char>, Stored>,
    name: Seq<char>,
    public: PublicKey,
    secret: SecretKey,
    r: Result<Keypair, KeychainError>,
)
    requires
        is_valid_name(name),
        get_in(saved(d, name, public, secret), name, r),
    ensures
        r matches Ok(kp) && kp.name_view() == name && kp.public_key() == public
            && kp.secret_key() == secret,
{
    lemma_valid_name_accepted(name);
    lemma_filenames_differ(name, name);
}

/// A second save under a name whose keypair was saved finds its files and is
/// refused with a conflict before anything is written, so getting the name
/// still gives the first keys.
pub proof fn lemma_create_twice_conflicts(
    d: Map<Seq<char>, Stored>,
    name: Seq<char>,
    public: PublicKey,
    secret: SecretKey,
    check: Result<(), KeychainError>,
    r: Result<Keypair, KeychainError>,
)
    requires
        is_valid_name(name),
        save_check_post(
            name,
            saved(d, name, public, secret).contains_key(public_filename_of(name)),
            saved(d, name, public, secret).contains_key(secret_filename_of(name)),
            check,
        ),
        get_in(saved(d, name, public, secret), name, r),
    ensures
        check matches Err(KeychainError::KeypairAlreadyExists { name: n }) && n@ == name,
        r matches Ok(kp) && kp.public_key() == public && kp.secret_key() == secret,
{
    lemma_create_then_get(d, name, public, secret, r);
}

/// After keypair `name` was saved and then removed, neither of its files is
/// left and getting it fails with `KeypairNotFound`.
pub proof fn lemma_remove_then_get(
    d: Map<Seq<char>, Stored>,
    name: Seq<char>,
    public: PublicKey,
    secret: SecretKey,
    r: Result<Keypair, KeychainError>,
)
    requires
        is_valid_name(name),
        get_in(removed(saved(d, name, public, secret), name), name, r),
    ensures
        !removed(saved(d, name, public, secret), name).contains_key(public_filename_of(name)),
        !removed(saved(d, name, public, secret), name).contains_key(secret_filename_of(name)),
        r matches Err(KeychainError::KeypairNotFound { name: n }) && n@ == name,
{
    lemma_valid_name_accepted(name);
}

/// A rename of `old` to `new` saves the keys under `new` and then removes
/// `old`: getting `new` gives the keys, and getting `old` fails with
/// `KeypairNotFound`.
pub proof fn lemma_rename_moves_keys(
    d: Map<Seq<char>, Stored>,
    old: Seq<char>,
    new: Seq<char>,
    public: PublicKey,
    secret: SecretKey,
    r_new: Result<Keypair, KeychainError>,
    r_old: Result<Keypair, KeychainError>,
)
    requires
        is_valid_name(old),
        is_valid_name(new),
        old != new,
        get_in(removed(saved(d, new, public, secret), old), new, r_new),
        get_in(removed(saved(d, new, public, secret), old), old, r_old),
    ensures
        r_new matches Ok(kp) && kp.name_view() == new && kp.public_key() == public
            && kp.secret_key() == secret,
        r_old matches Err(KeychainError::KeypairNotFound { name: n }) && n@ == old,
{
    lemma_valid_name_accepted(old);
    lemma_valid_name_accepted(new);
    lemma_filenames_differ(new, new);
    lemma_filenames_differ(new, old);
    lemma_filenames_differ(old, new);
    lemma_filenames_injective(old, new);
    let e = removed(saved(d, new, public, secret), old);
    assert(e.contains_key(public_filename_of(new)));
    assert(e.contains_key(secret_filename_of(new)));
}

/// A rename of `old`, stored with `public` and `secret`, to a name `new` that
/// already holds a keypair: the save under `new` is refused with a conflict
/// before anything is written or removed, so getting `old` still gives its keys.
pub proof fn lemma_rename_onto_taken_name(
    d: Map<Seq<char>, Stored>,
    old: Seq<char>,
    new: Seq<char>,
    public: PublicKey,
    secret: SecretKey,
    new_public: PublicKey,
    new_secret: SecretKey,
    check: Result<(), KeychainError>,
    r_old: Result<Keypair, KeychainError>,
)
    requires
        is_valid_name(old),
        is_valid_name(new),
        old != new,
        save_check_post(
            new,
            saved(saved(d, old, public, secret), new, new_public, new_secret).contains_key(
                public_filename_of(new),
            ),
            saved(saved(d, old, public, secret), new, new_public, new_secret).contains_key(
                secret_filename_of(new),
            ),
            check,
        ),
        get_in(saved(saved(d, old, public, secret), new, new_public, new_secret), old, r_old),
    ensures
        check matches Err(KeychainError::KeypairAlreadyExists { name: n }) && n@ == new,
        r_old matches Ok(kp) && kp.public_key() == public && kp.secret_key() == secret,
{
    lemma_valid_name_accepted(old);
    lemma_filenames_differ(old, old);
    lemma_filenames_differ(new, old);
    lemma_filenames_differ(old, new);
    lemma_filenames_injective(old, new);
}

/// A directory that holds `x.pub` and no `x.sec` lists `x` as a candidate,
/// but loading `x` fails, so iterating over it yields no keypair `x`.
pub proof fn lemma_incomplete_pair_skipped(
    d: Map<Seq<char>, Stored>,
    x: Seq<char>,
    r: Result<Keypair, KeychainError>,
)
    requires
        is_valid_name(x),
        d.contains_key(public_filename_of(x)),
        !d.contains_key(secret_filename_of(x)),
        get_in(d, x, r),
    ensures
        r is Err,
{
    lemma_valid_name_accepted(x);
}

/// An empty directory listing gives an iteration with no candidate at all.
pub proof fn lemma_empty_listing(it: KeychainIter, files: Seq<Seq<char>>)
    requires
        files.len() == 0,
        forall|s: Seq<char>| #![auto] it.names().contains(s) <==> listed(files, s),
    ensures
        it.names().len() == 0,
{
    if it.names().len() > 0 {
        let s = it.names()[0];
        assert(it.names().contains(s));
        assert(!listed(files, s));
    }
}

} // verus!
