use vstd::prelude::*;
use vstd::string::*;

use crate::error::KeychainError;
use crate::keychain::Keypair;

verus! {

/// Index of the last `.` among the first `end` characters of `f`, or -1.
pub open spec fn last_dot_before(f: Seq<char>, end: int) -> int
    decreases end,
{
    if end <= 0 || end > f.len() {
        -1
    } else if f[end - 1] == '.' {
        end - 1
    } else {
        last_dot_before(f, end - 1)
    }
}

/// Index of the dot that starts the extension of file name `f`: the last
/// dot, unless it is the first character (a hidden file has no extension).
pub open spec fn extension_dot(f: Seq<char>) -> int {
    last_dot_before(f, f.len() as int)
}

/// The extension of file name `f`, without its dot; empty where it has none.
pub open spec fn extension_of(f: Seq<char>) -> Seq<char> {
    let k = extension_dot(f);
    if k > 0 {
        f.subrange(k + 1, f.len() as int)
    } else {
        Seq::empty()
    }
}

/// The stem of file name `f`: all of it up to the extension's dot.
pub open spec fn stem_of(f: Seq<char>) -> Seq<char> {
    let k = extension_dot(f);
    if k > 0 {
        f.subrange(0, k)
    } else {
        f
    }
}

/// The keypair name that a file in the keychain directory stands for, if any:
/// the stem of a file whose extension is `pub` or `sec`.
pub open spec fn candidate_of(f: Seq<char>) -> Option<Seq<char>> {
    if extension_of(f) == seq!['p', 'u', 'b'] || extension_of(f) == seq!['s', 'e', 'c'] {
        Some(stem_of(f))
    } else {
        None
    }
}

/// Whether some file of `files` stands for the keypair name `s`.
pub open spec fn listed(files: Seq<Seq<char>>, s: Seq<char>) -> bool {
    exists|i: int| 0 <= i < files.len() && candidate_of(#[trigger] files[i]) == Some(s)
}

/// Views of a vector of strings.
pub open spec fn views(v: Seq<String>) -> Seq<Seq<char>> {
    v.map_values(|s: String| s@)
}

/// Candidate keypair names of a directory, each once, in an order of no meaning,
/// and the keypairs that have been loaded from them one after the other.
pub struct KeychainIter {
    names: Vec<String>,
    pos: usize,
    root_path: String,
}

impl KeychainIter {
    /// The candidate names, each once.
    pub closed spec fn names(&self) -> Seq<Seq<char>> {
        views(self.names@)
    }

    /// How many candidates have been handed out.
    pub closed spec fn position(&self) -> nat {
        self.pos as nat
    }

    /// The directory that was listed.
    pub closed spec fn root(&self) -> Seq<char> {
        self.root_path@
    }

    /// The iterator's invariant: no name twice, and a position within them.
    pub open spec fn wf(&self) -> bool {
        &&& self.names().no_duplicates()
        &&& self.position() <= self.names().len()
    }

    /// Lists the keypair names that the directory `root_path` holds files
    /// for, given the names of its entries as read: each name whose `.pub` or
    /// `.sec` file is there, once, whether or not its pair is complete.
    pub fn new(root_path: &str, listing: Result<Vec<String>, std::io::Error>) -> (r: Result<
        KeychainIter,
        KeychainError,
    >)
        ensures
            match listing {
                Err(e) => r matches Err(KeychainError::BadKeychainDir { error, path }) && error
                    == e && path@ == root_path@,
                Ok(files) => r matches Ok(it) && it.wf() && it.position() == 0 && it.root()
                    == root_path@ && forall|s: Seq<char>|
                    #![auto]
                    it.names().contains(s) <==> listed(views(files@), s),
            },
    {
        match listing {
            Err(e) => Err(KeychainError::BadKeychainDir { error: e, path: root_path.to_string() }),
            Ok(files) => {
                let names = candidate_names(&files);
                Ok(KeychainIter { names, pos: 0, root_path: root_path.to_string() })
            },
        }
    }

    /// The candidate name whose keypair is to be loaded next, or `None`
    /// when every candidate has been handed out.
    pub fn pending(&self) -> (r: Option<String>)
        requires
            self.wf(),
        ensures
            self.position() < self.names().len() ==> (r matches Some(n) && n@ == self.names()[self.position() as int]),
            self.position() == self.names().len() ==> r is None,
    {
        if self.pos < self.names.len() {
            let n = self.names[self.pos].clone();
            Some(n)
        } else {
            None
        }
    }

    /// Moves past the pending name, given what loading its keypair gave:
    /// yields the keypair where it loaded, and skips the name otherwise (an
    /// incomplete or unreadable pair ends nothing).
    pub fn next(&mut self, loaded: Result<Keypair, KeychainError>) -> (r: Option<Keypair>)
        requires
            old(self).wf(),
            old(self).position() < old(self).names().len(),
            loaded is Ok ==> loaded->Ok_0.name_view() == old(self).names()[old(self).position() as int],
        ensures
            final(self).wf(),
            final(self).names() == old(self).names(),
            final(self).root() == old(self).root(),
            final(self).position() == old(self).position() + 1,
            match loaded {
                Ok(kp) => r == Some(kp),
                Err(_) => r is None,
            },
            r matches Some(kp) ==> kp.name_view() == old(self).names()[old(self).position() as int],
    {
        if self.pos < self.names.len() {
            self.pos = self.pos + 1;
        }
        match loaded {
            Ok(kp) => Some(kp),
            Err(_) => None,
        }
    }

    /// The directory that was listed.
    pub fn root_path(&self) -> (r: &str)
        ensures
            r@ == self.root(),
    {
        self.root_path.as_str()
    }

    /// The extension of the file name `file_name`, or the empty string where it has none.
    pub fn ext_or_empty(file_name: &str) -> (r: String)
        ensures
            r@ == extension_of(file_name@),
    {
        match Self::extension_dot_exec(file_name) {
            Some(k) => {
                let n = file_name.unicode_len();
                file_name.substring_char(k + 1, n).to_string()
            },
            None => String::new(),
        }
    }

    /// The stem of the file name `file_name`.
    pub fn file_stem(file_name: &str) -> (r: String)
        ensures
            r@ == stem_of(file_name@),
    {
        match Self::extension_dot_exec(file_name) {
            Some(k) => file_name.substring_char(0, k).to_string(),
            None => file_name.to_string(),
        }
    }

    fn extension_dot_exec(f: &str) -> (r: Option<usize>)
        ensures
            match r {
                Some(k) => k == extension_dot(f@) && 0 < k < f@.len(),
                None => extension_dot(f@) <= 0,
            },
    {
        let n = f.unicode_len();
        let mut end: usize = n;
        while end > 0
            invariant
                n == f@.len(),
                end <= n,
                last_dot_before(f@, n as int) == last_dot_before(f@, end as int),
            decreases end,
        {
            if f.get_char(end - 1) == '.' {
                if end - 1 > 0 {
                    return Some(end - 1);
                } else {
                    return None;
                }
            }
            end = end - 1;
        }
        None
    }
}

/// The keypair name that the file name `f` stands for, if any.
pub fn candidate_name(f: &str) -> (r: Option<String>)
    ensures
        match candidate_of(f@) {
            Some(s) => r matches Some(n) && n@ == s,
            None => r is None,
        },
{
    let ext = KeychainIter::ext_or_empty(f);
    if is_three(ext.as_str(), 'p', 'u', 'b') || is_three(ext.as_str(), 's', 'e', 'c') {
        Some(KeychainIter::file_stem(f))
    } else {
        None
    }
}

fn is_three(s: &str, a: char, b: char, c: char) -> (r: bool)
    ensures
        r == (s@ == seq![a, b, c]),
{
    if s.unicode_len() != 3 {
        return false;
    }
    let r = s.get_char(0) == a && s.get_char(1) == b && s.get_char(2) == c;
    if r {
        assert(s@ =~= seq![a, b, c]);
    }
    r
}

fn contains_name(names: &Vec<String>, n: &String) -> (r: bool)
    ensures
        r == views(names@).contains(n@),
{
    let mut i: usize = 0;
    while i < names.len()
        invariant
            0 <= i <= names.len(),
            forall|j: int| 0 <= j < i ==> names@[j]@ != n@,
        decreases names.len() - i,
    {
        if names[i] == *n {
            assert(views(names@)[i as int] == n@);
            return true;
        }
        i = i + 1;
    }
    proof {
        if views(names@).contains(n@) {
            let j = choose|j: int| 0 <= j < views(names@).len() && views(names@)[j] == n@;
            assert(names@[j]@ == n@);
        }
    }
    false
}

/// The distinct keypair names that the file names `files` stand for.
fn candidate_names(files: &Vec<String>) -> (r: Vec<String>)
    ensures
        views(r@).no_duplicates(),
        forall|s: Seq<char>| #![auto] views(r@).contains(s) <==> listed(views(files@), s),
{
    let mut names: Vec<String> = Vec::new();
    let mut i: usize = 0;
    while i < files.len()
        invariant
            0 <= i <= files.len(),
            views(names@).no_duplicates(),
            forall|s: Seq<char>|
                #![auto]
                views(names@).contains(s) <==> exists|j: int|
                    0 <= j < i && candidate_of(files@[j]@) == Some(s),
        decreases files.len() - i,
    {
        let ghost before = views(names@);
        let ghost cand = candidate_of(files@[i as int]@);
        match candidate_name(files[i].as_str()) {
            Some(c) => {
                if !contains_name(&names, &c) {
                    names.push(c);
                    assert(views(names@) =~= before.push(c@));
                    assert(views(names@)[before.len() as int] == c@);
                }
                assert(views(names@).contains(cand->0));
            },
            None => {},
        }
        proof {
            assert forall|s: Seq<char>|
                #![auto]
                views(names@).contains(s) <==> exists|j: int|
                    0 <= j < i + 1 && candidate_of(files@[j]@) == Some(s) by {
                if exists|j: int| 0 <= j < i + 1 && candidate_of(files@[j]@) == Some(s) {
                    let j = choose|j: int| 0 <= j < i + 1 && candidate_of(files@[j]@) == Some(s);
                    if j < i {
                        assert(before.contains(s));
                        let k = choose|k: int| 0 <= k < before.len() && before[k] == s;
                        assert(views(names@)[k] == s);
                    }
                }
                if views(names@).contains(s) && !before.contains(s) {
                    assert(candidate_of(files@[i as int]@) == Some(s));
                }
            }
        }
        i = i + 1;
    }
    proof {
        assert forall|s: Seq<char>|
            #![auto]
            views(names@).contains(s) <==> listed(views(files@), s) by {
            if listed(views(files@), s) {
                let j = choose|j: int|
                    0 <= j < views(files@).len() && candidate_of(#[trigger] views(files@)[j])
                        == Some(s);
                assert(candidate_of(files@[j]@) == Some(s));
            }
            if views(names@).contains(s) {
                let j = choose|j: int| 0 <= j < i && candidate_of(files@[j]@) == Some(s);
                assert(views(files@)[j] == files@[j]@);
            }
        }
    }
    names
}

} // verus!
