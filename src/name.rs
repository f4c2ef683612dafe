use vstd::prelude::*;
use vstd::string::*;

verus! {

/// A character allowed in a keypair name: an ASCII letter or digit, `-`, `_` or `.`.
pub open spec fn is_name_char(c: char) -> bool {
    ('a' <= c && c <= 'z') || ('A' <= c && c <= 'Z') || ('0' <= c && c <= '9') || c == '-'
        || c == '_' || c == '.'
}

/// Whether `s` is a valid keypair name: non-empty, and made of name characters only.
pub open spec fn is_valid_name(s: Seq<char>) -> bool {
    s.len() > 0 && forall|i: int| 0 <= i < s.len() ==> is_name_char(#[trigger] s[i])
}

/// Index of the first character of `s` that is not a name character, at or after `from`.
pub open spec fn first_bad_from(s: Seq<char>, from: int) -> Option<int>
    decreases s.len() - from,
{
    if from < 0 || from >= s.len() {
        None
    } else if !is_name_char(s[from]) {
        Some(from)
    } else {
        first_bad_from(s, from + 1)
    }
}

/// Index of the first character of `s`, scanning left to right, that is not a name character.
pub open spec fn first_bad_index(s: Seq<char>) -> Option<int> {
    first_bad_from(s, 0)
}

/// What validating `s` gives: `Empty`, the first offending character, or success.
pub open spec fn validation_of(s: Seq<char>) -> Result<Seq<char>, InvalidKeypairName> {
    if s.len() == 0 {
        Err(InvalidKeypairName::Empty)
    } else {
        match first_bad_index(s) {
            Some(i) => Err(InvalidKeypairName::BadChar(s[i])),
            None => Ok(s),
        }
    }
}

/// Name of the file that holds the public key of keypair `n`.
pub open spec fn public_filename_of(n: Seq<char>) -> Seq<char> {
    n + seq!['.', 'p', 'u', 'b']
}

/// Name of the file that holds the secret key of keypair `n`.
pub open spec fn secret_filename_of(n: Seq<char>) -> Seq<char> {
    n + seq!['.', 's', 'e', 'c']
}

/// Why a string is not a valid keypair name.
#[derive(Debug, Clone, Copy, PartialEq, Eq, Structural)]
pub enum InvalidKeypairName {
    /// The character, the first one from the left, that names may not hold.
    BadChar(char),
    /// The name has no characters.
    Empty,
}

/// A keypair name that has passed validation.
#[derive(Debug)]
pub struct KeypairName {
    name: String,
}

impl Clone for KeypairName {
    fn clone(&self) -> (r: KeypairName)
        ensures
            r@ == self@,
    {
        proof {
            use_type_invariant(self);
        }
        KeypairName { name: self.name.clone() }
    }
}

impl std::str::FromStr for KeypairName {
    type Err = InvalidKeypairName;

    fn from_str(s: &str) -> Result<KeypairName, InvalidKeypairName> {
        KeypairName::new(s)
    }
}

impl View for KeypairName {
    type V = Seq<char>;

    closed spec fn view(&self) -> Seq<char> {
        self.name@
    }
}

fn is_name_char_exec(c: char) -> (r: bool)
    ensures
        r == is_name_char(c),
{
    ('a' <= c && c <= 'z') || ('A' <= c && c <= 'Z') || ('0' <= c && c <= '9') || c == '-'
        || c == '_' || c == '.'
}

proof fn lemma_first_bad_skips(s: Seq<char>, from: int)
    requires
        0 <= from <= s.len(),
        forall|j: int| from <= j < s.len() ==> is_name_char(#[trigger] s[j]),
    ensures
        first_bad_from(s, from) is None,
    decreases s.len() - from,
{
    if from < s.len() {
        lemma_first_bad_skips(s, from + 1);
    }
}

proof fn lemma_first_bad_prefix(s: Seq<char>, from: int, to: int)
    requires
        0 <= from <= to <= s.len(),
        forall|j: int| from <= j < to ==> is_name_char(#[trigger] s[j]),
    ensures
        first_bad_from(s, from) == first_bad_from(s, to),
    decreases to - from,
{
    if from < to {
        lemma_first_bad_prefix(s, from + 1, to);
    }
}

/// Where `first_bad_from` finds nothing, every character from `from` on is a name character.
proof fn lemma_first_bad_none(s: Seq<char>, from: int)
    requires
        0 <= from,
        first_bad_from(s, from) is None,
    ensures
        forall|j: int| from <= j < s.len() ==> is_name_char(#[trigger] s[j]),
    decreases s.len() - from,
{
    if from < s.len() {
        lemma_first_bad_none(s, from + 1);
    }
}

impl KeypairName {
    /// Every keypair name is valid.
    #[verifier::type_invariant]
    spec fn inv(&self) -> bool {
        is_valid_name(self.name@)
    }

    /// Validates `name`: it fails with `Empty` on the empty string, with
    /// `BadChar` on the first character, from the left, outside
    /// `[A-Za-z0-9-_.]`, and otherwise keeps the string exactly as given.
    pub fn new(name: &str) -> (r: Result<KeypairName, InvalidKeypairName>)
        ensures
            match validation_of(name@) {
                Ok(s) => r is Ok && r->Ok_0@ == s,
                Err(e) => r == Err::<KeypairName, InvalidKeypairName>(e),
            },
    {
        let n = name.unicode_len();
        if n == 0 {
            return Err(InvalidKeypairName::Empty);
        }
        let mut i: usize = 0;
        while i < n
            invariant
                n == name@.len(),
                0 <= i <= n,
                forall|j: int| 0 <= j < i ==> is_name_char(#[trigger] name@[j]),
            decreases n - i,
        {
            let c = name.get_char(i);
            if !is_name_char_exec(c) {
                proof {
                    lemma_first_bad_prefix(name@, 0, i as int);
                }
                return Err(InvalidKeypairName::BadChar(c));
            }
            i = i + 1;
        }
        proof {
            lemma_first_bad_skips(name@, 0);
        }
        let r = KeypairName { name: name.to_string() };
        Ok(r)
    }

    /// Name of the file that holds the public key: the name followed by `.pub`.
    pub fn public_filename(&self) -> (r: String)
        ensures
            r@ == public_filename_of(self@),
    {
        let mut r = self.name.clone();
        r.append(".pub");
        proof {
            reveal_strlit(".pub");
            assert(r@ =~= public_filename_of(self@));
        }
        r
    }

    /// Name of the file that holds the secret key: the name followed by `.sec`.
    pub fn secret_filename(&self) -> (r: String)
        ensures
            r@ == secret_filename_of(self@),
    {
        let mut r = self.name.clone();
        r.append(".sec");
        proof {
            reveal_strlit(".sec");
            assert(r@ =~= secret_filename_of(self@));
        }
        r
    }

    /// The name as a string slice.
    pub fn as_str(&self) -> (r: &str)
        ensures
            r@ == self@,
            is_valid_name(r@),
    {
        proof {
            use_type_invariant(self);
        }
        self.name.as_str()
    }

    /// The name as an owned string.
    pub fn to_string(&self) -> (r: String)
        ensures
            r@ == self@,
    {
        self.name.clone()
    }
}

} // verus!
