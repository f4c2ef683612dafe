use vstd::prelude::*;
use vstd::string::*;

verus! {

/// The path of `file` inside directory `dir`, joined by a `/` unless `dir`
/// is empty or already ends with one.
pub open spec fn join_spec(dir: Seq<char>, file: Seq<char>) -> Seq<char> {
    if dir.len() == 0 {
        file
    } else if dir.last() == '/' {
        dir + file
    } else {
        dir + seq!['/'] + file
    }
}

/// The path of `file` inside directory `dir`.
pub fn join(dir: &str, file: &str) -> (r: String)
    ensures
        r@ == join_spec(dir@, file@),
{
    let n = dir.unicode_len();
    if n == 0 {
        return file.to_string();
    }
    let mut r = String::from_str(dir);
    if dir.get_char(n - 1) != '/' {
        r.append("/");
    }
    r.append(file);
    proof {
        reveal_strlit("/");
    }
    r
}

} // verus!
