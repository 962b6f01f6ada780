//! Joining a directory and a relative file name the way `Path::join` does.

use vstd::prelude::*;
use crate::common::argv::joined;

verus! {

/// `PathBuf::from(dir).join(name)` for a relative `name`: a `/` is put between
/// them unless `dir` is empty or already ends with one.
pub open spec fn path_join(dir: Seq<char>, name: Seq<char>) -> Seq<char> {
    if dir.len() == 0 {
        name
    } else if dir.last() == '/' {
        dir + name
    } else {
        dir + "/"@ + name
    }
}

/// Joins `dir` and the relative `name` (see [`path_join`]).
pub fn join_path(dir: &str, name: &str) -> (r: String)
    ensures
        r@ == path_join(dir@, name@),
{
    let n = dir.unicode_len();
    if n == 0 {
        String::from_str(name)
    } else if dir.get_char(n - 1) == '/' {
        joined(dir, name)
    } else {
        let mut r = String::from_str(dir);
        r.append("/");
        r.append(name);
        r
    }
}

} // verus!
