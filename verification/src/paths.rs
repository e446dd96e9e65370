//! Resolution of a relative file name against the output directory.
//!
//! One explicit policy for both the generator and the readers: the
//! destination is the directory path, one `/` separator, then the relative
//! name, with no other normalization.

use vstd::prelude::*;

verus! {

/// The destination path for the file `name` under the directory `dir`:
/// the directory, a single separator, the name.
pub open spec fn joined(dir: Seq<char>, name: Seq<char>) -> Seq<char> {
    dir + seq!['/'] + name
}

/// Joins the output directory path and a relative file name with a single
/// separator, forming the destination path of the generated file.
pub fn join_path(dir: &str, name: &str) -> (r: String)
    ensures
        r@ == joined(dir@, name@),
{
    let mut r = dir.to_owned();
    r.append("/");
    r.append(name);
    proof {
        reveal_strlit("/");
        assert(r@ =~= joined(dir@, name@));
    }
    r
}

} // verus!
