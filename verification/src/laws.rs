//! The write/read laws of the output directory.
//!
//! Each law relates the states that `OutDir::generate` leaves behind — as
//! its contract states them — to what `OutDir::file_str` then reads.

use vstd::prelude::*;

use crate::out_dir::OutDir;

verus! {

/// Round trip: after `generate(name, content)` succeeds on a configured
/// directory, leaving the contents as its contract states, the file named
/// `name` exists and reading it yields exactly `content` — byte for byte,
/// with no terminator added or stripped.
pub proof fn lemma_generate_round_trip(
    pre: OutDir,
    post: OutDir,
    name: Seq<char>,
    content: Seq<char>,
)
    requires
        pre.configured(),
        post.contents() == pre.contents().insert(name, content),
    ensures
        post.contents().contains_key(name),
        post.contents()[name] == content,
{
}

/// Idempotence: a second `generate` with the same `(name, content)` leaves
/// the directory's contents exactly as the first call left them.
pub proof fn lemma_generate_idempotent(
    pre: OutDir,
    mid: OutDir,
    post: OutDir,
    name: Seq<char>,
    content: Seq<char>,
)
    requires
        pre.configured(),
        mid.contents() == pre.contents().insert(name, content),
        post.contents() == mid.contents().insert(name, content),
    ensures
        post.contents() == mid.contents(),
{
    assert(post.contents() =~= mid.contents());
}

/// Overwrite, not append: `generate(name, a)` followed by
/// `generate(name, b)` leaves the directory as if only the second write had
/// happened, and the file holds exactly `b`.
pub proof fn lemma_generate_overwrites(
    pre: OutDir,
    mid: OutDir,
    post: OutDir,
    name: Seq<char>,
    a: Seq<char>,
    b: Seq<char>,
)
    requires
        pre.configured(),
        mid.contents() == pre.contents().insert(name, a),
        post.contents() == mid.contents().insert(name, b),
    ensures
        post.contents() == pre.contents().insert(name, b),
        post.contents().contains_key(name),
        post.contents()[name] == b,
{
    assert(post.contents() =~= pre.contents().insert(name, b));
}

} // verus!
