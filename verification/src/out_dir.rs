//! The build-output directory as the two build phases see it.
//!
//! The generator resolves a relative file name against the directory and
//! makes a string the file's entire content; a later phase resolves the same
//! name and reads the text back. Both the string-constant form and the
//! source-splicing form of the reader consume the identical raw text: the
//! splicing itself is a textual substitution performed by the surrounding
//! toolchain, so the contract here is that the text comes back exactly as
//! written, with nothing added around it.

use vstd::prelude::*;

use crate::error::GenError;
use crate::paths::join_path;
use crate::paths::joined;

verus! {

/// The directory contents that a sequence of writes leaves behind: each
/// entry is one write of `(name, content)`, and a later write to a name
/// shadows every earlier one.
spec fn map_of(writes: Seq<(String, String)>) -> Map<Seq<char>, Seq<char>>
    decreases writes.len(),
{
    if writes.len() == 0 {
        Map::empty()
    } else {
        map_of(writes.drop_last()).insert(writes.last().0@, writes.last().1@)
    }
}

/// Writes at positions `i` and beyond never touch the name `k`, so the
/// directory holds under `k` exactly what the first `i` writes left there.
proof fn lemma_map_of_unmatched_suffix(writes: Seq<(String, String)>, i: int, k: Seq<char>)
    requires
        0 <= i <= writes.len(),
        forall|j: int| i <= j < writes.len() ==> writes[j].0@ != k,
    ensures
        map_of(writes).contains_key(k) == map_of(writes.take(i)).contains_key(k),
        map_of(writes).contains_key(k) ==> map_of(writes)[k] == map_of(writes.take(i))[k],
    decreases writes.len() - i,
{
    if i == writes.len() {
        assert(writes.take(i) =~= writes);
    } else {
        lemma_map_of_unmatched_suffix(writes, i + 1, k);
        assert(writes.take(i + 1).drop_last() =~= writes.take(i));
        assert(writes.take(i + 1).last() == writes[i]);
        assert(map_of(writes.take(i + 1)) == map_of(writes.take(i)).insert(
            writes[i].0@,
            writes[i].1@,
        ));
    }
}

/// The build-scoped output directory, together with the configuration that
/// names it: the value of the output-directory environment variable, and the
/// files generated so far.
pub struct OutDir {
    /// The output-directory variable's value, or `None` when it is unset.
    dir: Option<String>,
    /// Every generated write so far, in order.
    writes: Vec<(String, String)>,
}

impl OutDir {
    /// Whether the output-directory variable is set.
    pub closed spec fn configured(self) -> bool {
        self.dir is Some
    }

    /// The path of the output directory, when configured.
    pub closed spec fn dir_path(self) -> Seq<char> {
        self.dir->0@
    }

    /// The generated files: each name maps to the content most recently
    /// written under it.
    pub closed spec fn contents(self) -> Map<Seq<char>, Seq<char>> {
        map_of(self.writes@)
    }

    /// An output directory as the process environment hands it over: `dir`
    /// is the output-directory variable's value, or `None` when the variable
    /// is unset. No files have been generated yet.
    pub fn from_env(dir: Option<String>) -> (r: OutDir)
        ensures
            r.configured() == dir is Some,
            dir is Some ==> r.dir_path() == dir->0@,
            r.contents() == Map::<Seq<char>, Seq<char>>::empty(),
    {
        OutDir { dir, writes: Vec::new() }
    }

    /// Whether the output-directory variable is set.
    pub fn is_configured(&self) -> (b: bool)
        ensures
            b == self.configured(),
    {
        self.dir.is_some()
    }

    /// The destination path for the relative `name`: the output directory
    /// joined with `name`. Fails, before any filesystem access, when the
    /// output-directory variable is unset.
    pub fn dest_path(&self, name: &str) -> (r: Result<String, GenError>)
        ensures
            !self.configured() ==> r == Err::<String, GenError>(GenError::MissingOutDir),
            self.configured() ==> r is Ok && r->Ok_0@ == joined(self.dir_path(), name@),
    {
        match &self.dir {
            None => Err(GenError::MissingOutDir),
            Some(d) => Ok(join_path(d.as_str(), name)),
        }
    }

    /// The generator: makes `content` the entire content of the file `name`,
    /// creating the file if absent and overwriting whatever it held. The
    /// bytes are written verbatim — no terminator is added or stripped.
    /// When the output-directory variable is unset, the call fails before
    /// any write, and the directory is left unchanged.
    pub fn generate(&mut self, name: &str, content: &str) -> (r: Result<(), GenError>)
        ensures
            final(self).configured() == old(self).configured(),
            final(self).configured() ==> final(self).dir_path() == old(self).dir_path(),
            !old(self).configured() ==> r == Err::<(), GenError>(GenError::MissingOutDir)
                && *final(self) == *old(self),
            old(self).configured() ==> r == Ok::<(), GenError>(())
                && final(self).contents() == old(self).contents().insert(name@, content@),
    {
        if self.dir.is_none() {
            return Err(GenError::MissingOutDir);
        }
        let owned_name = name.to_owned();
        let owned_content = content.to_owned();
        self.writes.push((owned_name, owned_content));
        proof {
            assert(self.writes@.drop_last() =~= old(self).writes@);
            assert(self.contents() == old(self).contents().insert(name@, content@));
        }
        Ok(())
    }

    /// The reader: the full text of the generated file `name`, exactly as
    /// the most recent generator call for that name wrote it. Fails when the
    /// output-directory variable is unset; fails — rather than yielding an
    /// empty string — when no file was ever generated under `name`.
    pub fn file_str(&self, name: &str) -> (r: Result<String, GenError>)
        ensures
            !self.configured() ==> r == Err::<String, GenError>(GenError::MissingOutDir),
            self.configured() && !self.contents().contains_key(name@) ==> r == Err::<
                String,
                GenError,
            >(GenError::MissingFile),
            self.configured() && self.contents().contains_key(name@) ==> r is Ok
                && r->Ok_0@ == self.contents()[name@],
    {
        if self.dir.is_none() {
            return Err(GenError::MissingOutDir);
        }
        let target = name.to_owned();
        let mut i: usize = self.writes.len();
        while i > 0
            invariant
                self.configured(),
                i <= self.writes@.len(),
                target@ == name@,
                forall|j: int| i <= j < self.writes@.len() ==> self.writes@[j].0@ != name@,
            decreases i,
        {
            i = i - 1;
            if self.writes[i].0 == target {
                proof {
                    lemma_map_of_unmatched_suffix(self.writes@, i + 1, name@);
                    assert(self.writes@.take(i + 1).drop_last() =~= self.writes@.take(i as int));
                    assert(self.writes@.take(i + 1).last() == self.writes@[i as int]);
                    assert(map_of(self.writes@.take(i + 1)) == map_of(
                        self.writes@.take(i as int),
                    ).insert(self.writes@[i as int].0@, self.writes@[i as int].1@));
                }
                return Ok(self.writes[i].1.clone());
            }
        }
        proof {
            lemma_map_of_unmatched_suffix(self.writes@, 0, name@);
            assert(self.writes@.take(0) =~= Seq::<(String, String)>::empty());
        }
        Err(GenError::MissingFile)
    }
}

} // verus!
