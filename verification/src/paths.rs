//! A set of canonical directory paths.
use vstd::prelude::*;
use vstd::string::*;
use std::path::Path;
use crate::error::CoreClrError;
use crate::fs::{probe, Probe};
use crate::text::{join, joined, same_text, texts};

verus! {

/// Directories, each held once, in the order in which they were added.
#[derive(Debug)]
pub struct Paths {
    paths: Vec<String>,
}

/// What adding a probed path does to a set: `before` and `after` are the set's
/// directories around the call and `outcome` is what the call returns.
pub open spec fn add_effect(
    before: Seq<Seq<char>>,
    answer: Probe,
    after: Seq<Seq<char>>,
    outcome: Result<(), CoreClrError>,
) -> bool {
    match answer {
        Probe::NotADirectory => after == before && outcome == Err::<(), CoreClrError>(
            CoreClrError::NotADirectory,
        ),
        Probe::Unresolved(error) => after == before && outcome == Err::<(), CoreClrError>(
            CoreClrError::IoError(error),
        ),
        Probe::Unprintable => after == before && (outcome matches Err(
            CoreClrError::PathError(message),
        ) && message@ == "Invalid canonical path."@),
        Probe::Directory(canonical) => if before.contains(canonical@) {
            after == before && outcome == Err::<(), CoreClrError>(CoreClrError::Duplicate)
        } else {
            after == before.push(canonical@) && outcome is Ok
        },
    }
}

impl View for Paths {
    type V = Seq<Seq<char>>;

    /// The directories of the set, oldest first.
    closed spec fn view(&self) -> Seq<Seq<char>> {
        texts(self.paths@)
    }
}

impl Paths {
    /// No directory occurs twice.
    pub open spec fn wf(&self) -> bool {
        self@.no_duplicates()
    }

    /// Holds of every set: the type admits no other.
    #[verifier::type_invariant]
    spec fn unique(&self) -> bool {
        texts(self.paths@).no_duplicates()
    }

    /// An empty set.
    pub fn new() -> (set: Paths)
        ensures
            set@ == Seq::<Seq<char>>::empty(),
            set.wf(),
    {
        let set = Paths { paths: Vec::new() };
        proof {
            assert(set@ =~= Seq::<Seq<char>>::empty());
        }
        set
    }

    /// Whether the set holds no directory.
    pub fn is_empty(&self) -> (empty: bool)
        ensures
            empty == (self@.len() == 0),
            self.wf(),
    {
        proof {
            use_type_invariant(self);
        }
        self.paths.len() == 0
    }

    /// The number of directories in the set.
    pub fn len(&self) -> (count: usize)
        ensures
            count == self@.len(),
            self.wf(),
    {
        proof {
            use_type_invariant(self);
        }
        self.paths.len()
    }

    /// Whether `path`, taken letter for letter, is in the set.
    pub fn contains(&self, path: &str) -> (found: bool)
        ensures
            found == self@.contains(path@),
    {
        let mut i: usize = 0;
        while i < self.paths.len()
            invariant
                i <= self.paths.len(),
                forall|j: int| 0 <= j < i ==> self@[j] != path@,
            decreases self.paths.len() - i,
        {
            if same_text(self.paths[i].as_str(), path) {
                assert(self@[i as int] == path@);
                return true;
            }
            i = i + 1;
        }
        false
    }

    /// Adds a path that the filesystem was asked about: a canonical directory
    /// that the set does not hold yet goes in at the end; a known one is
    /// reported as a duplicate; anything else is refused with the reason that
    /// the probe gives. A refusal leaves the set as it was.
    pub fn add(&mut self, answer: Probe) -> (outcome: Result<(), CoreClrError>)
        ensures
            add_effect(old(self)@, answer, final(self)@, outcome),
            answer matches Probe::Directory(canonical) ==> final(self)@.contains(canonical@),
            final(self).wf(),
    {
        proof {
            use_type_invariant(&*self);
        }
        match answer {
            Probe::NotADirectory => Err(CoreClrError::NotADirectory),
            Probe::Unresolved(error) => Err(CoreClrError::IoError(error)),
            Probe::Unprintable => Err(
                CoreClrError::PathError(String::from_str("Invalid canonical path.")),
            ),
            Probe::Directory(canonical) => {
                if self.contains(canonical.as_str()) {
                    Err(CoreClrError::Duplicate)
                } else {
                    let mut paths: Vec<String> = Vec::new();
                    std::mem::swap(&mut self.paths, &mut paths);
                    paths.push(canonical);
                    proof {
                        assert(texts(paths@) =~= old(self)@.push(canonical@));
                        assert(texts(paths@).last() == canonical@);
                    }
                    self.paths = paths;
                    Ok(())
                }
            },
        }
    }

    /// Probes `path` on disk and adds it. Whatever the filesystem answers, a
    /// success appends one directory that was not in the set, and a failure
    /// leaves the set as it was.
    pub fn add_path(&mut self, path: &Path) -> (outcome: Result<(), CoreClrError>)
        ensures
            exists|answer: Probe| add_effect(old(self)@, answer, final(self)@, outcome),
            outcome is Err ==> final(self)@ == old(self)@,
            outcome is Ok ==> final(self)@.len() == old(self)@.len() + 1
                && final(self)@.drop_last() == old(self)@
                && !old(self)@.contains(final(self)@.last()),
            final(self).wf(),
    {
        let answer = probe(path);
        let outcome = self.add(answer);
        proof {
            if outcome is Ok {
                assert(final(self)@.drop_last() =~= old(self)@);
            }
        }
        outcome
    }

    /// Appends `key` and the joined directories to a pair of parallel arrays,
    /// where the set holds a directory; an empty set adds nothing.
    pub(crate) fn push_into(&self, keys: &mut Vec<String>, values: &mut Vec<String>, key: &str)
        ensures
            texts(final(keys)@) == texts(old(keys)@) + crate::properties::key_of(key@, self@),
            texts(final(values)@) == texts(old(values)@) + crate::properties::value_of(self@),
    {
        crate::properties::push_property(keys, values, key, &self.paths)
    }

    /// The directories joined with `;`, oldest first; the empty string for an
    /// empty set.
    pub fn to_string(&self) -> (line: String)
        ensures
            line@ == joined(self@),
            self.wf(),
    {
        proof {
            use_type_invariant(self);
        }
        join(&self.paths)
    }
}

impl Default for Paths {
    fn default() -> (set: Paths)
        ensures
            set@ == Seq::<Seq<char>>::empty(),
            set.wf(),
    {
        Paths::new()
    }
}

/// Adding a directory that the set lacks succeeds, and adding the same
/// canonical directory once more is refused as a duplicate and changes nothing.
pub proof fn lemma_add_twice_is_duplicate(
    start: Seq<Seq<char>>,
    answer: Probe,
    once: Seq<Seq<char>>,
    first: Result<(), CoreClrError>,
    twice: Seq<Seq<char>>,
    second: Result<(), CoreClrError>,
)
    requires
        answer is Directory,
        !start.contains(answer->Directory_0@),
        add_effect(start, answer, once, first),
        add_effect(once, answer, twice, second),
    ensures
        first is Ok,
        second == Err::<(), CoreClrError>(CoreClrError::Duplicate),
        twice == once,
        once == start.push(answer->Directory_0@),
{
    let canonical = answer->Directory_0@;
    assert(once[once.len() - 1] == canonical);
}

/// A path that is no directory is always refused as such, and the set stays
/// as it was.
pub proof fn lemma_file_is_refused(
    before: Seq<Seq<char>>,
    after: Seq<Seq<char>>,
    outcome: Result<(), CoreClrError>,
)
    requires
        add_effect(before, Probe::NotADirectory, after, outcome),
    ensures
        outcome == Err::<(), CoreClrError>(CoreClrError::NotADirectory),
        after == before,
{
}

} // verus!
