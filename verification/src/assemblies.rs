//! The list of library files that the engine may load.
use vstd::prelude::*;
use vstd::string::*;
use std::path::Path;
use crate::error::CoreClrError;
use crate::fs::{as_path, canonical_text, join_text};
use crate::text::{join, joined, texts};

verus! {

/// One entry of a pattern's expansion.
#[derive(Debug)]
pub enum Found {
    /// A file that matches, with its path as text.
    File(String),
    /// A file that matches, whose path cannot be written as text.
    Unprintable,
    /// An entry that could not be read.
    Unreadable,
}

/// Library files in the order in which they were found. A file that is found
/// twice is held twice, and a file whose path cannot be written as text is
/// held without one.
#[derive(Debug)]
pub struct Assemblies {
    assemblies: Vec<Option<String>>,
}

/// What the list holds for the entries of a pattern's expansion, in order:
/// every file, with its path where that is text, and nothing for an entry
/// that could not be read.
pub open spec fn kept(entries: Seq<Found>) -> Seq<Option<Seq<char>>>
    decreases entries.len(),
{
    if entries.len() == 0 {
        Seq::empty()
    } else {
        match entries.last() {
            Found::File(path) => kept(entries.drop_last()).push(Some(path@)),
            Found::Unprintable => kept(entries.drop_last()).push(None),
            Found::Unreadable => kept(entries.drop_last()),
        }
    }
}

/// The paths of the held files, `None` for a file whose path is no text.
pub open spec fn shown(held: Seq<Option<String>>) -> Seq<Option<Seq<char>>> {
    Seq::new(
        held.len(),
        |i: int|
            match held[i] {
                Some(path) => Some(path@),
                None => None,
            },
    )
}

/// Calls `glob::glob` on a pattern and walks the iterator that it returns to
/// its end. Each entry is handed back in order and as it came: a match with
/// its path as text, a match whose path is not valid Unicode, or an entry
/// that could not be read. What is found depends on what is on disk, and
/// whether a pattern is accepted on how the platform splits paths, so nothing
/// is claimed of either.
#[verifier::external_body]
fn expand(pattern: &str) -> (found: Result<Vec<Found>, glob::PatternError>)
{
    match glob::glob(pattern) {
        Ok(paths) => Ok(paths.map(|entry| match entry {
            Ok(path) => path.to_str().map_or(Found::Unprintable, |text| Found::File(String::from(text))),
            Err(_) => Found::Unreadable,
        }).collect()),
        Err(error) => Err(error),
    }
}

/// What resolving one file of the list gave, as the step of a rendering: the
/// canonical path where there is one and it is text, and else the failure.
pub fn resolved_file(resolved: std::result::Result<Option<String>, std::io::Error>) -> (outcome:
    Result<String, CoreClrError>)
    ensures
        match resolved {
            Ok(Some(canonical)) => outcome == Ok::<String, CoreClrError>(canonical),
            Ok(None) => (outcome matches Err(CoreClrError::PathError(message)) && message@
                == "Conversion error."@),
            Err(error) => outcome == Err::<String, CoreClrError>(CoreClrError::IoError(error)),
        },
{
    match resolved {
        Ok(Some(canonical)) => Ok(canonical),
        Ok(None) => Err(CoreClrError::PathError(String::from_str("Conversion error."))),
        Err(error) => Err(CoreClrError::IoError(error)),
    }
}

/// What resolving one file on disk gave: its canonical path, `None` where
/// that is no text, or the filesystem's refusal.
pub type Resolution = std::result::Result<Option<String>, std::io::Error>;

/// Resolving gave a canonical path as text.
pub open spec fn is_resolved(answer: Resolution) -> bool {
    answer matches Ok(Some(_))
}

/// The canonical path that resolving gave.
pub open spec fn resolved_text(answer: Resolution) -> Seq<char> {
    match answer {
        Ok(Some(canonical)) => canonical@,
        _ => Seq::empty(),
    }
}

/// The canonical paths that resolving the files of a list gave, in order.
pub open spec fn resolved_texts(answers: Seq<Resolution>) -> Seq<Seq<char>> {
    Seq::new(answers.len(), |i: int| resolved_text(answers[i]))
}

/// Every file of a list resolved to a path as text.
pub open spec fn all_resolved(answers: Seq<Resolution>) -> bool {
    forall|i: int| 0 <= i < answers.len() ==> is_resolved(#[trigger] answers[i])
}

/// The outcome is the failure of the first file that did not resolve to a
/// path as text: a conversion error where its path is no text, and else the
/// filesystem's refusal.
pub open spec fn reports_first_failure<T>(
    answers: Seq<Resolution>,
    outcome: Result<T, CoreClrError>,
) -> bool {
    exists|i: int|
        0 <= i < answers.len() && !is_resolved(#[trigger] answers[i]) && all_resolved(
            answers.take(i),
        ) && match answers[i] {
            Ok(_) => (outcome matches Err(CoreClrError::PathError(message)) && message@
                == "Conversion error."@),
            Err(error) => outcome == Err::<T, CoreClrError>(CoreClrError::IoError(error)),
        }
}

/// What collecting the resolved files gives: their canonical paths in order
/// where every file resolved, and else the first failure.
pub open spec fn collect_result(
    answers: Seq<Resolution>,
    outcome: Result<Vec<String>, CoreClrError>,
) -> bool {
    if all_resolved(answers) {
        outcome matches Ok(resolved) && texts(resolved@) == resolved_texts(answers)
    } else {
        reports_first_failure(answers, outcome)
    }
}

/// What rendering the resolved files gives: their canonical paths in order,
/// joined, where every file resolved, and else the first failure.
pub open spec fn render_result(
    answers: Seq<Resolution>,
    outcome: Result<String, CoreClrError>,
) -> bool {
    if all_resolved(answers) {
        outcome matches Ok(line) && line@ == joined(resolved_texts(answers))
    } else {
        reports_first_failure(answers, outcome)
    }
}

/// The answers are those for the files of a list: one for each, and for a
/// file whose path is no text the answer that its resolved path is none.
pub open spec fn answers_for(held: Seq<Option<Seq<char>>>, answers: Seq<Resolution>) -> bool {
    &&& answers.len() == held.len()
    &&& forall|i: int|
        0 <= i < held.len() && held[i] is None ==> #[trigger] answers[i] == Ok::<
            Option<String>,
            std::io::Error,
        >(None)
}

/// Collects the canonical paths from what resolving each file gave, in
/// order, and stops at the first file that did not resolve to a path as text.
pub fn collect(answers: Vec<Resolution>) -> (outcome: Result<Vec<String>, CoreClrError>)
    ensures
        collect_result(answers@, outcome),
{
    let mut rest = answers;
    let mut resolved: Vec<String> = Vec::new();
    proof {
        assert(answers@.skip(0) =~= answers@);
    }
    while rest.len() > 0
        invariant
            resolved@.len() <= answers@.len(),
            rest@ == answers@.skip(resolved@.len() as int),
            all_resolved(answers@.take(resolved@.len() as int)),
            texts(resolved@) == resolved_texts(answers@.take(resolved@.len() as int)),
        decreases rest@.len(),
    {
        let ghost done = resolved@.len() as int;
        let ghost before = resolved@;
        let answer = rest.remove(0);
        proof {
            assert(answer == answers@[done]);
            assert(rest@ =~= answers@.skip(done + 1));
        }
        match resolved_file(answer) {
            Ok(canonical) => {
                resolved.push(canonical);
                proof {
                    assert(is_resolved(answers@[done]));
                    assert forall|j: int| 0 <= j < done + 1 implies is_resolved(
                        #[trigger] answers@.take(done + 1)[j],
                    ) by {
                        if j < done {
                            assert(answers@.take(done + 1)[j] == answers@.take(done)[j]);
                        }
                    }
                    assert(texts(resolved@) =~= resolved_texts(answers@.take(done + 1))) by {
                        assert forall|j: int| 0 <= j < done + 1 implies texts(resolved@)[j]
                            == resolved_texts(answers@.take(done + 1))[j] by {
                            if j < done {
                                assert(texts(resolved@)[j] == texts(before)[j]);
                                assert(resolved_texts(answers@.take(done))[j] == resolved_text(
                                    answers@[j],
                                ));
                            }
                        }
                    }
                }
            },
            Err(error) => {
                let outcome = Err(error);
                proof {
                    assert(!is_resolved(answers@[done]));
                    assert(!all_resolved(answers@));
                    assert(reports_first_failure::<Vec<String>>(answers@, outcome));
                }
                return outcome;
            },
        }
    }
    proof {
        assert(answers@.take(answers@.len() as int) =~= answers@);
    }
    Ok(resolved)
}

impl View for Assemblies {
    type V = Seq<Option<Seq<char>>>;

    /// The files of the list as they were found, oldest first: the path of
    /// each, or `None` where the path is no text.
    closed spec fn view(&self) -> Seq<Option<Seq<char>>> {
        shown(self.assemblies@)
    }
}

impl Assemblies {
    /// The list holds a file whose path cannot be written as text.
    pub open spec fn holds_unprintable(&self) -> bool {
        exists|i: int| 0 <= i < self@.len() && self@[i] is None
    }

    /// An empty list.
    pub fn new() -> (list: Assemblies)
        ensures
            list@ == Seq::<Option<Seq<char>>>::empty(),
    {
        let list = Assemblies { assemblies: Vec::new() };
        proof {
            assert(list@ =~= Seq::<Option<Seq<char>>>::empty());
        }
        list
    }

    /// Whether the list holds no file.
    pub fn is_empty(&self) -> (empty: bool)
        ensures
            empty == (self@.len() == 0),
    {
        self.assemblies.len() == 0
    }

    /// The number of files in the list, repeats counted.
    pub fn len(&self) -> (count: usize)
        ensures
            count == self@.len(),
    {
        self.assemblies.len()
    }

    /// Appends every file of an expansion, in order and without looking for
    /// repeats. Entries that could not be read are passed over.
    pub fn append(&mut self, entries: &Vec<Found>)
        ensures
            final(self)@ == old(self)@ + kept(entries@),
    {
        let mut i: usize = 0;
        proof {
            assert(entries@.take(0) =~= Seq::<Found>::empty());
            assert(self@ =~= old(self)@ + kept(entries@.take(0)));
        }
        while i < entries.len()
            invariant
                i <= entries.len(),
                self@ == old(self)@ + kept(entries@.take(i as int)),
            decreases entries.len() - i,
        {
            let ghost before = self@;
            proof {
                assert(entries@.take(i + 1).drop_last() =~= entries@.take(i as int));
                assert(entries@.take(i + 1).last() == entries@[i as int]);
            }
            match &entries[i] {
                Found::File(path) => {
                    self.assemblies.push(Some(path.clone()));
                    proof {
                        assert(self@ =~= before.push(Some(path@)));
                        assert(self@ =~= old(self)@ + kept(entries@.take(i + 1)));
                    }
                },
                Found::Unprintable => {
                    self.assemblies.push(None);
                    proof {
                        assert(self@ =~= before.push(None));
                        assert(self@ =~= old(self)@ + kept(entries@.take(i + 1)));
                    }
                },
                Found::Unreadable => {},
            }
            i = i + 1;
        }
        proof {
            assert(entries@.take(entries.len() as int) =~= entries@);
        }
    }

    /// Takes in what expanding a pattern gave: the files of a successful
    /// expansion are appended; a refused pattern is reported and leaves the
    /// list as it was.
    pub fn add_expansion(&mut self, expansion: Result<Vec<Found>, glob::PatternError>) -> (outcome:
        Result<(), CoreClrError>)
        ensures
            match expansion {
                Ok(entries) => outcome is Ok && final(self)@ == old(self)@ + kept(entries@),
                Err(error) => outcome == Err::<(), CoreClrError>(CoreClrError::PatternError(error))
                    && final(self)@ == old(self)@,
            },
    {
        match expansion {
            Ok(entries) => {
                self.append(&entries);
                Ok(())
            },
            Err(error) => Err(CoreClrError::PatternError(error)),
        }
    }

    /// Expands a pattern that was joined to its directory and appends what is
    /// found. A directory and pattern that could not be written as text are
    /// refused as such: nothing is expanded and the list stays as it was.
    /// Else, whatever is on disk, a success keeps the old files in front of
    /// the new ones, and the one failure is a refused pattern, which leaves
    /// the list as it was.
    pub fn add_joined(&mut self, joined: Option<String>) -> (outcome: Result<(), CoreClrError>)
        ensures
            joined is None ==> (outcome matches Err(CoreClrError::PathError(message)) && message@
                == "Invalid path+pattern."@) && final(self)@ == old(self)@,
            joined is Some && outcome is Ok ==> exists|entries: Seq<Found>|
                final(self)@ == old(self)@ + kept(entries),
            joined is Some && outcome is Ok ==> old(self)@.is_prefix_of(final(self)@),
            joined is Some && outcome is Err ==> outcome->Err_0 is PatternError && final(self)@
                == old(self)@,
    {
        match joined {
            Some(glob_string) => {
                let expansion = expand(glob_string.as_str());
                let ghost entries = if expansion is Ok {
                    expansion->Ok_0@
                } else {
                    Seq::<Found>::empty()
                };
                let outcome = self.add_expansion(expansion);
                proof {
                    if outcome is Ok {
                        assert(final(self)@ == old(self)@ + kept(entries));
                    }
                }
                outcome
            },
            None => Err(CoreClrError::PathError(String::from_str("Invalid path+pattern."))),
        }
    }

    /// Expands `pattern` below the directory `path` and appends what is found.
    /// Whatever is on disk, a success keeps the old files in front of the new
    /// ones, and a failure, which is a directory and pattern that cannot be
    /// written as text or a refused pattern, leaves the list as it was.
    pub fn add(&mut self, path: &Path, pattern: &str) -> (outcome: Result<(), CoreClrError>)
        ensures
            outcome is Ok ==> exists|entries: Seq<Found>|
                final(self)@ == old(self)@ + kept(entries),
            outcome is Ok ==> old(self)@.is_prefix_of(final(self)@),
            outcome matches Err(error) ==> final(self)@ == old(self)@ && (error is PathError
                || error is PatternError),
    {
        self.add_joined(join_text(path, pattern))
    }

    /// Asks the filesystem for the canonical path of every file of the list,
    /// in order. A file whose path is no text is not asked about: its answer
    /// is that its resolved path is none. What the filesystem answers is its
    /// own, so nothing more is promised.
    pub fn resolutions(&self) -> (answers: Vec<Resolution>)
        ensures
            answers_for(self@, answers@),
    {
        let mut answers: Vec<Resolution> = Vec::new();
        let mut i: usize = 0;
        while i < self.assemblies.len()
            invariant
                i <= self.assemblies.len(),
                answers@.len() == i,
                forall|j: int|
                    0 <= j < i && self@[j] is None ==> #[trigger] answers@[j] == Ok::<
                        Option<String>,
                        std::io::Error,
                    >(None),
            decreases self.assemblies.len() - i,
        {
            match &self.assemblies[i] {
                Some(path) => {
                    assert(self@[i as int] is Some);
                    answers.push(canonical_text(as_path(path.as_str())));
                },
                None => {
                    answers.push(Ok(None));
                },
            }
            i = i + 1;
        }
        answers
    }

    /// Resolves every file of the list on disk, in order, and gives the
    /// canonical paths, or the failure of the first file whose path is no
    /// text, that can no longer be resolved, or whose resolved path is no
    /// text. So a list that holds a file without a path as text always fails,
    /// and an empty list always resolves.
    pub fn canonical(&self) -> (outcome: Result<Vec<String>, CoreClrError>)
        ensures
            exists|answers: Seq<Resolution>|
                answers_for(self@, answers) && collect_result(answers, outcome),
            outcome matches Ok(resolved) ==> resolved@.len() == self@.len()
                && !self.holds_unprintable(),
            outcome matches Err(error) ==> error is IoError || error is PathError,
            self@.len() == 0 ==> outcome is Ok,
    {
        let answers = self.resolutions();
        let outcome = collect(answers);
        proof {
            lemma_collected(self@, answers@, outcome);
        }
        outcome
    }

    /// The canonical paths of the files joined with `;`, oldest first, or the
    /// failure of the first file that did not resolve to a path as text; the
    /// empty list gives the empty string.
    pub fn to_string(&self) -> (outcome: Result<String, CoreClrError>)
        ensures
            exists|answers: Seq<Resolution>|
                answers_for(self@, answers) && render_result(answers, outcome),
            outcome matches Ok(line) ==> !self.holds_unprintable() && exists|
                resolved: Seq<Seq<char>>,
            |
                resolved.len() == self@.len() && line@ == joined(resolved),
            outcome matches Err(error) ==> error is IoError || error is PathError,
            self@.len() == 0 ==> outcome is Ok && outcome->Ok_0@ == Seq::<char>::empty(),
    {
        let answers = self.resolutions();
        let collected = collect(answers);
        let ghost snapshot = collected;
        proof {
            lemma_collected(self@, answers@, collected);
        }
        match collected {
            Ok(resolved) => {
                let line = join(&resolved);
                let outcome = Ok(line);
                proof {
                    assert(texts(resolved@).len() == self@.len());
                    assert(render_result(answers@, outcome));
                }
                outcome
            },
            Err(error) => {
                let outcome = Err(error);
                proof {
                    assert(collect_result(answers@, snapshot));
                    lemma_failure_carries(answers@, snapshot, outcome);
                    assert(render_result(answers@, outcome));
                }
                outcome
            },
        }
    }
}

/// The first failure among the answers is the same failure whatever the
/// call that reports it would have given on success.
pub proof fn lemma_failure_carries<T, U>(
    answers: Seq<Resolution>,
    from: Result<T, CoreClrError>,
    to: Result<U, CoreClrError>,
)
    requires
        reports_first_failure(answers, from),
        from is Err,
        to is Err,
        from->Err_0 == to->Err_0,
    ensures
        reports_first_failure(answers, to),
{
    let i = choose|i: int|
        0 <= i < answers.len() && !is_resolved(#[trigger] answers[i]) && all_resolved(
            answers.take(i),
        ) && match answers[i] {
            Ok(_) => (from matches Err(CoreClrError::PathError(message)) && message@
                == "Conversion error."@),
            Err(error) => from == Err::<T, CoreClrError>(CoreClrError::IoError(error)),
        };
    assert(!is_resolved(answers[i]));
}

/// What follows for a list from collecting the answers for its files: a
/// success has one path for each file and none of the files is without a
/// path as text, a failure is the filesystem's or a conversion error, and an
/// empty list succeeds.
pub proof fn lemma_collected(
    held: Seq<Option<Seq<char>>>,
    answers: Seq<Resolution>,
    outcome: Result<Vec<String>, CoreClrError>,
)
    requires
        answers_for(held, answers),
        collect_result(answers, outcome),
    ensures
        outcome matches Ok(resolved) ==> resolved@.len() == held.len() && forall|i: int|
            0 <= i < held.len() ==> held[i] is Some,
        outcome matches Err(error) ==> error is IoError || error is PathError,
        held.len() == 0 ==> outcome is Ok,
{
    if all_resolved(answers) {
        let resolved = outcome->Ok_0;
        assert(texts(resolved@).len() == answers.len());
        assert forall|i: int| 0 <= i < held.len() implies held[i] is Some by {
            assert(is_resolved(answers[i]));
        }
    }
}

impl Default for Assemblies {
    fn default() -> (list: Assemblies)
        ensures
            list@ == Seq::<Option<Seq<char>>>::empty(),
    {
        Assemblies::new()
    }
}

/// The list is no set: taking in the same expansion twice holds each of its
/// files twice, behind what the list held before.
pub proof fn lemma_repeats_are_kept(
    before: Seq<Option<Seq<char>>>,
    entries: Seq<Found>,
    once: Seq<Option<Seq<char>>>,
    twice: Seq<Option<Seq<char>>>,
)
    requires
        once == before + kept(entries),
        twice == once + kept(entries),
    ensures
        twice.len() == before.len() + 2 * kept(entries).len(),
        before.is_prefix_of(twice),
        forall|i: int|
            0 <= i < kept(entries).len() ==> twice[before.len() + i] == kept(entries)[i]
                && twice[before.len() + kept(entries).len() + i] == kept(entries)[i],
{
}

} // verus!
