//! The questions that the collections ask of the filesystem, and the plain
//! answers that the rest of the library works on.
use vstd::prelude::*;
use std::path::Path;

verus! {

/// `std::path::Path`, carried through as an opaque value.
#[verifier::external_type_specification]
#[verifier::external_body]
pub struct ExPath(Path);

/// What the filesystem said of a path that is offered as a directory.
#[derive(Debug)]
pub enum Probe {
    /// The path does not resolve to a directory.
    NotADirectory,
    /// The path is a directory, but resolving it failed.
    Unresolved(std::io::Error),
    /// The path resolved to a location that cannot be written as text.
    Unprintable,
    /// The path is a directory; this is its canonical form.
    Directory(String),
}

/// Calls `Path::new` on a piece of text. Nothing is claimed of the path.
#[verifier::external_body]
pub(crate) fn as_path(text: &str) -> (path: &Path)
{
    Path::new(text)
}

/// Calls `Path::is_dir`. The answer depends on what is on disk, so nothing is
/// claimed of it.
#[verifier::external_body]
pub(crate) fn is_directory(path: &Path) -> (answer: bool)
{
    path.is_dir()
}

/// Calls `Path::canonicalize` and hands the resolved path back as text, `None`
/// where it is not valid Unicode. The answer depends on what is on disk, so
/// nothing is claimed of it.
#[verifier::external_body]
pub(crate) fn canonical_text(path: &Path) -> (resolved: std::result::Result<Option<String>, std::io::Error>)
{
    match path.canonicalize() {
        Ok(canonical) => Ok(canonical.to_str().map(String::from)),
        Err(error) => Err(error),
    }
}

/// Calls `Path::join` to put a pattern below a directory and hands the joined
/// path back as text, `None` where it is not valid Unicode. How two paths
/// join differs between platforms, so nothing is claimed of the text.
#[verifier::external_body]
pub(crate) fn join_text(directory: &Path, pattern: &str) -> (joined: Option<String>)
{
    directory.join(pattern).to_str().map(String::from)
}

/// The answer of a probe for a path that is a directory, from what resolving
/// it gave.
pub fn resolved_directory(resolved: std::result::Result<Option<String>, std::io::Error>) -> (answer:
    Probe)
    ensures
        answer == match resolved {
            Ok(Some(canonical)) => Probe::Directory(canonical),
            Ok(None) => Probe::Unprintable,
            Err(error) => Probe::Unresolved(error),
        },
{
    match resolved {
        Ok(Some(canonical)) => Probe::Directory(canonical),
        Ok(None) => Probe::Unprintable,
        Err(error) => Probe::Unresolved(error),
    }
}

/// The answer of a probe for a path of which it is known whether it is a
/// directory: one that is none is answered as such and not resolved, and a
/// directory is resolved on disk and answered with what resolving it gave.
pub fn probe_known(path: &Path, is_dir: bool) -> (answer: Probe)
    ensures
        !is_dir ==> answer is NotADirectory,
        is_dir ==> !(answer is NotADirectory),
{
    if is_dir {
        resolved_directory(canonical_text(path))
    } else {
        Probe::NotADirectory
    }
}

/// Asks the filesystem about `path`: whether it is a directory and, if so,
/// what its canonical form is. A path that is no directory is not resolved.
/// The answer is the filesystem's, so nothing is promised of it.
pub fn probe(path: &Path) -> (answer: Probe)
{
    probe_known(path, is_directory(path))
}

} // verus!
