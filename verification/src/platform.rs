//! The names that the engine's files carry on each platform.
use vstd::prelude::*;
use vstd::string::*;

verus! {

/// The operating systems on which the engine is hosted.
#[derive(Clone, Copy, Debug, PartialEq, Eq, Structural)]
pub enum Platform {
    Windows,
    MacOs,
    Linux,
}

/// The file name of the engine's library.
pub open spec fn library_name_of(platform: Platform) -> Seq<char> {
    match platform {
        Platform::Windows => "coreclr.dll"@,
        Platform::MacOs => "libcoreclr.dylib"@,
        Platform::Linux => "libcoreclr.so"@,
    }
}

/// The extension of a native library.
pub open spec fn library_extension_of(platform: Platform) -> Seq<char> {
    match platform {
        Platform::Windows => "dll"@,
        Platform::MacOs => "dylib"@,
        Platform::Linux => "so"@,
    }
}

/// The file name under which the engine's library is looked for.
pub fn library_name(platform: Platform) -> (name: &'static str)
    ensures
        name@ == library_name_of(platform),
{
    match platform {
        Platform::Windows => "coreclr.dll",
        Platform::MacOs => "libcoreclr.dylib",
        Platform::Linux => "libcoreclr.so",
    }
}

/// The extension that native libraries carry.
pub fn library_extension(platform: Platform) -> (extension: &'static str)
    ensures
        extension@ == library_extension_of(platform),
{
    match platform {
        Platform::Windows => "dll",
        Platform::MacOs => "dylib",
        Platform::Linux => "so",
    }
}

/// The pattern that finds every native library of a directory: `*.` and the
/// platform's extension.
pub fn default_pattern(platform: Platform) -> (pattern: String)
    ensures
        pattern@ == "*."@ + library_extension_of(platform),
{
    let mut pattern = String::from_str("*.");
    pattern.append(library_extension(platform));
    pattern
}

} // verus!
