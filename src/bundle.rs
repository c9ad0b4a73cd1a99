//! Where a plugin's binary lies: a path to the binary itself, or a `.vst3`
//! bundle directory whose platform subdirectory holds it.
use vstd::prelude::*;
use crate::text::chars_of;

verus! {

/// The operating systems whose bundle layout is known.
#[derive(Debug, Clone, Copy, PartialEq, Eq, Structural)]
pub enum Platform {
    MacOs,
    Windows,
    Linux,
    Other,
}

/// Why no binary path could be had.
#[derive(Debug, Clone, Copy, PartialEq, Eq, Structural)]
pub enum PathError {
    /// The path is neither a file nor a `.vst3` bundle.
    InvalidBundle,
    /// The bundle layout of this platform is not known.
    UnsupportedPlatform,
    /// The bundle has no binary directory.
    DirectoryNotFound,
    /// The binary directory holds no binary.
    NoBinary,
}

impl PathError {
    /// A short description of the error.
    pub fn message(&self) -> &'static str {
        match self {
            PathError::InvalidBundle => "Invalid VST3 path",
            PathError::UnsupportedPlatform => "Unsupported platform",
            PathError::DirectoryNotFound => "Directory not found",
            PathError::NoBinary => "No binary found",
        }
    }
}

/// Where to look for the binary.
#[derive(Debug, Clone, Copy, PartialEq, Eq)]
pub enum BinaryLocation {
    /// The path is the binary.
    AsGiven,
    /// The binary lies in this directory below the bundle: two path components.
    InBundle(&'static str, &'static str),
}

/// `s` ends with `suffix`.
pub open spec fn ends_with(s: Seq<char>, suffix: Seq<char>) -> bool {
    suffix.len() <= s.len() && s.subrange(s.len() - suffix.len(), s.len() as int) == suffix
}

pub fn chars_end_with(s: &Vec<char>, suffix: &Vec<char>) -> (r: bool)
    ensures
        r == ends_with(s@, suffix@),
{
    if suffix.len() > s.len() {
        return false;
    }
    let start = s.len() - suffix.len();
    let mut j: usize = 0;
    while j < suffix.len()
        invariant
            start + suffix@.len() == s@.len(),
            s@.len() <= usize::MAX,
            j <= suffix@.len(),
            forall|m: int| 0 <= m < j ==> s@[start + m] == suffix@[m],
        decreases suffix@.len() - j,
    {
        if s[start + j] != suffix[j] {
            assert(s@.subrange(start as int, s@.len() as int)[j as int] != suffix@[j as int]);
            return false;
        }
        j = j + 1;
    }
    assert(s@.subrange(start as int, s@.len() as int) =~= suffix@);
    true
}

/// The directory below a bundle that holds the binary, on each platform.
pub open spec fn bundle_subdirectory(platform: Platform, x86_64: bool) -> Option<(Seq<char>, Seq<char>)> {
    match platform {
        Platform::MacOs => Some(("Contents"@, "MacOS"@)),
        Platform::Windows => Some(("Contents"@, if x86_64 { "x86_64-win"@ } else { "x86-win"@ })),
        Platform::Linux => Some(("Contents"@, if x86_64 { "x86_64-linux"@ } else { "x86-linux"@ })),
        Platform::Other => None,
    }
}

/// Where the binary of `path` lies: the path itself where it is a file; else,
/// for a path that ends in `.vst3`, the platform's directory in the bundle.
pub fn locate_binary(path: &str, is_file: bool, platform: Platform, x86_64: bool) -> (r: Result<
    BinaryLocation,
    PathError,
>)
    ensures
        is_file ==> r == Ok::<BinaryLocation, PathError>(BinaryLocation::AsGiven),
        !is_file && !ends_with(path@, ".vst3"@) ==> r == Err::<BinaryLocation, PathError>(
            PathError::InvalidBundle,
        ),
        !is_file && ends_with(path@, ".vst3"@) ==> match bundle_subdirectory(platform, x86_64) {
            Some((a, b)) => r matches Ok(BinaryLocation::InBundle(x, y)) && x@ == a && y@ == b,
            None => r == Err::<BinaryLocation, PathError>(PathError::UnsupportedPlatform),
        },
{
    if is_file {
        return Ok(BinaryLocation::AsGiven);
    }
    let name = chars_of(path);
    let suffix = chars_of(".vst3");
    if !chars_end_with(&name, &suffix) {
        return Err(PathError::InvalidBundle);
    }
    match platform {
        Platform::MacOs => Ok(BinaryLocation::InBundle("Contents", "MacOS")),
        Platform::Windows => Ok(
            BinaryLocation::InBundle("Contents", if x86_64 { "x86_64-win" } else { "x86-win" }),
        ),
        Platform::Linux => Ok(
            BinaryLocation::InBundle("Contents", if x86_64 { "x86_64-linux" } else { "x86-linux" }),
        ),
        Platform::Other => Err(PathError::UnsupportedPlatform),
    }
}

/// A file of the binary directory that may be the binary: on macOS any file
/// that is not hidden, a property list or a text file; elsewhere a file with
/// the platform's library extension.
pub open spec fn is_binary_candidate(platform: Platform, name: Seq<char>) -> bool {
    match platform {
        Platform::MacOs => !(name.len() > 0 && name[0] == '.') && !ends_with(name, ".plist"@)
            && !ends_with(name, ".txt"@),
        Platform::Windows => name.len() > 5 && ends_with(name, ".vst3"@),
        Platform::Linux => name.len() > 3 && ends_with(name, ".so"@),
        Platform::Other => false,
    }
}

/// Whether the file called `name` may be the binary.
pub fn binary_candidate(platform: Platform, name: &str) -> (r: bool)
    ensures
        r == is_binary_candidate(platform, name@),
{
    let chars = chars_of(name);
    match platform {
        Platform::MacOs => {
            let hidden = chars.len() > 0 && chars[0] == '.';
            !hidden && !chars_end_with(&chars, &chars_of(".plist")) && !chars_end_with(
                &chars,
                &chars_of(".txt"),
            )
        },
        Platform::Windows => chars.len() > 5 && chars_end_with(&chars, &chars_of(".vst3")),
        Platform::Linux => chars.len() > 3 && chars_end_with(&chars, &chars_of(".so")),
        Platform::Other => false,
    }
}

} // verus!
