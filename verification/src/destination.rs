//! Where the finished document is stored.

use std::path::PathBuf;
use vstd::prelude::*;

verus! {

/// `std::path::PathBuf`, carried through as an opaque value.
#[verifier::external_type_specification]
#[verifier::external_body]
pub struct ExPathBuf(PathBuf);

/// The file extension of a stored document.
pub const DOCUMENT_EXTENSION: &'static str = "svg";

/// Whether `extension` is free of path separators.
pub open spec fn is_plain_extension(extension: Seq<char>) -> bool {
    forall|i: int| 0 <= i < extension.len() ==> extension[i] != '/' && extension[i] != '\\'
}

/// What `std::path::Path::with_extension` makes of a path: the same path
/// with `extension` in place of the extension of its file name, or added to
/// a file name that has none. Where the file name ends and how it divides
/// into stem and extension is as the platform has it.
pub uninterp spec fn extension_replaced(path: PathBuf, extension: Seq<char>) -> PathBuf;

/// Calls `std::path::Path::with_extension`, whose result depends on the path
/// and the extension alone. The call panics on an extension that holds a
/// path separator, so such an extension is ruled out.
#[verifier::external_body]
fn with_extension(path: &PathBuf, extension: &str) -> (renamed: PathBuf)
    requires
        is_plain_extension(extension@),
    ensures
        renamed == extension_replaced(*path, extension@),
{
    path.with_extension(extension)
}

/// The destination to use: the one that was asked for, or else `derived`.
pub fn destination_or(destination: Option<PathBuf>, derived: PathBuf) -> (chosen: PathBuf)
    ensures
        chosen == (match destination {
            Some(path) => path,
            None => derived,
        }),
{
    match destination {
        Some(path) => path,
        None => derived,
    }
}

/// `path` with its extension replaced by the document extension.
pub(crate) fn with_document_extension(path: &PathBuf) -> (renamed: PathBuf)
    ensures
        renamed == extension_replaced(*path, DOCUMENT_EXTENSION@),
{
    proof {
        reveal_strlit("svg");
    }
    with_extension(path, DOCUMENT_EXTENSION)
}

/// The destination of a run: `destination` where one is given, otherwise
/// `source` with its extension replaced by the document extension.
pub fn get_destination(source: &PathBuf, destination: Option<PathBuf>) -> (chosen: PathBuf)
    ensures
        chosen == (match destination {
            Some(path) => path,
            None => extension_replaced(*source, DOCUMENT_EXTENSION@),
        }),
{
    let derived = with_document_extension(source);
    destination_or(destination, derived)
}

} // verus!
