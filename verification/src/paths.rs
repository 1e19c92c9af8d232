//! What the library asks of `std::path`: the extension of a path, and a path
//! with its extension replaced.
//!
//! Neither function is proved. How a path falls into components, and which
//! part of its last component counts as the extension, is decided by `std`
//! for the platform that the library is built for; the contracts give those
//! answers a name.

use vstd::prelude::*;

verus! {

/// The extension that `std::path::Path::extension` finds in a path, or `None`
/// where it finds none.
pub uninterp spec fn path_extension(path: Seq<char>) -> Option<Seq<char>>;

/// The path that `std::path::PathBuf::set_extension` leaves when it is given
/// a path and an extension.
pub uninterp spec fn path_with_extension(path: Seq<char>, extension: Seq<char>) -> Seq<char>;

/// Whether a character separates the components of a path on some platform.
pub open spec fn is_separator(c: char) -> bool {
    c == '/' || c == '\\'
}

/// Whether a text is free of path separators.
pub open spec fn separator_free(text: Seq<char>) -> bool {
    forall|i: int| 0 <= i < text.len() ==> !is_separator(#[trigger] text[i])
}

/// Calls `std::path::Path::extension` on the path and hands the extension
/// back as a string. The contract only names the outcome.
#[verifier::external_body]
pub(crate) fn extension_of(path: &str) -> (extension: Option<String>)
    ensures
        match (extension, path_extension(path@)) {
            (Some(text), Some(named)) => text@ == named,
            (None, None) => true,
            _ => false,
        },
{
    match std::path::Path::new(path).extension() {
        Some(extension) => Some(extension.to_string_lossy().into_owned()),
        None => None,
    }
}

/// Calls `std::path::PathBuf::set_extension` on a copy of the path and hands
/// the copy back as a string. `set_extension` panics on an extension that
/// holds a path separator, so such an extension is left out. The contract
/// only names the outcome.
#[verifier::external_body]
pub(crate) fn replace_extension(path: &str, extension: &str) -> (replaced: String)
    requires
        separator_free(extension@),
    ensures
        replaced@ == path_with_extension(path@, extension@),
{
    let mut buffer = std::path::PathBuf::from(path);
    buffer.set_extension(extension);
    buffer.to_string_lossy().into_owned()
}

} // verus!
