//! The operations of `std::path` that the library relies on.

use vstd::prelude::*;

verus! {

/// The extension that `std::path::Path::extension` finds in a path: the part
/// of the file name behind its last dot, where the name has one that is not
/// its first character.
pub uninterp spec fn extension_of(path: Seq<char>) -> Option<Seq<char>>;

/// The path that `std::path::Path::join` makes of a directory and a name.
pub uninterp spec fn joined_path(base: Seq<char>, name: Seq<char>) -> Seq<char>;

/// Whether `std::path::Path::starts_with` finds `base` to be a prefix of
/// `path`, component by component.
pub uninterp spec fn path_within(path: Seq<char>, base: Seq<char>) -> bool;

/// Calls `std::path::Path::extension` on the path that the text spells; the
/// result is the one that `extension_of` names.
#[verifier::external_body]
pub(crate) fn path_extension(path: &str) -> (extension: Option<String>)
    ensures
        match extension {
            Some(text) => extension_of(path@) == Some(text@),
            None => extension_of(path@).is_none(),
        },
{
    match std::path::Path::new(path).extension() {
        Some(extension) => extension.to_str().map(|text| text.to_string()),
        None => None,
    }
}

/// Calls `std::path::Path::join`; the result spells the path that
/// `joined_path` names.
#[verifier::external_body]
pub(crate) fn join_path(base: &str, name: &str) -> (joined: String)
    ensures
        joined@ == joined_path(base@, name@),
{
    std::path::Path::new(base).join(name).to_string_lossy().into_owned()
}

/// Calls `std::path::Path::starts_with`; the result is the one that
/// `path_within` names.
#[verifier::external_body]
pub(crate) fn path_starts_with(path: &str, base: &str) -> (within: bool)
    ensures
        within == path_within(path@, base@),
{
    std::path::Path::new(path).starts_with(std::path::Path::new(base))
}

} // verus!
