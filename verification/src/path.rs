//! Path arithmetic on keys and directories, done by `std::path`.

use vstd::prelude::*;

verus! {

/// The path that `std::path::Path::join` builds from a directory and a key,
/// both as text.
pub uninterp spec fn joined(dir: Seq<char>, key: Seq<char>) -> Seq<char>;

/// The directory that `std::path::Path::parent` finds above a path, if the
/// path has one.
pub uninterp spec fn parent_of(path: Seq<char>) -> Option<Seq<char>>;

/// Calls `std::path::Path::join` on `dir` with `key`. Nothing is claimed of
/// the result but that it is the one that std gives for these two texts; both
/// are valid UTF-8, so the text of the joined path is too.
#[verifier::external_body]
pub(crate) fn join(dir: &str, key: &str) -> (path: String)
    ensures
        path@ == joined(dir@, key@),
{
    std::path::Path::new(dir).join(key).to_string_lossy().into_owned()
}

/// Calls `std::path::Path::parent` on `path`. Nothing is claimed of the
/// result but that it is the one that std gives for this text.
#[verifier::external_body]
pub(crate) fn parent(path: &str) -> (dir: Option<String>)
    ensures
        match dir {
            Some(d) => parent_of(path@) == Some(d@),
            None => parent_of(path@) is None,
        },
{
    match std::path::Path::new(path).parent() {
        Some(p) => Some(p.to_string_lossy().into_owned()),
        None => None,
    }
}

} // verus!
