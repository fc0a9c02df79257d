//! Where the artifact of an editor lies.

use vstd::prelude::*;

verus! {

/// The name of the file that marks a folder as a type alias and holds its
/// definition.
pub open spec fn marker_file() -> Seq<char> {
    "alias.json"@
}

/// The text of the path that `std::path::Path::join` gives for the path `dir`
/// and the path `name`, on the platform that the crate is built for.
pub uninterp spec fn joined_path(dir: Seq<char>, name: Seq<char>) -> Seq<char>;

/// The path of the artifact behind `file_path`: the marker file inside it
/// where it is a directory, the path itself where it is not.
pub open spec fn resolved_path(file_path: Seq<char>, is_dir: bool) -> Seq<char> {
    if is_dir {
        joined_path(file_path, marker_file())
    } else {
        file_path
    }
}

/// Calls `std::path::Path::join` on `dir` with `name`. Trusted: the text of
/// the path that comes back is `joined_path` of the two texts, that is, the
/// join depends on the two paths alone. Both are UTF-8, so the joined path is
/// too and its text is had without loss.
#[verifier::external_body]
fn join_path(dir: &str, name: &str) -> (r: String)
    ensures
        r@ == joined_path(dir@, name@),
{
    std::path::Path::new(dir).join(name).to_string_lossy().into_owned()
}

/// Resolves the path that an editor is bound to. `is_dir` says whether
/// `file_path` is a directory on disk: the folder form of a type alias, whose
/// artifact is the marker file inside it. Any other path is the artifact
/// itself and comes back unchanged.
pub fn resolve_artifact_path(file_path: String, is_dir: bool) -> (r: String)
    ensures
        r@ == resolved_path(file_path@, is_dir),
        !is_dir ==> r == file_path,
{
    if is_dir {
        join_path(file_path.as_str(), "alias.json")
    } else {
        file_path
    }
}

} // verus!
