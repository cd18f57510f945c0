//! Where an uploaded artifact is stored: every handle owns one directory
//! under the uploads root, and its artifact lies below that directory.

use vstd::prelude::*;
use vstd::string::StringExecFns;

verus! {

/// The character between the components of a path.
pub const SEPARATOR: char = '/';

/// `parent`, a separator, then `child`.
pub open spec fn joined(parent: Seq<char>, child: Seq<char>) -> Seq<char> {
    parent + seq![SEPARATOR] + child
}

/// The directory that belongs to `handle` under `root`.
pub open spec fn artifact_dir_of(root: Seq<char>, handle: Seq<char>) -> Seq<char> {
    joined(root, handle)
}

/// The place of the artifact that was uploaded as `relative` for `handle`.
pub open spec fn stored_path_of(root: Seq<char>, handle: Seq<char>, relative: Seq<char>) -> Seq<
    char,
> {
    joined(artifact_dir_of(root, handle), relative)
}

/// Joins two path components with one separator.
pub fn join(parent: &str, child: &str) -> (path: String)
    ensures
        path@ == joined(parent@, child@),
{
    let mut path = String::from_str(parent);
    path.append("/");
    path.append(child);
    proof {
        reveal_strlit("/");
    }
    path
}

/// The directory that holds everything stored for `handle`.
pub fn artifact_dir(root: &str, handle: &str) -> (dir: String)
    ensures
        dir@ == artifact_dir_of(root@, handle@),
{
    join(root, handle)
}

/// The path at which the artifact uploaded as `relative` is stored.
pub fn stored_path(root: &str, handle: &str, relative: &str) -> (path: String)
    ensures
        path@ == stored_path_of(root@, handle@, relative@),
{
    let dir = artifact_dir(root, handle);
    join(dir.as_str(), relative)
}

/// A stored artifact lies inside its handle's directory: its path starts
/// with that directory and a separator.
pub proof fn lemma_stored_path_inside_artifact_dir(
    root: Seq<char>,
    handle: Seq<char>,
    relative: Seq<char>,
)
    ensures
        (artifact_dir_of(root, handle) + seq![SEPARATOR]).is_prefix_of(
            stored_path_of(root, handle, relative),
        ),
        stored_path_of(root, handle, relative).len() == artifact_dir_of(root, handle).len() + 1
            + relative.len(),
{
}

/// Two handles share a directory under one root only if they are the same
/// handle.
pub proof fn lemma_artifact_dir_tells_handles_apart(
    root: Seq<char>,
    first: Seq<char>,
    second: Seq<char>,
)
    requires
        artifact_dir_of(root, first) == artifact_dir_of(root, second),
    ensures
        first == second,
{
    let dir = artifact_dir_of(root, first);
    let skip = root.len() + 1;
    assert(dir.len() == skip + first.len());
    assert forall|i: int| 0 <= i < first.len() implies first[i] == second[i] by {
        assert(dir[skip + i] == first[i]);
    }
}

} // verus!
