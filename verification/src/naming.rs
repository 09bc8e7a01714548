//! How the directory of a repository is named and where it lies.

use vstd::prelude::*;
use vstd::string::{StrSliceExecFns, StringExecFns};

verus! {

/// The separator between the components of a path.
pub open spec fn separator() -> char {
    '/'
}

/// The suffix that every repository directory carries.
pub open spec fn git_suffix() -> Seq<char> {
    seq!['.', 'g', 'i', 't']
}

/// The name of the directory that holds the repository `name`.
pub open spec fn repo_dir_name_of(name: Seq<char>) -> Seq<char> {
    name + git_suffix()
}

/// The path of the repository `name` under the directory `base`.
pub open spec fn target_path_of(base: Seq<char>, name: Seq<char>) -> Seq<char> {
    base + seq![separator()] + repo_dir_name_of(name)
}

/// Whether `path` is absolute: it begins with a separator.
pub open spec fn is_absolute(path: Seq<char>) -> bool {
    path.len() > 0 && path[0] == separator()
}

/// The absolute path of `path` for a caller that stands in `working_dir`:
/// an absolute path is kept, any other is put behind the working directory.
pub open spec fn absolute_of(working_dir: Seq<char>, path: Seq<char>) -> Seq<char> {
    if is_absolute(path) {
        path
    } else {
        working_dir + seq![separator()] + path
    }
}

/// The position of the last separator in `path`, or -1 where it has none.
pub open spec fn last_separator(path: Seq<char>) -> int
    decreases path.len(),
{
    if path.len() == 0 {
        -1
    } else if path.last() == separator() {
        path.len() - 1
    } else {
        last_separator(path.drop_last())
    }
}

/// The last component of `path`: what follows its last separator.
pub open spec fn file_name_of(path: Seq<char>) -> Seq<char> {
    path.subrange(last_separator(path) + 1, path.len() as int)
}

/// The directory that `path` lies in: what precedes its last separator.
/// A path of one component has the empty path as its parent.
pub open spec fn parent_of(path: Seq<char>) -> Seq<char> {
    if last_separator(path) < 0 {
        Seq::empty()
    } else {
        path.subrange(0, last_separator(path))
    }
}

/// Whether `name` is a single component, that is, holds no separator.
pub open spec fn is_component(name: Seq<char>) -> bool {
    !name.contains(separator())
}

/// Whether `path` lies somewhere below the directory `root`: it continues
/// `root` with a separator and more.
pub open spec fn lies_below(path: Seq<char>, root: Seq<char>) -> bool {
    &&& path.len() > root.len()
    &&& path.subrange(0, root.len() as int) == root
    &&& path[root.len() as int] == separator()
}

/// Whether `path` belongs to the tree of `root`: it is `root` or lies below.
pub open spec fn lies_within(path: Seq<char>, root: Seq<char>) -> bool {
    path == root || lies_below(path, root)
}

/// No separator of a path stands behind its last separator.
proof fn lemma_last_separator_is_last(path: Seq<char>, at: int)
    requires
        0 <= at < path.len(),
        path[at] == separator(),
    ensures
        at <= last_separator(path) < path.len(),
        path[last_separator(path)] == separator(),
    decreases path.len(),
{
    if path.last() != separator() {
        lemma_last_separator_is_last(path.drop_last(), at);
    }
}

/// A path lies below its parent, and what else it lies below, its parent
/// lies below too.
pub proof fn lemma_parent_is_nearest(path: Seq<char>, root: Seq<char>)
    requires
        lies_below(path, root),
    ensures
        lies_below(path, parent_of(path)),
        root == parent_of(path) || lies_below(parent_of(path), root),
{
    lemma_last_separator_is_last(path, root.len() as int);
    let parent = parent_of(path);
    if root.len() != parent.len() {
        assert(parent.subrange(0, root.len() as int) =~= path.subrange(0, root.len() as int));
    }
}

/// Text without a separator, put behind a path, does not move the path's
/// last separator.
proof fn lemma_last_separator_skips_component(path: Seq<char>, tail: Seq<char>)
    requires
        is_component(tail),
    ensures
        last_separator(path + tail) == last_separator(path),
    decreases tail.len(),
{
    if tail.len() > 0 {
        assert((path + tail).drop_last() =~= path + tail.drop_last());
        lemma_last_separator_skips_component(path, tail.drop_last());
    }
}

/// Every repository path ends in `.git`, behind the base directory, one
/// separator and the name.
pub proof fn law_target_ends_in_suffix(base: Seq<char>, name: Seq<char>)
    ensures
        target_path_of(base, name).len() == base.len() + 1 + name.len() + 4,
        target_path_of(base, name).subrange(0, base.len() as int) == base,
        target_path_of(base, name)[base.len() as int] == separator(),
        target_path_of(base, name).subrange(
            target_path_of(base, name).len() - 4,
            target_path_of(base, name).len() as int,
        ) == git_suffix(),
{
}

/// The naming law: for a name of a single component, the repository's path
/// is a direct child of the base directory, and its last component is the
/// name followed by `.git`.
pub proof fn law_target_is_named_child(base: Seq<char>, name: Seq<char>)
    requires
        is_component(name),
    ensures
        parent_of(target_path_of(base, name)) == base,
        file_name_of(target_path_of(base, name)) == name + git_suffix(),
{
    lemma_last_separator_skips_component(base + seq![separator()], repo_dir_name_of(name));
}

/// The absolute path of a path is absolute wherever the working directory
/// is, it is the path itself where that is absolute already, and it always
/// ends with the path.
pub proof fn law_absolute_of_is_absolute(working_dir: Seq<char>, path: Seq<char>)
    ensures
        is_absolute(working_dir) || is_absolute(path) ==> is_absolute(
            absolute_of(working_dir, path),
        ),
        is_absolute(path) ==> absolute_of(working_dir, path) == path,
        absolute_of(working_dir, path).len() >= path.len(),
        absolute_of(working_dir, path).subrange(
            absolute_of(working_dir, path).len() - path.len(),
            absolute_of(working_dir, path).len() as int,
        ) == path,
{
}

/// Builds the name of the directory that holds the repository `name`.
pub fn repo_dir_name(name: &str) -> (dir: String)
    ensures
        dir@ == repo_dir_name_of(name@),
{
    let mut dir = String::from_str(name);
    dir.append(".git");
    proof {
        reveal_strlit(".git");
    }
    dir
}

/// Builds the path of the repository `name` under the directory `base`.
pub fn target_path(base: &str, name: &str) -> (path: String)
    ensures
        path@ == target_path_of(base@, name@),
{
    let mut path = String::from_str(base);
    path.append("/");
    let dir = repo_dir_name(name);
    path.append(dir.as_str());
    proof {
        reveal_strlit("/");
    }
    path
}

/// Builds the absolute path of `path` for a caller that stands in
/// `working_dir`.
pub fn absolute_path(working_dir: &str, path: &str) -> (absolute: String)
    ensures
        absolute@ == absolute_of(working_dir@, path@),
{
    proof {
        reveal_strlit("/");
    }
    if !path.is_empty() && path.get_char(0) == '/' {
        String::from_str(path)
    } else {
        let mut absolute = String::from_str(working_dir);
        absolute.append("/");
        absolute.append(path);
        absolute
    }
}

} // verus!
