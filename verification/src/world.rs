//! A model of what the requests do to the world around the operation.
//!
//! The model knows paths as text: two paths are the same place exactly when
//! they are the same text. It records which paths exist on the disk, which
//! commands were started and which lines were printed. What a started
//! command does later is not part of it.

use vstd::prelude::*;

use crate::naming::{lies_below, lies_within};
use crate::request::{ReplyView, RequestView, ToolCommandView};

verus! {

/// What is found at a path.
pub enum Entry {
    /// A directory.
    Dir,
    /// Anything else: a file, a link.
    Other,
}

/// The disk: the paths at which something exists, each with what it is.
pub type Disk = Map<Seq<char>, Entry>;

/// What the operation can observe or change.
pub struct World {
    /// The file system.
    pub disk: Disk,
    /// The commands that were started, oldest first.
    pub launched: Seq<ToolCommandView>,
    /// The lines that were printed, oldest first.
    pub printed: Seq<Seq<char>>,
}

/// Whether `path` is an existing directory.
pub open spec fn is_dir(disk: Disk, path: Seq<char>) -> bool {
    disk.contains_key(path) && disk[path] is Dir
}

/// Whether anything exists at `path`.
pub open spec fn is_present(disk: Disk, path: Seq<char>) -> bool {
    disk.contains_key(path)
}

/// Whether the two disks hold the same at `path`: nothing, or equal entries.
pub open spec fn same_at(before: Disk, after: Disk, path: Seq<char>) -> bool {
    &&& before.contains_key(path) <==> after.contains_key(path)
    &&& before.contains_key(path) ==> before[path] == after[path]
}

/// The disk without the tree of `root`.
pub open spec fn without_tree(disk: Disk, root: Seq<char>) -> Disk {
    disk.remove_keys(Set::new(|path: Seq<char>| lies_within(path, root)))
}

/// Whether `after` can be left by an attempt to delete the tree of `root`
/// that gave up on the way: entries of the tree may be gone, nothing else
/// has changed.
pub open spec fn partly_removed(before: Disk, after: Disk, root: Seq<char>) -> bool {
    forall|path: Seq<char>|
        #![trigger before.contains_key(path)]
        #![trigger after.contains_key(path)]
        {
            &&& !lies_within(path, root) ==> same_at(before, after, path)
            &&& after.contains_key(path) ==> before.contains_key(path) && before[path]
                == after[path]
        }
}

/// Whether the directory `path` can be created on the disk: whatever exists
/// at it, or at a path that it lies below, is a directory.
pub open spec fn leads_to(disk: Disk, path: Seq<char>) -> bool {
    forall|other: Seq<char>|
        lies_within(path, other) && #[trigger] disk.contains_key(other) ==> disk[other] is Dir
}

/// The disk with the directory `path` and every directory that it lies
/// below: what exists is kept, and what is missing of them is a new
/// directory.
pub open spec fn with_dirs(disk: Disk, path: Seq<char>) -> Disk {
    Map::new(
        |other: Seq<char>| disk.contains_key(other) || lies_within(path, other),
        |other: Seq<char>|
            if disk.contains_key(other) {
                disk[other]
            } else {
                Entry::Dir
            },
    )
}

/// Whether `after` can be left by an attempt to create the directory `path`
/// that gave up on the way: what existed is kept, and what is new is a
/// directory that `path` lies within.
pub open spec fn partly_created(before: Disk, after: Disk, path: Seq<char>) -> bool {
    forall|other: Seq<char>|
        #![trigger before.contains_key(other)]
        #![trigger after.contains_key(other)]
        {
            &&& before.contains_key(other) ==> after.contains_key(other) && after[other]
                == before[other]
            &&& after.contains_key(other) && !before.contains_key(other) ==> after[other] is Dir
                && lies_within(path, other)
        }
}

/// Whether every directory that holds something exists on the disk: where
/// a path exists, the paths that it lies below are directories. The root
/// of the absolute paths is the empty path.
pub open spec fn is_coherent(disk: Disk) -> bool {
    forall|path: Seq<char>, root: Seq<char>|
        disk.contains_key(path) && #[trigger] lies_below(path, root) ==> is_dir(disk, root)
}

/// Whether carrying out `request` in the world `before` can give `reply`
/// and leave the world `after`.
///
/// - A question is answered truthfully and changes nothing.
/// - A deletion that is done has removed the whole tree and nothing else.
///   One that failed may have removed a part of it.
/// - A creation that is done has found nothing but directories on its way
///   and has added the missing ones, the path itself included. One that
///   failed may have added a part of them.
/// - A launch that is done has started the command. One that failed has
///   started nothing. Neither changes the disk.
/// - Printing adds the line to what was printed.
pub open spec fn serves(before: World, request: RequestView, reply: ReplyView, after: World) -> bool {
    match request {
        RequestView::IsDir { path } => {
            &&& reply == ReplyView::Found(is_dir(before.disk, path))
            &&& after == before
        },
        RequestView::Exists { path } => {
            &&& reply == ReplyView::Found(is_present(before.disk, path))
            &&& after == before
        },
        RequestView::RemoveTree { path } => {
            &&& after.launched == before.launched
            &&& after.printed == before.printed
            &&& match reply {
                ReplyView::Done => after.disk == without_tree(before.disk, path),
                ReplyView::Failed { .. } => partly_removed(before.disk, after.disk, path),
                ReplyView::Found(_) => false,
            }
        },
        RequestView::CreateDirs { path } => {
            &&& after.launched == before.launched
            &&& after.printed == before.printed
            &&& match reply {
                ReplyView::Done => leads_to(before.disk, path) && after.disk == with_dirs(
                    before.disk,
                    path,
                ),
                ReplyView::Failed { .. } => partly_created(before.disk, after.disk, path),
                ReplyView::Found(_) => false,
            }
        },
        RequestView::Launch { command } => {
            &&& after.disk == before.disk
            &&& after.printed == before.printed
            &&& match reply {
                ReplyView::Done => after.launched == before.launched.push(command),
                ReplyView::Failed { .. } => after.launched == before.launched,
                ReplyView::Found(_) => false,
            }
        },
        RequestView::Print { line } => {
            &&& reply == ReplyView::Done
            &&& after.disk == before.disk
            &&& after.launched == before.launched
            &&& after.printed == before.printed.push(line)
        },
    }
}

} // verus!

