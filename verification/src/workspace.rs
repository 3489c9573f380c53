//! The isolated copy of the repository in which one commit is built. The copy
//! takes every directory and every file of the source tree, tracked or not,
//! except control files that belong to a running tool and not to the content.

use vstd::prelude::*;

verus! {

/// Whether a file of this name is left out of the copy: the socket of the
/// file system monitor, which is no content and may not even be readable.
pub open spec fn is_volatile_spec(name: Seq<char>) -> bool {
    name == "fsmonitor--daemon.ipc"@
}

/// What the copy does with one entry of a directory.
#[derive(Debug, Clone, Copy, PartialEq, Eq, Structural)]
pub enum CopyStep {
    /// A directory: create it in the copy and go through its entries.
    Descend,
    /// A file: copy it.
    Copy,
    /// A volatile file: leave it out.
    Skip,
}

/// What the copy does with an entry called `name`.
pub open spec fn classify_spec(name: Seq<char>, is_dir: bool) -> CopyStep {
    if is_dir {
        CopyStep::Descend
    } else if is_volatile_spec(name) {
        CopyStep::Skip
    } else {
        CopyStep::Copy
    }
}

/// Whether a file called `name` is left out of the copy.
pub fn is_volatile(name: &str) -> (r: bool)
    ensures
        r == is_volatile_spec(name@),
{
    let given = String::from_str(name);
    let socket = String::from_str("fsmonitor--daemon.ipc");
    given == socket
}

/// Decides what the copy does with one directory entry.
pub fn classify(name: &str, is_dir: bool) -> (r: CopyStep)
    ensures
        r == classify_spec(name@, is_dir),
{
    if is_dir {
        CopyStep::Descend
    } else if is_volatile(name) {
        CopyStep::Skip
    } else {
        CopyStep::Copy
    }
}

} // verus!
