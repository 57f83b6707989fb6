//! Plain-value models of filesystem state.
//!
//! The library never touches the filesystem itself; the caller probes it
//! and reports what it saw with these types.

use vstd::prelude::*;

verus! {

/// The kind of filesystem object a stat probe reported.
#[derive(Clone, Copy, Debug, PartialEq, Eq, Structural)]
pub enum FileKind {
    /// A regular file.
    File,
    /// A directory.
    Directory,
    /// A symbolic link (only reported by probes that do not follow links).
    Symlink,
    /// Anything else (device file, socket, ...).
    Other,
}

/// Metadata of one filesystem object: its kind, its length in bytes, and
/// whether its permissions are read-only.
#[derive(Clone, Copy, Debug, PartialEq, Eq, Structural)]
pub struct Meta {
    pub kind: FileKind,
    pub len: u64,
    pub readonly: bool,
}

/// What a link-aware probe (a stat that does not follow symlinks) of a
/// destination path found.
#[derive(Clone, Debug)]
pub enum DestProbe {
    /// Nothing exists at the destination path.
    Missing,
    /// The destination is a symlink; the payload is its target path broken
    /// into segments, or `None` when the target could not be read.
    SymlinkTo(Option<Vec<String>>),
    /// The destination exists and is not a symlink.
    Present { kind: FileKind, len: u64 },
}

} // verus!
