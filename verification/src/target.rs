//! Validation of a destination root, under the `Target` name.
//!
//! `Target` is the companion of [`crate::base::Base`]: the same validated
//! destination-root role with the same rules, kept as its own type for
//! callers that configure the destination as a target directory.

use crate::link::{self, plan_views_match, spec_decide, Link};
use crate::meta::{DestProbe, FileKind, Meta};
use crate::paths::{clone_segs, concat_segs, segs_chars};
use crate::source::Source;
use vstd::prelude::*;

verus! {

/// Why a configured path was rejected as a target root. All three are
/// fatal: no linking starts under an invalid root.
#[derive(Clone, Copy, Debug, PartialEq, Eq, Structural)]
pub enum Error {
    /// The path's metadata could not be read; the underlying failure is
    /// reported by the caller that performed the probe.
    Io,
    /// The path is not a directory.
    NotDirectory,
    /// The path's permissions are read-only.
    NotWritable,
}

/// A validated target root: a writable directory under which the mirrored
/// tree is created. Never mutated after construction.
#[derive(Clone, Debug)]
pub struct Target {
    /// The root's path, as segments.
    pub path: Vec<String>,
}

/// The validator's verdict on a root's metadata (`None` when it could not
/// be read): the rejection, if any.
pub open spec fn spec_validate_root(meta: Option<Meta>) -> Option<Error> {
    match meta {
        None => Some(Error::Io),
        Some(m) => if m.kind != FileKind::Directory {
            Some(Error::NotDirectory)
        } else if m.readonly {
            Some(Error::NotWritable)
        } else {
            None
        },
    }
}

impl Target {
    /// Validates a configured target root.
    ///
    /// `path` is the configured path as segments and `meta` its metadata,
    /// `None` when the metadata could not be read. Succeeds exactly when
    /// the path is a writable directory.
    pub fn new(path: Vec<String>, meta: Option<Meta>) -> (r: Result<Target, Error>)
        ensures
            match spec_validate_root(meta) {
                Some(e) => r == Err::<Target, Error>(e),
                None => r matches Ok(t) && t.path == path,
            },
    {
        let m = match meta {
            None => {
                return Err(Error::Io);
            },
            Some(m) => m,
        };
        if !(m.kind == FileKind::Directory) {
            Err(Error::NotDirectory)
        } else if m.readonly {
            Err(Error::NotWritable)
        } else {
            Ok(Target { path })
        }
    }

    /// Derives the destination path for `src` — the root's path followed
    /// by the source's components — and plans the link for it.
    ///
    /// `src_meta` is the source's metadata (`None` when unreadable) and
    /// `probe` what a link-aware stat of the derived destination found.
    pub fn build_link(&self, src: &Source, src_meta: Option<Meta>, probe: &DestProbe) -> (r:
        Result<Link, link::Error>)
        ensures
            plan_views_match(
                r,
                src.target@,
                self.path@ + src.components@,
                spec_decide(segs_chars(src.target@), src_meta, *probe),
            ),
    {
        let dst = concat_segs(&self.path, &src.components);
        let src_path = clone_segs(&src.target);
        proof {
            assert(segs_chars(src_path@) =~= segs_chars(src.target@));
        }
        Link::new(src_path, dst, src_meta, probe)
    }
}

} // verus!
