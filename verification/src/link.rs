//! The link planner: the conflict-resolution decision procedure.
//!
//! Given a source path, a destination path, the source's metadata and what
//! a link-aware probe of the destination found, the planner decides one of:
//! create the link fresh, replace the occupying entry and then link, or
//! reject the destination (already linked, or a conflict). The whole
//! decision is the pure function `spec_decide`; `Link::new` is proved to
//! follow it exactly.

use crate::meta::{DestProbe, FileKind, Meta};
use crate::paths::{segs_chars, segs_eq};
use vstd::prelude::*;

verus! {

/// Why no link was produced for a destination.
#[derive(Clone, Copy, Debug, PartialEq, Eq, Structural)]
pub enum SkipReason {
    /// The destination is already a symlink to the source: nothing to do.
    AlreadyLinked,
    /// The destination is occupied by an entry that differs from the
    /// source; it is never overwritten.
    Conflict,
}

/// Failure of the planner. `Skip` failures are expected no-ops, counted
/// separately from hard errors; `Io` marks an unreadable source, whose
/// underlying failure is reported by the caller that performed the stat.
#[derive(Clone, Copy, Debug, PartialEq, Eq, Structural)]
pub enum Error {
    Skip(SkipReason),
    Io,
}

/// One planned filesystem action: create a symlink at `dst` pointing at
/// `src`, removing the entry currently at `dst` first when `rm` is set.
#[derive(Clone, Debug)]
pub struct Link {
    /// The destination path, as segments.
    pub dst: Vec<String>,
    /// The source path the new symlink will point at, as segments.
    pub src: Vec<String>,
    /// Whether the destination is currently occupied by an entry that was
    /// judged safe to remove before linking.
    pub rm: bool,
}

/// The planner's decision for one destination.
#[derive(Clone, Copy, Debug, PartialEq, Eq, Structural)]
pub enum Decision {
    /// Nothing exists at the destination: link, with nothing to remove.
    CreateFresh,
    /// A replaceable entry occupies the destination: remove it, then link.
    Replace,
    /// The destination already links to the source: skip, leave it alone.
    AlreadyLinked,
    /// A divergent entry occupies the destination: skip, never overwrite.
    Conflict,
    /// The source's own metadata could not be read.
    SourceUnreadable,
}

/// The decision procedure, over the source path's characters, the
/// source's metadata (`None` when unreadable) and the destination probe:
///
/// - an unreadable source is a hard error;
/// - an empty destination is created fresh;
/// - a symlink whose target spells the source path is already linked; any
///   other symlink (elsewhere, or unreadable) is replaced;
/// - a regular file matching the source in type and size is replaced; any
///   other occupant (divergent file, directory, ...) is a conflict.
pub open spec fn spec_decide(src: Seq<Seq<char>>, src_meta: Option<Meta>, probe: DestProbe) -> Decision {
    match src_meta {
        None => Decision::SourceUnreadable,
        Some(m) => match probe {
            DestProbe::Missing => Decision::CreateFresh,
            DestProbe::SymlinkTo(t) => match t {
                Some(p) => if segs_chars(p@) == src {
                    Decision::AlreadyLinked
                } else {
                    Decision::Replace
                },
                None => Decision::Replace,
            },
            DestProbe::Present { kind, len } => if kind == FileKind::File && m.kind
                == FileKind::File && len == m.len {
                Decision::Replace
            } else {
                Decision::Conflict
            },
        },
    }
}

/// What the planner's result must be under each decision: the exact error
/// for each rejection, and for the two link-producing decisions a `Link`
/// carrying the given paths with the removal flag set exactly on `Replace`.
pub open spec fn plan_matches(
    r: Result<Link, Error>,
    src: Vec<String>,
    dst: Vec<String>,
    d: Decision,
) -> bool {
    match d {
        Decision::SourceUnreadable => r == Err::<Link, Error>(Error::Io),
        Decision::AlreadyLinked => r == Err::<Link, Error>(Error::Skip(SkipReason::AlreadyLinked)),
        Decision::Conflict => r == Err::<Link, Error>(Error::Skip(SkipReason::Conflict)),
        Decision::CreateFresh => r matches Ok(l) && l.dst == dst && l.src == src && l.rm == false,
        Decision::Replace => r matches Ok(l) && l.dst == dst && l.src == src && l.rm == true,
    }
}

/// As `plan_matches`, but pinning the produced link's paths at the level
/// of their segment sequences; for callers that build the vectors afresh.
pub open spec fn plan_views_match(
    r: Result<Link, Error>,
    src: Seq<String>,
    dst: Seq<String>,
    d: Decision,
) -> bool {
    match d {
        Decision::SourceUnreadable => r == Err::<Link, Error>(Error::Io),
        Decision::AlreadyLinked => r == Err::<Link, Error>(Error::Skip(SkipReason::AlreadyLinked)),
        Decision::Conflict => r == Err::<Link, Error>(Error::Skip(SkipReason::Conflict)),
        Decision::CreateFresh => r matches Ok(l) && l.dst@ == dst && l.src@ == src && l.rm
            == false,
        Decision::Replace => r matches Ok(l) && l.dst@ == dst && l.src@ == src && l.rm == true,
    }
}

impl Link {
    /// Plans the action for one destination, following `spec_decide`.
    ///
    /// `src` is the source's canonical path and `dst` the destination
    /// path, both as segments; `src_meta` is the source's metadata, `None`
    /// when it could not be read; `probe` is what a link-aware stat of the
    /// destination found. Needs no filesystem access itself.
    pub fn new(src: Vec<String>, dst: Vec<String>, src_meta: Option<Meta>, probe: &DestProbe) -> (r:
        Result<Link, Error>)
        ensures
            plan_matches(r, src, dst, spec_decide(segs_chars(src@), src_meta, *probe)),
    {
        let m = match src_meta {
            None => {
                return Err(Error::Io);
            },
            Some(m) => m,
        };
        let rm = match probe {
            DestProbe::Missing => false,
            DestProbe::SymlinkTo(t) => match t {
                Some(p) => {
                    if segs_eq(p, &src) {
                        return Err(Error::Skip(SkipReason::AlreadyLinked));
                    } else {
                        true
                    }
                },
                None => true,
            },
            DestProbe::Present { kind, len } => {
                if *kind == FileKind::File && m.kind == FileKind::File && *len == m.len {
                    true
                } else {
                    return Err(Error::Skip(SkipReason::Conflict));
                }
            },
        };
        Ok(Link { dst, src, rm })
    }
}

/// A destination where nothing exists is always planned create-fresh:
/// no removal is required, and the planned link carries the source path
/// itself, so executing it creates a symlink pointing at the source.
pub proof fn lemma_missing_destination_creates_fresh(src: Seq<Seq<char>>, m: Meta)
    ensures
        spec_decide(src, Some(m), DestProbe::Missing) == Decision::CreateFresh,
{
}

/// Planning is idempotent across runs: a destination occupied by a symlink
/// whose target spells the source's own path is always judged already
/// linked — a skip, never an action that would touch the destination again.
pub proof fn lemma_relink_is_already_linked(src: Seq<Seq<char>>, m: Meta, back: Vec<String>)
    requires
        segs_chars(back@) == src,
    ensures
        spec_decide(src, Some(m), DestProbe::SymlinkTo(Some(back))) == Decision::AlreadyLinked,
{
}

/// A regular file occupying the destination that differs from the source
/// in type or size is a conflict: the plan is a skip, no `Link` is
/// produced, and so no removal is ever marked — the occupying file is
/// left untouched.
pub proof fn lemma_divergent_file_is_conflict(src: Seq<Seq<char>>, m: Meta, kind: FileKind, len: u64)
    requires
        !(kind == FileKind::File && m.kind == FileKind::File && len == m.len),
    ensures
        spec_decide(src, Some(m), DestProbe::Present { kind, len }) == Decision::Conflict,
{
}

/// A regular file occupying the destination whose type and size match the
/// source is planned as a replacement: removal is required, and executing
/// the plan leaves the destination as a symlink to the source.
pub proof fn lemma_matching_file_is_replaced(src: Seq<Seq<char>>, m: Meta, len: u64)
    requires
        m.kind == FileKind::File,
        len == m.len,
    ensures
        spec_decide(src, Some(m), DestProbe::Present { kind: FileKind::File, len }) == Decision::Replace,
{
}

} // verus!
