//! Classification of discovered entries.
//!
//! A directory walk reports each entry together with its depth: the number
//! of path segments between the entry and the walk root it was found
//! under. The classifier turns an eligible entry into a `Source`, the
//! record the linking stage consumes, and rejects the rest.

use vstd::prelude::*;

verus! {

/// Why an entry was not eligible for linking. Both variants are
/// validation failures: the entry is dropped and never reaches the
/// linking stage.
#[derive(Clone, Copy, Debug, PartialEq, Eq, Structural)]
pub enum Error {
    /// The entry's resolved path is a directory; directories are never
    /// linked, only recreated as parent containers.
    IsDirectory,
    /// The entry has no path segments beneath its walk root.
    NoDepth,
}

/// One discovered regular file (or symlink to one), eligible for linking.
#[derive(Clone, Debug)]
pub struct Source {
    /// The path segments beneath the walk root, in order.
    pub components: Vec<String>,
    /// The canonical absolute path of the entry itself, as segments.
    pub target: Vec<String>,
}

/// The classifier's decision for an entry: either the components the
/// `Source` will carry (the last `depth` segments of the entry's path, at
/// most all of them), or the reason the entry is rejected.
pub open spec fn spec_classify(path: Seq<String>, depth: int, is_dir: bool) -> Result<
    Seq<String>,
    Error,
> {
    if is_dir {
        Err(Error::IsDirectory)
    } else {
        let keep = if depth <= path.len() {
            depth
        } else {
            path.len() as int
        };
        if keep <= 0 {
            Err(Error::NoDepth)
        } else {
            Ok(path.subrange(path.len() - keep, path.len() as int))
        }
    }
}

impl Source {
    /// A `Source` always carries at least one component.
    pub open spec fn wf(&self) -> bool {
        self.components@.len() >= 1
    }

    /// Classifies one discovered entry.
    ///
    /// `path` is the entry's path as reported by the walk, split into
    /// segments; `depth` is the entry's depth beneath its walk root;
    /// `target` is the entry's canonicalized absolute path, split into
    /// segments; and `target_is_dir` says whether that canonical path is a
    /// directory. The classification itself needs no filesystem access.
    pub fn new(path: Vec<String>, target: Vec<String>, depth: usize, target_is_dir: bool) -> (r:
        Result<Source, Error>)
        ensures
            match spec_classify(path@, depth as int, target_is_dir) {
                Ok(comps) => r matches Ok(s) && s.components@ == comps && s.target == target
                    && s.wf(),
                Err(e) => r == Err::<Source, Error>(e),
            },
    {
        if target_is_dir {
            return Err(Error::IsDirectory);
        }
        let len = path.len();
        let keep = if depth <= len {
            depth
        } else {
            len
        };
        if keep == 0 {
            return Err(Error::NoDepth);
        }
        let mut components: Vec<String> = Vec::new();
        let mut i: usize = len - keep;
        while i < len
            invariant
                len == path@.len(),
                len - keep <= i <= len,
                keep <= len,
                components@ == path@.subrange(len - keep, i as int),
            decreases len - i,
        {
            components.push(path[i].clone());
            proof {
                assert(components@ =~= path@.subrange(len - keep, i + 1));
            }
            i += 1;
        }
        Ok(Source { components, target })
    }

    /// The path segments beneath the walk root, in order.
    pub fn components(&self) -> (r: &Vec<String>)
        ensures
            r@ == self.components@,
    {
        &self.components
    }
}

/// Every entry at depth one or more beneath its walk root whose resolved
/// path is not a directory is classified successfully, and its components
/// are exactly the last `depth` segments of the entry's path: joined, they
/// spell the entry's path relative to the walk root.
pub proof fn lemma_eligible_entry_classified(path: Seq<String>, depth: int, is_dir: bool)
    requires
        !is_dir,
        1 <= depth <= path.len(),
    ensures
        spec_classify(path, depth, is_dir) matches Ok(comps) && comps == path.subrange(
            path.len() - depth,
            path.len() as int,
        ) && comps.len() == depth,
{
}

/// An entry that is a directory, or that has no depth beneath its walk
/// root, is never classified into a `Source`: classification fails, so the
/// entry cannot reach the linking stage.
pub proof fn lemma_ineligible_entry_rejected(path: Seq<String>, depth: int, is_dir: bool)
    requires
        is_dir || depth <= 0,
    ensures
        spec_classify(path, depth, is_dir) is Err,
{
}

} // verus!
