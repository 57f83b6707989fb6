//! A symlink-farm manager library: mirrors the files of one or more source
//! trees into a destination tree, replacing each leaf file by a symbolic
//! link back into its source.
//!
//! The library holds the decision logic alone: classifying discovered
//! entries, validating the destination root, planning what to do at each
//! destination path (create a link, replace an existing entry, or skip),
//! and tallying outcomes. All filesystem probing and mutation is performed
//! by the caller, which hands the observed state in as plain values.

pub mod base;
pub mod link;
pub mod meta;
pub mod paths;
pub mod pipeline;
pub mod source;
pub mod target;
