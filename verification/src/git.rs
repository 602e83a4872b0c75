//! Policy on uncommitted changes in the repository that a build starts from.

use vstd::prelude::*;

verus! {

/// What a build does when the worktree differs from its last commit.
#[derive(Debug, Clone, Copy, PartialEq, Eq, Structural)]
pub enum GitPolicy {
    /// Refuse to build if there are uncommitted changes.
    RequireClean,
    /// Allow dirty builds; the cache key then includes a worktree content hash.
    AllowDirty { hash_untracked: bool },
}

} // verus!
