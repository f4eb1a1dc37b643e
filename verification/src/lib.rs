//! Reading the change set of a commit out of a git repository.
//!
//! A [`RepositoryHandle`] owns one opened repository. A [`CommitDiffLoader`]
//! borrows it together with a set of [`CommitDiffLoaderOptions`] and produces,
//! for a commit, one [`CommitDiff`] per parent, or a single one against the
//! empty tree when the commit has no parent.
//!
//! The object store itself is libgit2, reached through `git2`. Every call into
//! it is declared in [`backend`]; what the library decides around those calls
//! is verified.

pub mod backend;
pub mod change;
pub mod commit_diff;
pub mod errors;
pub mod handle;
pub mod loader;
pub mod options;

pub use change::{
    assemble_changes, classify, ChangeKind, Classification, DeltaReport, DeltaStatus, FileChange, Hunk,
    HunkRange, Line, LineOrigin,
};
pub use commit_diff::{CommitDiff, CommitDiffView};
pub use errors::{ConfigError, DiffError, OpenError, OpenOrigin};
pub use handle::{description, RepositoryHandle};
pub use loader::{diff_bases, first_diff, CommitDiffLoader};
pub use options::{CommitDiffLoaderOptions, SimilarityRequest, TreeDiffRequest};
