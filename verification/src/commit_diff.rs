//! The change set between a commit and one of its parents.

use vstd::prelude::*;

use crate::change::{
    assemble_changes, changes_of, changes_permitted, kind_permitted, lemma_assembled_changes_permitted,
    rejected_cause, report_rejected, ChangeKind, DeltaReport, FileChange,
};
use crate::errors::DiffError;
use crate::options::CommitDiffLoaderOptions;

verus! {

/// What a `CommitDiff` holds.
pub struct CommitDiffView {
    /// The id of the commit.
    pub commit: git2::Oid,
    /// The id of the parent that the commit was compared with; `None` where
    /// it was compared with the empty tree.
    pub parent: Option<git2::Oid>,
    /// The changes, file by file, in the order of the backend.
    pub changes: Seq<FileChange>,
}

impl CommitDiffView {
    /// Whether the record could have come out of any diff: against the empty
    /// tree every file is new.
    pub open spec fn well_formed(self) -> bool {
        changes_permitted(self.changes, self.parent is None, true, true)
    }

    /// Whether the record could have come out of a diff made under `options`.
    pub open spec fn respects(self, options: CommitDiffLoaderOptions) -> bool {
        changes_permitted(self.changes, self.parent is None, options.renames, options.copies)
    }
}

/// The change set between one commit and one of its parents, or the empty
/// tree where the commit has none.
///
/// A value is made once, by `assemble`, and not changed afterwards. It is
/// always well formed.
#[derive(Debug, PartialEq, Eq)]
pub struct CommitDiff {
    commit: git2::Oid,
    parent: Option<git2::Oid>,
    changes: Vec<FileChange>,
}

impl View for CommitDiff {
    type V = CommitDiffView;

    closed spec fn view(&self) -> CommitDiffView {
        CommitDiffView { commit: self.commit, parent: self.parent, changes: self.changes@ }
    }
}

impl CommitDiff {
    #[verifier::type_invariant]
    spec fn type_invariant(&self) -> bool {
        self@.well_formed()
    }

    /// Puts together the diff from `parent`, or from the empty tree, to
    /// `commit`, out of what the backend reported when it compared the two
    /// under `options`.
    ///
    /// The change set is the report with the unmodified entries left out. A
    /// report with a delta that this diff cannot hold gives no diff at all:
    /// anything but an addition against the empty tree, a rename where no
    /// similar files were searched, a copy where no copies were, or a status
    /// that the comparison of two trees, asked as the loader asks it, does
    /// not give.
    pub fn assemble(
        commit: git2::Oid,
        parent: Option<git2::Oid>,
        report: Vec<DeltaReport>,
        options: &CommitDiffLoaderOptions,
    ) -> (assembled: Result<Self, DiffError>)
        ensures
            assembled is Err <==> report_rejected(report@, parent is None, options.renames, options.copies),
            assembled matches Ok(diff) ==> diff@ == (CommitDiffView {
                commit,
                parent,
                changes: changes_of(report@, parent is None, options.renames, options.copies),
            }),
            assembled matches Ok(diff) ==> diff@.respects(*options),
            assembled matches Err(failure) ==> failure is TreeComputationFailed && failure.spec_cause()@
                == rejected_cause(),
    {
        proof {
            lemma_assembled_changes_permitted(report@, parent is None, options.renames, options.copies);
        }
        let changes = assemble_changes(report, parent.is_none(), options.renames, options.copies)?;
        proof {
            lemma_permitted_under_any_search(changes@, parent is None, options.renames, options.copies);
        }
        Ok(CommitDiff { commit, parent, changes })
    }

    /// The id of the commit.
    pub fn commit(&self) -> (id: git2::Oid)
        ensures
            id == self@.commit,
    {
        self.commit
    }

    /// The id of the parent, `None` for the diff of a root commit.
    pub fn parent(&self) -> (id: Option<git2::Oid>)
        ensures
            id == self@.parent,
    {
        self.parent
    }

    /// The changes, file by file.
    pub fn changes(&self) -> (changes: &Vec<FileChange>)
        ensures
            changes@ == self@.changes,
            self@.well_formed(),
    {
        proof {
            use_type_invariant(self);
        }
        &self.changes
    }
}

/// What a diff can hold with less searched, it can hold with everything
/// searched.
pub proof fn lemma_permitted_under_any_search(changes: Seq<FileChange>, root: bool, renames: bool, copies: bool)
    requires
        changes_permitted(changes, root, renames, copies),
    ensures
        changes_permitted(changes, root, true, true),
{
    assert forall|i: int| 0 <= i < changes.len() implies kind_permitted(
        #[trigger] changes[i].kind,
        root,
        true,
        true,
    ) by {
        assert(kind_permitted(changes[i].kind, root, renames, copies));
    }
}

/// A record that respects some options is well formed.
pub proof fn lemma_respects_implies_well_formed(diff: CommitDiffView, options: CommitDiffLoaderOptions)
    requires
        diff.respects(options),
    ensures
        diff.well_formed(),
{
    lemma_permitted_under_any_search(diff.changes, diff.parent is None, options.renames, options.copies);
}

/// The diff of a root commit holds additions only.
pub proof fn lemma_root_diff_only_adds(diff: CommitDiffView, i: int)
    requires
        diff.well_formed(),
        diff.parent is None,
        0 <= i < diff.changes.len(),
    ensures
        diff.changes[i].kind == ChangeKind::Added,
{
    assert(kind_permitted(diff.changes[i].kind, true, true, true));
}

/// Where neither renames nor copies were to be found, no record is a rename
/// or a copy.
pub proof fn lemma_no_search_no_renames(diff: CommitDiffView, options: CommitDiffLoaderOptions, i: int)
    requires
        diff.respects(options),
        !options.renames,
        !options.copies,
        0 <= i < diff.changes.len(),
    ensures
        diff.changes[i].kind != ChangeKind::Renamed,
        diff.changes[i].kind != ChangeKind::Copied,
{
    assert(kind_permitted(diff.changes[i].kind, diff.parent is None, options.renames, options.copies));
}

} // verus!
