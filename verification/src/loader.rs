//! Loading the diffs of a commit: one for each parent, or one against the
//! empty tree.

use vstd::prelude::*;

use crate::backend;
use crate::change::{ChangeKind, DeltaReport, DeltaStatus, Hunk, Line, LineOrigin};
use crate::commit_diff::{lemma_root_diff_only_adds, CommitDiff};
use crate::change::rejected_cause;
use crate::errors::{reported_by_backend, DiffError};
use crate::options::CommitDiffLoaderOptions;

verus! {

/// What a commit with the parents `parents` is compared with: each parent in
/// the order in which the commit records them, or the empty tree, written
/// `None`, where it records none.
pub open spec fn spec_diff_bases(parents: Seq<git2::Oid>) -> Seq<Option<git2::Oid>> {
    if parents.len() == 0 {
        seq![None]
    } else {
        Seq::new(parents.len(), |i: int| Some(parents[i]))
    }
}

/// Whether `diffs` are the diffs of the commit `commit` with the parents
/// `parents`: one for each thing it is compared with, in that order, each
/// naming the commit and what it was compared with.
pub open spec fn follows_parents(diffs: Seq<CommitDiff>, commit: git2::Oid, parents: Seq<git2::Oid>) -> bool {
    &&& diffs.len() == spec_diff_bases(parents).len()
    &&& forall|i: int|
        0 <= i < diffs.len() ==> {
            &&& (#[trigger] diffs[i])@.commit == commit
            &&& diffs[i]@.parent == spec_diff_bases(parents)[i]
        }
}

/// Whether `failure` is one that the loading of a diff ends in. A commit or
/// a tree that is not found is `ObjectNotFound`, in the backend's words. Two
/// trees that are not compared are `TreeComputationFailed`: in the backend's
/// words where the backend failed, and for the stated cause where its report
/// was rejected. It is never `NotFound`.
pub open spec fn load_failure(failure: DiffError) -> bool {
    match failure {
        DiffError::NotFound { .. } => false,
        DiffError::ObjectNotFound { cause } => reported_by_backend(cause@),
        DiffError::TreeComputationFailed { cause } => reported_by_backend(cause@) || cause@
            == rejected_cause(),
    }
}

/// Lists what a commit with the parents `parents` is compared with.
pub fn diff_bases(parents: &Vec<git2::Oid>) -> (bases: Vec<Option<git2::Oid>>)
    ensures
        bases@ == spec_diff_bases(parents@),
{
    let mut bases: Vec<Option<git2::Oid>> = Vec::new();
    if parents.len() == 0 {
        bases.push(None);
        assert(bases@ =~= seq![None]);
        return bases;
    }
    let mut i: usize = 0;
    while i < parents.len()
        invariant
            i <= parents.len(),
            bases.len() == i,
            forall|j: int| 0 <= j < i ==> bases[j] == Some(parents[j]),
        decreases parents.len() - i,
    {
        bases.push(Some(parents[i]));
        i += 1;
    }
    assert(bases@ =~= spec_diff_bases(parents@));
    bases
}

/// A commit without parents has one diff. It names no parent, and every
/// record in it is an addition.
pub proof fn lemma_root_commit_has_one_diff(diffs: Seq<CommitDiff>, commit: git2::Oid, parents: Seq<git2::Oid>)
    requires
        follows_parents(diffs, commit, parents),
        parents.len() == 0,
        diffs[0]@.well_formed(),
    ensures
        diffs.len() == 1,
        diffs[0]@.commit == commit,
        diffs[0]@.parent is None,
        forall|i: int|
            0 <= i < diffs[0]@.changes.len() ==> (#[trigger] diffs[0]@.changes[i]).kind == ChangeKind::Added,
{
    assert(spec_diff_bases(parents) =~= seq![None]);
    assert forall|i: int| 0 <= i < diffs[0]@.changes.len() implies (#[trigger] diffs[0]@.changes[i]).kind
        == ChangeKind::Added by {
        lemma_root_diff_only_adds(diffs[0]@, i);
    }
}

/// A commit with one parent has one diff, which names that parent.
pub proof fn lemma_single_parent_has_one_diff(
    diffs: Seq<CommitDiff>,
    commit: git2::Oid,
    parents: Seq<git2::Oid>,
)
    requires
        follows_parents(diffs, commit, parents),
        parents.len() == 1,
    ensures
        diffs.len() == 1,
        diffs[0]@.commit == commit,
        diffs[0]@.parent == Some(parents[0]),
{
}

/// A merge has one diff for each of its parents, in the order in which the
/// commit records them: never one diff for all of them.
pub proof fn lemma_merge_has_one_diff_per_parent(
    diffs: Seq<CommitDiff>,
    commit: git2::Oid,
    parents: Seq<git2::Oid>,
)
    requires
        follows_parents(diffs, commit, parents),
        parents.len() > 1,
    ensures
        diffs.len() == parents.len(),
        forall|i: int|
            0 <= i < diffs.len() ==> {
                &&& (#[trigger] diffs[i])@.commit == commit
                &&& diffs[i]@.parent == Some(parents[i])
            },
{
}

/// The number of diffs of a commit is the number of its parents, or one
/// where it has none.
pub proof fn lemma_diff_count(diffs: Seq<CommitDiff>, commit: git2::Oid, parents: Seq<git2::Oid>)
    requires
        follows_parents(diffs, commit, parents),
    ensures
        diffs.len() == if parents.len() == 0 {
            1
        } else {
            parents.len()
        },
{
}

/// Picks the first of the diffs of a commit: the one against its first
/// parent, or the only one that a root commit has.
pub fn first_diff(diffs: Vec<CommitDiff>) -> (first: CommitDiff)
    requires
        diffs.len() > 0,
    ensures
        first == diffs[0],
{
    let mut diffs = diffs;
    diffs.remove(0)
}

/// Computes the diffs of commits of one repository under one set of options.
pub struct CommitDiffLoader<'options> {
    config: &'options CommitDiffLoaderOptions,
    repository: &'options git2::Repository,
}

impl<'options> CommitDiffLoader<'options> {
    /// The options that the loader computes its diffs under.
    pub closed spec fn options(&self) -> CommitDiffLoaderOptions {
        *self.config
    }

    /// The repository that the loader reads.
    pub closed spec fn repository(&self) -> &git2::Repository {
        self.repository
    }

    /// A loader that reads `repository` and computes its diffs under
    /// `config`. It borrows both.
    pub fn new(repository: &'options git2::Repository, config: &'options CommitDiffLoaderOptions) -> (loader:
        Self)
        ensures
            loader.options() == *config,
            loader.repository() == repository,
    {
        CommitDiffLoader { config, repository }
    }

    /// Loads the diffs of the commit `oid`.
    ///
    /// The commit is compared with each of its parents, in the order in which
    /// it records them, or with the empty tree where it has none. Each
    /// comparison gives one diff, so a merge of two branches gives two and a
    /// root commit one. All of them are computed under the loader's options.
    ///
    /// Which parents the commit has, and whether the backend finds it and can
    /// compare its tree, is for the backend to say. A failure to find the
    /// commit, one of its parents or a tree is `ObjectNotFound`, a failure to
    /// compare two trees `TreeComputationFailed`; either way no diff is
    /// returned. What is returned for each list of parents is stated at
    /// `load_against`.
    pub fn load_from_hash(&self, oid: git2::Oid) -> (loaded: Result<Vec<CommitDiff>, DiffError>)
        ensures
            loaded matches Ok(diffs) ==> exists|parents: Seq<git2::Oid>| follows_parents(diffs@, oid, parents),
            loaded matches Ok(diffs) ==> diffs.len() > 0,
            loaded matches Ok(diffs) ==> forall|i: int|
                0 <= i < diffs.len() ==> (#[trigger] diffs[i])@.respects(self.options()),
            loaded matches Err(failure) ==> load_failure(failure),
    {
        let commit = match self.repository.find_commit(oid) {
            Ok(commit) => commit,
            Err(failure) => {
                return Err(DiffError::object_not_found(&failure));
            },
        };
        let parents = read_parents(&commit)?;
        let tree = match commit.tree() {
            Ok(tree) => tree,
            Err(failure) => {
                return Err(DiffError::object_not_found(&failure));
            },
        };
        let loaded = self.load_each(oid, &parents, &tree);
        assert(loaded matches Ok(diffs) ==> follows_parents(diffs@, oid, parents@));
        loaded
    }

    /// Loads the diffs of the commit `oid` against the commits `parents`, as
    /// if they were the parents that it records: one diff for each of them,
    /// in their order, or one against the empty tree where there is none.
    ///
    /// Whether the backend finds the commits and can compare their trees is
    /// for the backend to say; the failures are those of `load_from_hash`.
    pub fn load_against(&self, oid: git2::Oid, parents: &Vec<git2::Oid>) -> (loaded: Result<
        Vec<CommitDiff>,
        DiffError,
    >)
        ensures
            loaded matches Ok(diffs) ==> follows_parents(diffs@, oid, parents@),
            loaded matches Ok(diffs) ==> forall|i: int|
                0 <= i < diffs.len() ==> (#[trigger] diffs[i])@.respects(self.options()),
            loaded matches Err(failure) ==> load_failure(failure),
    {
        let commit = match self.repository.find_commit(oid) {
            Ok(commit) => commit,
            Err(failure) => {
                return Err(DiffError::object_not_found(&failure));
            },
        };
        let tree = match commit.tree() {
            Ok(tree) => tree,
            Err(failure) => {
                return Err(DiffError::object_not_found(&failure));
            },
        };
        self.load_each(oid, parents, &tree)
    }

    /// Loads the diffs of the commit `oid`, whose tree is `tree`, against
    /// each of `parents`, or against the empty tree where there is none.
    fn load_each(&self, oid: git2::Oid, parents: &Vec<git2::Oid>, tree: &git2::Tree<'options>) -> (loaded:
        Result<Vec<CommitDiff>, DiffError>)
        ensures
            loaded matches Ok(diffs) ==> follows_parents(diffs@, oid, parents@),
            loaded matches Ok(diffs) ==> forall|i: int|
                0 <= i < diffs.len() ==> (#[trigger] diffs[i])@.respects(self.options()),
            loaded matches Err(failure) ==> load_failure(failure),
    {
        let bases = diff_bases(parents);
        let mut diffs: Vec<CommitDiff> = Vec::new();
        let mut i: usize = 0;
        while i < bases.len()
            invariant
                i <= bases.len(),
                diffs.len() == i,
                bases@ == spec_diff_bases(parents@),
                forall|j: int|
                    0 <= j < i ==> {
                        &&& (#[trigger] diffs[j])@.commit == oid
                        &&& diffs[j]@.parent == bases[j]
                        &&& diffs[j]@.respects(self.options())
                    },
            decreases bases.len() - i,
        {
            let diff = self.load_diff(oid, bases[i], tree)?;
            diffs.push(diff);
            i += 1;
        }
        let loaded: Result<Vec<CommitDiff>, DiffError> = Ok(diffs);
        assert(follows_parents(loaded->Ok_0@, oid, parents@));
        loaded
    }

    /// Loads the diff from `parent`, or from the empty tree, to the commit
    /// `oid`, whose tree is `tree`.
    fn load_diff(&self, oid: git2::Oid, parent: Option<git2::Oid>, tree: &git2::Tree<'options>) -> (loaded:
        Result<CommitDiff, DiffError>)
        ensures
            loaded matches Ok(diff) ==> {
                &&& diff@.commit == oid
                &&& diff@.parent == parent
                &&& diff@.respects(self.options())
            },
            loaded matches Err(failure) ==> load_failure(failure),
    {
        let request = self.config.tree_diff_request();
        let compared = match parent {
            None => backend::diff_trees(self.repository, None, tree, &request),
            Some(id) => {
                let parent_commit = match self.repository.find_commit(id) {
                    Ok(commit) => commit,
                    Err(failure) => {
                        return Err(DiffError::object_not_found(&failure));
                    },
                };
                let parent_tree = match parent_commit.tree() {
                    Ok(tree) => tree,
                    Err(failure) => {
                        return Err(DiffError::object_not_found(&failure));
                    },
                };
                backend::diff_trees(self.repository, Some(&parent_tree), tree, &request)
            },
        };
        let diff = match compared {
            Ok(diff) => diff,
            Err(failure) => {
                return Err(DiffError::tree_computation_failed(&failure));
            },
        };
        let diff = match self.config.similarity_request() {
            None => diff,
            Some(similarity) => match backend::find_similar(diff, &similarity) {
                Ok(diff) => diff,
                Err(failure) => {
                    return Err(DiffError::tree_computation_failed(&failure));
                },
            },
        };
        let report = read_report(&diff)?;
        CommitDiff::assemble(oid, parent, report, self.config)
    }
}

/// Whether `report` lists the deltas that a diff holds, each with its status
/// and its paths, in the order of the diff, and with no text for an
/// unmodified entry.
pub open spec fn lists_entries(
    report: Seq<DeltaReport>,
    entries: Seq<(DeltaStatus, Option<Seq<char>>, Option<Seq<char>>)>,
) -> bool {
    &&& report.len() == entries.len()
    &&& forall|i: int|
        0 <= i < report.len() ==> {
            &&& (#[trigger] report[i]).status == entries[i].0
            &&& backend::path_text(report[i].old_path) == entries[i].1
            &&& backend::path_text(report[i].new_path) == entries[i].2
            &&& report[i].status == DeltaStatus::Unmodified ==> report[i].hunks.len() == 0
        }
}

/// Reads what `diff` holds: its deltas, each with its status, its paths and
/// its text changes. The text of an unmodified entry is not asked for.
///
/// The report lists the deltas of the diff one for one and in their order.
/// Whether the text of a delta can be had is for the backend to say; where it
/// cannot, there is no report.
fn read_report(diff: &git2::Diff<'_>) -> (read: Result<Vec<DeltaReport>, DiffError>)
    ensures
        read matches Ok(report) ==> lists_entries(report@, backend::diff_entries(*diff)),
        read matches Err(failure) ==> failure is TreeComputationFailed && reported_by_backend(
            failure.spec_cause()@,
        ),
{
    let count = backend::delta_count(diff);
    let mut report: Vec<DeltaReport> = Vec::new();
    let mut index: usize = 0;
    while index < count
        invariant
            index <= count,
            count == backend::diff_entries(*diff).len(),
            lists_entries(report@, backend::diff_entries(*diff).take(index as int)),
        decreases count - index,
    {
        let status = match backend::delta_status(diff, index) {
            Some(status) => status,
            None => {
                return Err(DiffError::bad_report("the backend counted a delta that it does not hold"));
            },
        };
        let (old_path, new_path) = match backend::delta_paths(diff, index) {
            Some(paths) => paths,
            None => {
                return Err(DiffError::bad_report("the backend counted a delta that it does not hold"));
            },
        };
        let hunks = if status == DeltaStatus::Unmodified {
            Vec::new()
        } else {
            read_hunks(diff, index)?
        };
        report.push(DeltaReport { status, old_path, new_path, hunks });
        index += 1;
    }
    assert(backend::diff_entries(*diff).take(count as int) =~= backend::diff_entries(*diff));
    Ok(report)
}

/// Reads the ids of the parents of `commit`, in the order in which the
/// commit records them: all of them, and nothing else.
fn read_parents(commit: &git2::Commit<'_>) -> (read: Result<Vec<git2::Oid>, DiffError>)
    ensures
        read matches Ok(parents) && parents@ == backend::recorded_parents(*commit),
{
    let count = commit.parent_count();
    let mut parents: Vec<git2::Oid> = Vec::new();
    let mut i: usize = 0;
    while i < count
        invariant
            i <= count,
            count == backend::recorded_parents(*commit).len(),
            parents@ == backend::recorded_parents(*commit).take(i as int),
        decreases count - i,
    {
        match commit.parent_id(i) {
            Ok(id) => parents.push(id),
            Err(failure) => {
                return Err(DiffError::object_not_found(&failure));
            },
        }
        assert(backend::recorded_parents(*commit).take(i + 1) =~= backend::recorded_parents(*commit).take(
            i as int,
        ).push(backend::recorded_parents(*commit)[i as int]));
        i += 1;
    }
    assert(backend::recorded_parents(*commit).take(count as int) =~= backend::recorded_parents(*commit));
    Ok(parents)
}

/// Reads the content delta of the delta at `index` of `diff`: its hunks, or
/// none where the backend has no text to show for it.
fn read_hunks(diff: &git2::Diff<'_>, index: usize) -> (read: Result<Vec<Hunk>, DiffError>)
    ensures
        read matches Err(failure) ==> failure is TreeComputationFailed && reported_by_backend(
            failure.spec_cause()@,
        ),
{
    let patch = match git2::Patch::from_diff(diff, index) {
        Ok(Some(patch)) => patch,
        Ok(None) => {
            return Ok(Vec::new());
        },
        Err(failure) => {
            return Err(DiffError::tree_computation_failed(&failure));
        },
    };
    let count = patch.num_hunks();
    let mut hunks: Vec<Hunk> = Vec::new();
    let mut h: usize = 0;
    while h < count
        invariant
            hunks.len() == h,
        decreases count - h,
    {
        let (range, header, line_count) = match backend::patch_hunk(&patch, h) {
            Ok(hunk) => hunk,
            Err(failure) => {
                return Err(DiffError::tree_computation_failed(&failure));
            },
        };
        let lines = read_lines(&patch, h, line_count)?;
        hunks.push(Hunk { range, header, lines });
        h += 1;
    }
    Ok(hunks)
}

/// Reads the `count` lines of the hunk at `hunk` of `patch`.
fn read_lines(patch: &git2::Patch<'_>, hunk: usize, count: usize) -> (read: Result<Vec<Line>, DiffError>)
    ensures
        read matches Ok(lines) ==> lines.len() == count,
        read matches Err(failure) ==> failure is TreeComputationFailed && reported_by_backend(
            failure.spec_cause()@,
        ),
{
    let mut lines: Vec<Line> = Vec::new();
    let mut l: usize = 0;
    while l < count
        invariant
            l <= count,
            lines.len() == l,
        decreases count - l,
    {
        let (sigil, old_lineno, new_lineno, content) = match backend::patch_line(patch, hunk, l) {
            Ok(line) => line,
            Err(failure) => {
                return Err(DiffError::tree_computation_failed(&failure));
            },
        };
        lines.push(Line { origin: LineOrigin::from_sigil(sigil), old_lineno, new_lineno, content });
        l += 1;
    }
    Ok(lines)
}

} // verus!
