//! The calls into `git2`.
//!
//! Nothing here is proved. The types are opaque to the verifier, and the
//! functions carry contracts that are taken on trust; most of them promise
//! nothing at all, because what they return depends on the repository on
//! disk.

use vstd::prelude::*;

use crate::change::{DeltaStatus, HunkRange};
use crate::options::{SimilarityRequest, TreeDiffRequest};

verus! {

/// `git2::Repository`: an opened repository.
#[verifier::external_type_specification]
#[verifier::external_body]
pub struct ExRepository(git2::Repository);

/// `git2::Error`: a failure reported by libgit2.
#[verifier::external_type_specification]
#[verifier::external_body]
pub struct ExError(git2::Error);

/// `git2::Config`: a handle on the merged configuration of a repository.
#[verifier::external_type_specification]
#[verifier::external_body]
pub struct ExConfig(git2::Config);

/// `git2::Oid`: the identity of an object. It is carried through and never
/// looked into.
#[verifier::external_type_specification]
#[verifier::external_body]
pub struct ExOid(git2::Oid);

/// `git2::Commit`: a commit object that was read from the object database.
#[verifier::external_type_specification]
#[verifier::external_body]
pub struct ExCommit<'a>(git2::Commit<'a>);

/// `git2::Tree`: a tree object that was read from the object database.
#[verifier::external_type_specification]
#[verifier::external_body]
pub struct ExTree<'a>(git2::Tree<'a>);

/// `git2::Diff`: the list of deltas between two trees.
#[verifier::external_type_specification]
#[verifier::external_body]
pub struct ExDiff<'a>(git2::Diff<'a>);

/// `git2::Patch`: the text changes of one delta.
#[verifier::external_type_specification]
#[verifier::external_body]
pub struct ExPatch<'a>(git2::Patch<'a>);

/// Whether `repo` has a directory on disk. A repository that was opened has
/// one. One that was wrapped round an object database alone has none, and
/// cannot say where it is.
pub uninterp spec fn has_directory(repo: git2::Repository) -> bool;

/// `git2::Repository::open_from_env`: opens the repository that `$GIT_DIR`
/// names or, without it, the one around the current directory. Whether it
/// succeeds is not claimed; a repository that it opens has a directory.
pub assume_specification[ git2::Repository::open_from_env ]() -> (opened: Result<
    git2::Repository,
    git2::Error,
>)
    ensures
        opened matches Ok(repo) ==> has_directory(repo),
;

/// `git2::Repository::open`: opens the repository at `path`. Whether it
/// succeeds is not claimed; a repository that it opens has a directory.
#[verifier::external_body]
pub(crate) fn open_repository(path: &str) -> (opened: Result<git2::Repository, git2::Error>)
    ensures
        opened matches Ok(repo) ==> has_directory(repo),
{
    git2::Repository::open(path)
}

/// `git2::Repository::config`: the configuration of the repository, with the
/// global and the system configuration behind it. Nothing is claimed of the
/// outcome.
pub assume_specification[ git2::Repository::config ](repo: &git2::Repository) -> (config: Result<
    git2::Config,
    git2::Error,
>)
;

/// `git2::Repository::path`: the path of the repository's directory, written
/// as `Debug` writes a path, in double quotes. The call panics on a
/// repository without a directory, which the precondition leaves out.
#[verifier::external_body]
pub(crate) fn repository_path(repo: &git2::Repository) -> (path: String)
    requires
        has_directory(*repo),
{
    format!("{:?}", repo.path())
}

/// `git2::Repository::revparse_single` followed by `git2::Object::id`: the
/// id of the object that `revision` names. Nothing is claimed of the outcome.
#[verifier::external_body]
pub(crate) fn resolve_revision(repo: &git2::Repository, revision: &str) -> (resolved: Result<
    git2::Oid,
    git2::Error,
>) {
    Ok(repo.revparse_single(revision)?.id())
}

/// `git2::Repository::find_commit`: reads the commit with id `oid`. Nothing
/// is claimed of the outcome.
pub assume_specification<'a>[ git2::Repository::find_commit ](
    repo: &'a git2::Repository,
    oid: git2::Oid,
) -> (found: Result<git2::Commit<'a>, git2::Error>)
;

/// The ids of the parents that a commit object records, in the order in
/// which it records them. A commit object does not change once it is read.
pub uninterp spec fn recorded_parents(target: git2::Commit) -> Seq<git2::Oid>;

/// The parent that a commit object records at place `i`.
pub open spec fn nth_parent(target: git2::Commit, i: usize) -> git2::Oid {
    recorded_parents(target)[i as int]
}

/// Whether the call gave the id `expected`.
pub open spec fn gives_parent(id: Result<git2::Oid, git2::Error>, expected: git2::Oid) -> bool {
    id matches Ok(parent) && parent == expected
}

/// `git2::Commit::parent_count`: the number of parents that the commit
/// records.
pub assume_specification<'repo>[ git2::Commit::<'repo>::parent_count ](
    target: &git2::Commit<'repo>,
) -> (count: usize)
    ensures
        count == recorded_parents(*target).len(),
;

/// `git2::Commit::parent_id`: the id of the parent at place `i`, where the
/// commit records that many parents. Of a place beyond them, where the call
/// fails, nothing is claimed.
pub assume_specification<'repo>[ git2::Commit::<'repo>::parent_id ](
    target: &git2::Commit<'repo>,
    i: usize,
) -> (id: Result<git2::Oid, git2::Error>)
    ensures
        i < recorded_parents(*target).len() ==> gives_parent(id, nth_parent(*target, i)),
;

/// `git2::Commit::tree`: reads the tree of the commit. Nothing is claimed of
/// the outcome.
pub assume_specification<'repo>[ git2::Commit::<'repo>::tree ](
    target: &git2::Commit<'repo>,
) -> (tree: Result<git2::Tree<'repo>, git2::Error>)
;

/// `git2::Repository::diff_tree_to_tree`, with options made by
/// `git2::DiffOptions::new` and set field by field from `request`: the diff
/// from `old`, or from the empty tree, to `new`. Nothing is claimed of the
/// outcome.
#[verifier::external_body]
pub(crate) fn diff_trees<'r>(
    repo: &'r git2::Repository,
    old: Option<&git2::Tree<'r>>,
    new: &git2::Tree<'r>,
    request: &TreeDiffRequest,
) -> (diff: Result<git2::Diff<'r>, git2::Error>) {
    let mut options = git2::DiffOptions::new();
    options
        .context_lines(request.context_lines)
        .interhunk_lines(request.interhunk_lines)
        .ignore_whitespace(request.ignore_whitespace)
        .ignore_whitespace_change(request.ignore_whitespace_change)
        .ignore_blank_lines(request.ignore_blank_lines)
        .include_unmodified(request.include_unmodified);
    repo.diff_tree_to_tree(old, Some(new), Some(&mut options))
}

/// `git2::Diff::find_similar`, with options made by
/// `git2::DiffFindOptions::new` and set field by field from `request`: the
/// diff with its renames and copies marked. Nothing is claimed of the
/// outcome.
#[verifier::external_body]
pub(crate) fn find_similar<'r>(diff: git2::Diff<'r>, request: &SimilarityRequest) -> (marked: Result<
    git2::Diff<'r>,
    git2::Error,
>) {
    let mut diff = diff;
    let mut options = git2::DiffFindOptions::new();
    options
        .renames(request.renames)
        .renames_from_rewrites(request.renames_from_rewrites)
        .rewrites(request.rewrites)
        .copies(request.copies)
        .copies_from_unmodified(request.copies_from_unmodified)
        .rename_limit(request.rename_limit);
    diff.find_similar(Some(&mut options))?;
    Ok(diff)
}

/// The deltas that a diff holds, in its order: of each its status, the path
/// of its old side and the path of its new side, a path being the text that
/// its bytes give when those that are no UTF-8 are replaced. Which deltas a
/// diff holds is settled when it is made, and again when similar files are
/// searched in it; the library hands a diff on by value then, and reads it
/// afterwards.
pub uninterp spec fn diff_entries(diff: git2::Diff) -> Seq<
    (DeltaStatus, Option<Seq<char>>, Option<Seq<char>>),
>;

/// The delta that a diff holds at place `index`.
pub open spec fn nth_entry(diff: git2::Diff, index: usize) -> (DeltaStatus, Option<Seq<char>>, Option<Seq<char>>) {
    diff_entries(diff)[index as int]
}

/// Whether the call gave the paths of the delta `entry`, the old one first.
pub open spec fn gives_paths(
    paths: Option<(Option<String>, Option<String>)>,
    entry: (DeltaStatus, Option<Seq<char>>, Option<Seq<char>>),
) -> bool {
    paths matches Some(pair) && path_text(pair.0) == entry.1 && path_text(pair.1) == entry.2
}

/// The text of a path, if there is a path.
pub open spec fn path_text(path: Option<String>) -> Option<Seq<char>> {
    match path {
        Some(path) => Some(path@),
        None => None,
    }
}

/// `git2::Diff::deltas`, asked for its length: the number of deltas in the
/// diff.
#[verifier::external_body]
pub(crate) fn delta_count(diff: &git2::Diff<'_>) -> (count: usize)
    ensures
        count == diff_entries(*diff).len(),
{
    diff.deltas().len()
}

/// `git2::Diff::get_delta`, then `git2::DiffDelta::old_file` and `new_file`,
/// each asked for its `path`: the paths of the two sides of the delta at
/// `index`, the old one first, bytes that are no UTF-8 replaced. `None`
/// exactly where the diff has no delta at `index`.
#[verifier::external_body]
pub(crate) fn delta_paths(diff: &git2::Diff<'_>, index: usize) -> (paths: Option<
    (Option<String>, Option<String>),
>)
    ensures
        index >= diff_entries(*diff).len() ==> paths is None,
        index < diff_entries(*diff).len() ==> gives_paths(paths, nth_entry(*diff, index)),
{
    let delta = diff.get_delta(index)?;
    let old = delta.old_file().path().map(|path| path.to_string_lossy().into_owned());
    let new = delta.new_file().path().map(|path| path.to_string_lossy().into_owned());
    Some((old, new))
}

/// `git2::Patch::from_diff`: the text changes of the delta at `idx`, `None`
/// for a file that is binary or did not change. Nothing is claimed of the
/// outcome.
pub assume_specification<'buffers>[ git2::Patch::<'buffers>::from_diff ](
    diff: &git2::Diff<'buffers>,
    idx: usize,
) -> (patch: Result<Option<git2::Patch<'buffers>>, git2::Error>)
;

/// `git2::Patch::num_hunks`: the number of hunks in the patch. Nothing is
/// claimed of the number.
pub assume_specification<'buffers>[ git2::Patch::<'buffers>::num_hunks ](
    patch: &git2::Patch<'buffers>,
) -> (count: usize)
;

/// `git2::Patch::hunk`: the hunk at `index`, as the lines it covers, its
/// header with bytes that are no UTF-8 replaced, and the number of its lines.
/// A failure where the patch has no such hunk.
#[verifier::external_body]
pub(crate) fn patch_hunk(patch: &git2::Patch<'_>, index: usize) -> (hunk: Result<
    (HunkRange, String, usize),
    git2::Error,
>) {
    let (hunk, lines) = patch.hunk(index)?;
    let range = HunkRange {
        old_start: hunk.old_start(),
        old_lines: hunk.old_lines(),
        new_start: hunk.new_start(),
        new_lines: hunk.new_lines(),
    };
    Ok((range, String::from_utf8_lossy(hunk.header()).into_owned(), lines))
}

/// `git2::Patch::line_in_hunk`: the line at `index` of the hunk at `hunk`,
/// as its sigil, its number on the old and on the new side, and its text with
/// bytes that are no UTF-8 replaced. A failure where there is no such line.
#[verifier::external_body]
pub(crate) fn patch_line(patch: &git2::Patch<'_>, hunk: usize, index: usize) -> (line: Result<
    (char, Option<u32>, Option<u32>, String),
    git2::Error,
>) {
    let line = patch.line_in_hunk(hunk, index)?;
    let text = String::from_utf8_lossy(line.content()).into_owned();
    Ok((line.origin(), line.old_lineno(), line.new_lineno(), text))
}

/// The text in which a failure describes itself.
pub uninterp spec fn failure_text(failure: git2::Error) -> Seq<char>;

/// `git2::Error::message`: the text in which libgit2 describes the failure.
#[verifier::external_body]
pub(crate) fn error_message(failure: &git2::Error) -> (text: String)
    ensures
        text@ == failure_text(*failure),
{
    failure.message().to_string()
}

/// `git2::Diff::get_delta` followed by `git2::DiffDelta::status`: the status
/// of the delta at `index`, each variant of `git2::Delta` given as the variant
/// of the same name. `None` exactly where the diff has no delta at `index`.
#[verifier::external_body]
pub(crate) fn delta_status(diff: &git2::Diff<'_>, index: usize) -> (status: Option<DeltaStatus>)
    ensures
        index >= diff_entries(*diff).len() ==> status is None,
        index < diff_entries(*diff).len() ==> status == Some(nth_entry(*diff, index).0),
{
    Some(match diff.get_delta(index)?.status() {
        git2::Delta::Unmodified => DeltaStatus::Unmodified,
        git2::Delta::Added => DeltaStatus::Added,
        git2::Delta::Deleted => DeltaStatus::Deleted,
        git2::Delta::Modified => DeltaStatus::Modified,
        git2::Delta::Renamed => DeltaStatus::Renamed,
        git2::Delta::Copied => DeltaStatus::Copied,
        git2::Delta::Ignored => DeltaStatus::Ignored,
        git2::Delta::Untracked => DeltaStatus::Untracked,
        git2::Delta::Typechange => DeltaStatus::Typechange,
        git2::Delta::Unreadable => DeltaStatus::Unreadable,
        git2::Delta::Conflicted => DeltaStatus::Conflicted,
    })
}

} // verus!
