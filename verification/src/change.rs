//! The records of a change set, and how a backend delta becomes one.

use vstd::prelude::*;

use crate::errors::DiffError;

verus! {

/// What the backend says of one entry of a tree diff.
#[derive(Clone, Copy, Debug, PartialEq, Eq, Structural)]
pub enum DeltaStatus {
    /// Both sides hold the same content under the same path.
    Unmodified,
    /// The entry exists on the new side only.
    Added,
    /// The entry exists on the old side only.
    Deleted,
    /// The content differs between the two sides.
    Modified,
    /// The entry moved to another path.
    Renamed,
    /// The entry was copied from another old entry.
    Copied,
    /// An ignored item of a working directory.
    Ignored,
    /// An untracked item of a working directory.
    Untracked,
    /// The type of the entry changed.
    Typechange,
    /// The entry could not be read.
    Unreadable,
    /// The entry is in conflict in an index.
    Conflicted,
}

/// The kind of change that a record of a change set describes.
#[derive(Clone, Copy, Debug, PartialEq, Eq, Structural)]
pub enum ChangeKind {
    /// The file is new in the commit.
    Added,
    /// The file is gone in the commit.
    Deleted,
    /// The file's content changed.
    Modified,
    /// The file moved to another path.
    Renamed,
    /// The file is a copy of a file of the parent.
    Copied,
}

/// What becomes of one backend delta.
#[derive(Clone, Copy, Debug, PartialEq, Eq, Structural)]
pub enum Classification {
    /// The delta is no change and leaves no record.
    Skip,
    /// The delta becomes a record of this kind.
    Keep(ChangeKind),
    /// The delta cannot stand in the diff at hand.
    Reject,
}

/// Whether a record of kind `kind` may stand in a change set.
///
/// Against the empty tree (`root`) every file is new. A file is only said to
/// be renamed where the search for similar files ran, which it does when
/// renames or copies are to be found, and only said to be a copy where copies
/// are to be found.
pub open spec fn kind_permitted(kind: ChangeKind, root: bool, renames: bool, copies: bool) -> bool {
    match kind {
        ChangeKind::Added => true,
        ChangeKind::Deleted | ChangeKind::Modified => !root,
        ChangeKind::Renamed => !root && (renames || copies),
        ChangeKind::Copied => !root && copies,
    }
}

/// The kind that a backend status stands for, if it stands for a change
/// between two trees at all.
pub open spec fn kind_of_status(status: DeltaStatus) -> Option<ChangeKind> {
    match status {
        DeltaStatus::Added => Some(ChangeKind::Added),
        DeltaStatus::Deleted => Some(ChangeKind::Deleted),
        DeltaStatus::Modified => Some(ChangeKind::Modified),
        DeltaStatus::Renamed => Some(ChangeKind::Renamed),
        DeltaStatus::Copied => Some(ChangeKind::Copied),
        _ => None,
    }
}

/// What becomes of a delta with status `status`.
pub open spec fn spec_classify(status: DeltaStatus, root: bool, renames: bool, copies: bool) -> Classification {
    if status == DeltaStatus::Unmodified {
        Classification::Skip
    } else {
        match kind_of_status(status) {
            Some(kind) => if kind_permitted(kind, root, renames, copies) {
                Classification::Keep(kind)
            } else {
                Classification::Reject
            },
            None => Classification::Reject,
        }
    }
}

/// Decides what becomes of one backend delta in a diff against a parent, or
/// against the empty tree (`root`), made with or without the search for
/// renames and copies.
///
/// Unmodified entries, which the backend lists so that it can find copies
/// among them, leave no record. The five kinds of change are kept where the
/// diff at hand can hold them. Everything else is rejected: the statuses of
/// working directories and indexes, and the change of type, which the
/// backend gives as a deletion and an addition unless it is asked otherwise.
pub fn classify(status: DeltaStatus, root: bool, renames: bool, copies: bool) -> (outcome: Classification)
    ensures
        outcome == spec_classify(status, root, renames, copies),
{
    match status {
        DeltaStatus::Unmodified => Classification::Skip,
        DeltaStatus::Added => Classification::Keep(ChangeKind::Added),
        DeltaStatus::Deleted => if root {
            Classification::Reject
        } else {
            Classification::Keep(ChangeKind::Deleted)
        },
        DeltaStatus::Modified => if root {
            Classification::Reject
        } else {
            Classification::Keep(ChangeKind::Modified)
        },
        DeltaStatus::Renamed => if !root && (renames || copies) {
            Classification::Keep(ChangeKind::Renamed)
        } else {
            Classification::Reject
        },
        DeltaStatus::Copied => if !root && copies {
            Classification::Keep(ChangeKind::Copied)
        } else {
            Classification::Reject
        },
        DeltaStatus::Ignored
        | DeltaStatus::Untracked
        | DeltaStatus::Typechange
        | DeltaStatus::Unreadable
        | DeltaStatus::Conflicted => Classification::Reject,
    }
}

/// What a line of a hunk is to the two sides of the diff.
#[derive(Clone, Copy, Debug, PartialEq, Eq, Structural)]
pub enum LineOrigin {
    /// The line stands on both sides.
    Context,
    /// The line stands on the new side only.
    Addition,
    /// The line stands on the old side only.
    Deletion,
    /// Neither side ends in a newline.
    ContextEndOfFile,
    /// The old side does not end in a newline, the new side does.
    AddEndOfFile,
    /// The old side ends in a newline, the new side does not.
    RemoveEndOfFile,
    /// The header of a file.
    FileHeader,
    /// The header of a hunk.
    HunkHeader,
    /// A note that the file is binary.
    Binary,
}

/// The origin that the backend's sigil `sigil` stands for. A sigil that the
/// backend does not know is read as context, as the backend itself reads it.
pub open spec fn origin_of_sigil(sigil: char) -> LineOrigin {
    if sigil == '+' {
        LineOrigin::Addition
    } else if sigil == '-' {
        LineOrigin::Deletion
    } else if sigil == '=' {
        LineOrigin::ContextEndOfFile
    } else if sigil == '>' {
        LineOrigin::AddEndOfFile
    } else if sigil == '<' {
        LineOrigin::RemoveEndOfFile
    } else if sigil == 'F' {
        LineOrigin::FileHeader
    } else if sigil == 'H' {
        LineOrigin::HunkHeader
    } else if sigil == 'B' {
        LineOrigin::Binary
    } else {
        LineOrigin::Context
    }
}

impl LineOrigin {
    /// Reads the sigil that the backend puts in front of a line.
    pub fn from_sigil(sigil: char) -> (origin: Self)
        ensures
            origin == origin_of_sigil(sigil),
    {
        if sigil == '+' {
            LineOrigin::Addition
        } else if sigil == '-' {
            LineOrigin::Deletion
        } else if sigil == '=' {
            LineOrigin::ContextEndOfFile
        } else if sigil == '>' {
            LineOrigin::AddEndOfFile
        } else if sigil == '<' {
            LineOrigin::RemoveEndOfFile
        } else if sigil == 'F' {
            LineOrigin::FileHeader
        } else if sigil == 'H' {
            LineOrigin::HunkHeader
        } else if sigil == 'B' {
            LineOrigin::Binary
        } else {
            LineOrigin::Context
        }
    }
}

/// One line of a hunk.
#[derive(Clone, Debug, PartialEq, Eq)]
pub struct Line {
    /// What the line is to the two sides.
    pub origin: LineOrigin,
    /// The number of the line on the old side, if it stands there.
    pub old_lineno: Option<u32>,
    /// The number of the line on the new side, if it stands there.
    pub new_lineno: Option<u32>,
    /// The text of the line.
    pub content: String,
}

/// The lines that a hunk covers on the two sides.
#[derive(Clone, Copy, Debug, PartialEq, Eq, Structural)]
pub struct HunkRange {
    /// The first line on the old side.
    pub old_start: u32,
    /// The number of lines on the old side.
    pub old_lines: u32,
    /// The first line on the new side.
    pub new_start: u32,
    /// The number of lines on the new side.
    pub new_lines: u32,
}

/// A run of lines that changed together, with the context around them.
#[derive(Clone, Debug, PartialEq, Eq)]
pub struct Hunk {
    /// The lines that the hunk covers.
    pub range: HunkRange,
    /// The header line of the hunk.
    pub header: String,
    /// The lines of the hunk, in the order of the file.
    pub lines: Vec<Line>,
}

/// The change of one file between a parent and a commit.
#[derive(Clone, Debug, PartialEq, Eq)]
pub struct FileChange {
    /// The kind of the change.
    pub kind: ChangeKind,
    /// The path of the file on the old side.
    pub old_path: Option<String>,
    /// The path of the file on the new side.
    pub new_path: Option<String>,
    /// The content delta. It is empty for a binary file.
    pub hunks: Vec<Hunk>,
}

/// What the backend reports of one entry of a tree diff.
#[derive(Clone, Debug, PartialEq, Eq)]
pub struct DeltaReport {
    /// What the backend says of the entry.
    pub status: DeltaStatus,
    /// The path of the entry on the old side.
    pub old_path: Option<String>,
    /// The path of the entry on the new side.
    pub new_path: Option<String>,
    /// The text changes of the entry.
    pub hunks: Vec<Hunk>,
}

/// The record that `delta` leaves in a change set, if it leaves one: the
/// delta itself, with its status read as a kind of change.
pub open spec fn change_of(delta: DeltaReport, root: bool, renames: bool, copies: bool) -> Option<FileChange> {
    match spec_classify(delta.status, root, renames, copies) {
        Classification::Keep(kind) => Some(
            FileChange { kind, old_path: delta.old_path, new_path: delta.new_path, hunks: delta.hunks },
        ),
        _ => None,
    }
}

/// The change set that the deltas of `report` leave: the record of each delta
/// that leaves one, in the order of the report.
pub open spec fn changes_of(report: Seq<DeltaReport>, root: bool, renames: bool, copies: bool) -> Seq<
    FileChange,
> {
    report.filter_map(|delta: DeltaReport| change_of(delta, root, renames, copies))
}

/// Whether `report` holds a delta that the diff at hand cannot hold.
pub open spec fn report_rejected(report: Seq<DeltaReport>, root: bool, renames: bool, copies: bool) -> bool {
    exists|i: int|
        0 <= i < report.len() && spec_classify((#[trigger] report[i]).status, root, renames, copies)
            == Classification::Reject
}

/// Whether every record of `changes` is of a kind that may stand in a diff
/// against a parent, or against the empty tree (`root`), made with or without
/// the search for renames and copies.
pub open spec fn changes_permitted(changes: Seq<FileChange>, root: bool, renames: bool, copies: bool) -> bool {
    forall|i: int|
        0 <= i < changes.len() ==> kind_permitted(#[trigger] changes[i].kind, root, renames, copies)
}

/// The cause that is given for a report with a delta that the diff at hand
/// cannot hold.
pub open spec fn rejected_cause() -> Seq<char> {
    "the backend reported a change that the diff of these trees cannot hold"@
}

/// Turns the report of the backend into a change set.
///
/// The deltas that are changes become records, in the order of the report;
/// unmodified entries are left out. A single delta that the diff at hand
/// cannot hold fails the whole report: no part of it is returned.
pub fn assemble_changes(report: Vec<DeltaReport>, root: bool, renames: bool, copies: bool) -> (assembled:
    Result<Vec<FileChange>, DiffError>)
    ensures
        assembled is Err <==> report_rejected(report@, root, renames, copies),
        assembled matches Ok(changes) ==> changes@ == changes_of(report@, root, renames, copies),
        assembled matches Err(failure) ==> failure is TreeComputationFailed && failure.spec_cause()@
            == rejected_cause(),
{
    let ghost all = report@;
    let mut changes: Vec<FileChange> = Vec::new();
    for delta in it: report
        invariant
            it.seq() == all,
            changes@ == changes_of(all.take(it.index() as int), root, renames, copies),
            !report_rejected(all.take(it.index() as int), root, renames, copies),
    {
        proof {
            lemma_changes_of_next(all, it.index() as int, root, renames, copies);
        }
        match classify(delta.status, root, renames, copies) {
            Classification::Skip => {},
            Classification::Keep(kind) => {
                changes.push(
                    FileChange { kind, old_path: delta.old_path, new_path: delta.new_path, hunks: delta.hunks },
                );
            },
            Classification::Reject => {
                return Err(
                    DiffError::bad_report("the backend reported a change that the diff of these trees cannot hold"),
                );
            },
        }
    }
    assert(all.take(all.len() as int) =~= all);
    Ok(changes)
}

/// The first `i + 1` deltas of a report leave what the first `i` leave,
/// followed by the record of the delta at `i` if it leaves one; and one of
/// them is rejected exactly if one of the first `i` is, or the delta at `i`.
proof fn lemma_changes_of_next(report: Seq<DeltaReport>, i: int, root: bool, renames: bool, copies: bool)
    requires
        0 <= i < report.len(),
    ensures
        changes_of(report.take(i + 1), root, renames, copies) == changes_of(
            report.take(i),
            root,
            renames,
            copies,
        ) + (match change_of(report[i], root, renames, copies) {
            Some(change) => seq![change],
            None => Seq::empty(),
        }),
        report_rejected(report.take(i + 1), root, renames, copies) <==> report_rejected(
            report.take(i),
            root,
            renames,
            copies,
        ) || spec_classify(report[i].status, root, renames, copies) == Classification::Reject,
{
    report.lemma_filter_map_take_succ(|delta: DeltaReport| change_of(delta, root, renames, copies), i);
    let shorter = report.take(i);
    let longer = report.take(i + 1);
    assert(longer[i] == report[i]);
    if report_rejected(shorter, root, renames, copies) {
        let j = choose|j: int|
            0 <= j < shorter.len() && spec_classify((#[trigger] shorter[j]).status, root, renames, copies)
                == Classification::Reject;
        assert(longer[j] == shorter[j]);
    }
    if report_rejected(longer, root, renames, copies) {
        let j = choose|j: int|
            0 <= j < longer.len() && spec_classify((#[trigger] longer[j]).status, root, renames, copies)
                == Classification::Reject;
        if j < i {
            assert(shorter[j] == longer[j]);
        }
    }
}

/// Every record of an assembled change set is of a kind that the diff at
/// hand can hold.
pub proof fn lemma_assembled_changes_permitted(report: Seq<DeltaReport>, root: bool, renames: bool, copies: bool)
    ensures
        changes_permitted(changes_of(report, root, renames, copies), root, renames, copies),
    decreases report.len(),
{
    if report.len() > 0 {
        let i = report.len() - 1;
        lemma_assembled_changes_permitted(report.take(i), root, renames, copies);
        lemma_changes_of_next(report, i, root, renames, copies);
        assert(report.take(i + 1) =~= report);
    } else {
        assert(changes_of(report, root, renames, copies) =~= Seq::empty());
    }
}

} // verus!
