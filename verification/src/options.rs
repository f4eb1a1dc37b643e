//! The options of a diff computation, and what they ask of the backend.

use vstd::prelude::*;

verus! {

/// How the diff of a commit is to be computed.
///
/// A value is built once, by `new` and the setters, and then handed to the
/// loader by reference.
#[derive(Clone, Copy, Debug, PartialEq, Eq, Structural)]
pub struct CommitDiffLoaderOptions {
    /// The number of unchanged lines shown around a change.
    pub context_lines: u32,
    /// Whether copies of files are to be found.
    pub copies: bool,
    /// Whether all whitespace is ignored.
    pub ignore_whitespace: bool,
    /// Whether changes in the amount of whitespace are ignored.
    pub ignore_whitespace_change: bool,
    /// Whether blank lines are ignored.
    pub ignore_blank_lines: bool,
    /// The greatest number of unchanged lines between two hunks with which
    /// they are still merged into one.
    pub interhunk_context: u32,
    /// The number of candidates looked at for each file when renames are
    /// searched; zero leaves the limit to the backend.
    pub rename_limit: u32,
    /// Whether renames of files are to be found.
    pub renames: bool,
}

/// What the backend is asked when it compares two trees.
#[derive(Clone, Copy, Debug, PartialEq, Eq, Structural)]
pub struct TreeDiffRequest {
    /// The number of unchanged lines around a change.
    pub context_lines: u32,
    /// The greatest number of unchanged lines between two hunks with which
    /// they are still merged into one.
    pub interhunk_lines: u32,
    /// Whether all whitespace is ignored.
    pub ignore_whitespace: bool,
    /// Whether changes in the amount of whitespace are ignored.
    pub ignore_whitespace_change: bool,
    /// Whether blank lines are ignored.
    pub ignore_blank_lines: bool,
    /// Whether unchanged files are listed too.
    pub include_unmodified: bool,
}

/// What the backend is asked when it searches a diff for similar files.
#[derive(Clone, Copy, Debug, PartialEq, Eq, Structural)]
pub struct SimilarityRequest {
    /// Whether renames are looked for.
    pub renames: bool,
    /// Whether the old side of a modified file may be the source of a rename.
    pub renames_from_rewrites: bool,
    /// Whether files that were rewritten for the most part are marked.
    pub rewrites: bool,
    /// Whether copies are looked for.
    pub copies: bool,
    /// Whether unchanged files may be the source of a copy.
    pub copies_from_unmodified: bool,
    /// The number of candidates looked at for each file.
    pub rename_limit: usize,
}

impl CommitDiffLoaderOptions {
    /// The options with nothing asked for: no context, whitespace counted,
    /// neither renames nor copies found.
    pub fn new() -> (options: Self)
        ensures
            options == (CommitDiffLoaderOptions {
                context_lines: 0,
                copies: false,
                ignore_whitespace: false,
                ignore_whitespace_change: false,
                ignore_blank_lines: false,
                interhunk_context: 0,
                rename_limit: 0,
                renames: false,
            }),
    {
        CommitDiffLoaderOptions {
            context_lines: 0,
            copies: false,
            ignore_whitespace: false,
            ignore_whitespace_change: false,
            ignore_blank_lines: false,
            interhunk_context: 0,
            rename_limit: 0,
            renames: false,
        }
    }

    /// The same options with `context_lines` unchanged lines shown around a
    /// change.
    pub fn context_lines(self, context_lines: u32) -> (options: Self)
        ensures
            options == (CommitDiffLoaderOptions { context_lines, ..self }),
    {
        CommitDiffLoaderOptions { context_lines, ..self }
    }

    /// The same options with hunks merged where no more than
    /// `interhunk_context` unchanged lines lie between them.
    pub fn interhunk_context(self, interhunk_context: u32) -> (options: Self)
        ensures
            options == (CommitDiffLoaderOptions { interhunk_context, ..self }),
    {
        CommitDiffLoaderOptions { interhunk_context, ..self }
    }

    /// The same options with copies found, or not.
    pub fn copies(self, copies: bool) -> (options: Self)
        ensures
            options == (CommitDiffLoaderOptions { copies, ..self }),
    {
        CommitDiffLoaderOptions { copies, ..self }
    }

    /// The same options with all whitespace ignored, or not.
    pub fn ignore_whitespace(self, ignore_whitespace: bool) -> (options: Self)
        ensures
            options == (CommitDiffLoaderOptions { ignore_whitespace, ..self }),
    {
        CommitDiffLoaderOptions { ignore_whitespace, ..self }
    }

    /// The same options with changes in the amount of whitespace ignored, or
    /// not.
    pub fn ignore_whitespace_change(self, ignore_whitespace_change: bool) -> (options: Self)
        ensures
            options == (CommitDiffLoaderOptions { ignore_whitespace_change, ..self }),
    {
        CommitDiffLoaderOptions { ignore_whitespace_change, ..self }
    }

    /// The same options with blank lines ignored, or not.
    pub fn ignore_blank_lines(self, ignore_blank_lines: bool) -> (options: Self)
        ensures
            options == (CommitDiffLoaderOptions { ignore_blank_lines, ..self }),
    {
        CommitDiffLoaderOptions { ignore_blank_lines, ..self }
    }

    /// The same options with renames found, or not, among at most `limit`
    /// candidates for each file.
    pub fn renames(self, renames: bool, limit: u32) -> (options: Self)
        ensures
            options == (CommitDiffLoaderOptions { renames, rename_limit: limit, ..self }),
    {
        CommitDiffLoaderOptions { renames, rename_limit: limit, ..self }
    }

    /// Whether the diff is to be searched for similar files at all.
    pub open spec fn finds_similar(&self) -> bool {
        self.renames || self.copies
    }

    /// What the comparison of two trees is asked for under these options.
    ///
    /// Unchanged files are listed exactly when copies are to be found: a copy
    /// may have been made of a file that did not change.
    pub open spec fn spec_tree_diff_request(&self) -> TreeDiffRequest {
        TreeDiffRequest {
            context_lines: self.context_lines,
            interhunk_lines: self.interhunk_context,
            ignore_whitespace: self.ignore_whitespace,
            ignore_whitespace_change: self.ignore_whitespace_change,
            ignore_blank_lines: self.ignore_blank_lines,
            include_unmodified: self.copies,
        }
    }

    /// What the search for similar files is asked for under these options:
    /// nothing where neither renames nor copies are to be found.
    pub open spec fn spec_similarity_request(&self) -> Option<SimilarityRequest> {
        if self.finds_similar() {
            Some(
                SimilarityRequest {
                    renames: self.renames,
                    renames_from_rewrites: self.renames,
                    rewrites: self.renames,
                    copies: self.copies,
                    copies_from_unmodified: self.copies,
                    rename_limit: self.rename_limit as usize,
                },
            )
        } else {
            None
        }
    }

    /// What the comparison of two trees is asked for under these options.
    pub fn tree_diff_request(&self) -> (request: TreeDiffRequest)
        ensures
            request == self.spec_tree_diff_request(),
    {
        TreeDiffRequest {
            context_lines: self.context_lines,
            interhunk_lines: self.interhunk_context,
            ignore_whitespace: self.ignore_whitespace,
            ignore_whitespace_change: self.ignore_whitespace_change,
            ignore_blank_lines: self.ignore_blank_lines,
            include_unmodified: self.copies,
        }
    }

    /// What the search for similar files is asked for under these options.
    ///
    /// With neither renames nor copies to be found there is no search: asked
    /// for nothing, the backend would fall back on the repository's
    /// configuration and find renames after all.
    pub fn similarity_request(&self) -> (request: Option<SimilarityRequest>)
        ensures
            request == self.spec_similarity_request(),
    {
        if self.renames || self.copies {
            Some(
                SimilarityRequest {
                    renames: self.renames,
                    renames_from_rewrites: self.renames,
                    rewrites: self.renames,
                    copies: self.copies,
                    copies_from_unmodified: self.copies,
                    rename_limit: self.rename_limit as usize,
                },
            )
        } else {
            None
        }
    }
}

impl Default for CommitDiffLoaderOptions {
    /// The options with nothing asked for.
    fn default() -> (options: Self)
        ensures
            options == (CommitDiffLoaderOptions {
                context_lines: 0,
                copies: false,
                ignore_whitespace: false,
                ignore_whitespace_change: false,
                ignore_blank_lines: false,
                interhunk_context: 0,
                rename_limit: 0,
                renames: false,
            }),
    {
        CommitDiffLoaderOptions::new()
    }
}

} // verus!
