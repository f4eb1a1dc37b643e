//! The failures that the library reports.
//!
//! The backend describes a failure in free text. The library keeps that text
//! as the cause and says which operation failed: by the type of the error, by
//! its variant, and by the context that `message` puts in front of the cause.

use vstd::prelude::*;
use vstd::string::StringExecFns;

use crate::backend;

verus! {

/// Where an attempt to open a repository looked for it.
#[derive(Clone, Debug, PartialEq, Eq)]
pub enum OpenOrigin {
    /// The environment: `$GIT_DIR`, or else the current directory and the
    /// directories above it.
    Environment,
    /// The path that the caller gave.
    Path(String),
}

/// A repository could not be opened.
#[derive(Clone, Debug, PartialEq, Eq)]
pub struct OpenError {
    /// Where the repository was looked for.
    pub origin: OpenOrigin,
    /// What the backend said.
    pub cause: String,
}

/// The configuration of a repository could not be read.
#[derive(Clone, Debug, PartialEq, Eq)]
pub struct ConfigError {
    /// What the backend said.
    pub cause: String,
}

/// The diff of a commit could not be loaded.
#[derive(Clone, Debug, PartialEq, Eq)]
pub enum DiffError {
    /// The revision does not resolve to an object.
    NotFound {
        /// What the backend said.
        cause: String,
    },
    /// An object id does not lead to a commit, or a commit not to its tree.
    ObjectNotFound {
        /// What the backend said.
        cause: String,
    },
    /// The backend could not compute the diff of two trees, or reported one
    /// that cannot be.
    TreeComputationFailed {
        /// What the backend said, or what was wrong with its report.
        cause: String,
    },
}

/// Whether `cause` is the text of a failure that the backend reported, word
/// for word.
pub open spec fn reported_by_backend(cause: Seq<char>) -> bool {
    exists|failure: git2::Error| cause == #[trigger] backend::failure_text(failure)
}

/// The text that stands between a context and a cause.
pub open spec fn separator() -> Seq<char> {
    ": "@
}

/// The context of a failure to open a repository.
pub open spec fn open_context(origin: OpenOrigin) -> Seq<char> {
    match origin {
        OpenOrigin::Environment => "Could not open repository from environment"@,
        OpenOrigin::Path(_) => "Could not open repository from path"@,
    }
}

/// The context of a failure to load the configuration.
pub open spec fn config_context() -> Seq<char> {
    "Could not load configuration"@
}

/// The context of a failure to load the diff of a commit.
pub open spec fn diff_context() -> Seq<char> {
    "Could not load commit diff"@
}

impl OpenError {
    /// The failure to find a repository in the environment, as the backend
    /// reported it.
    pub(crate) fn from_environment(failure: &git2::Error) -> (error: Self)
        ensures
            error.origin == OpenOrigin::Environment,
            error.cause@ == backend::failure_text(*failure),
    {
        OpenError { origin: OpenOrigin::Environment, cause: backend::error_message(failure) }
    }

    /// The failure to open the repository at `path`, as the backend reported
    /// it.
    pub(crate) fn from_path(path: &str, failure: &git2::Error) -> (error: Self)
        ensures
            error.origin matches OpenOrigin::Path(attempted) && attempted@ == path@,
            error.cause@ == backend::failure_text(*failure),
    {
        OpenError { origin: OpenOrigin::Path(String::from_str(path)), cause: backend::error_message(failure) }
    }

    /// The operation that failed, in words.
    pub fn context(&self) -> (text: String)
        ensures
            text@ == open_context(self.origin),
    {
        match &self.origin {
            OpenOrigin::Environment => String::from_str("Could not open repository from environment"),
            OpenOrigin::Path(_) => String::from_str("Could not open repository from path"),
        }
    }

    /// The context, a colon and the cause.
    pub fn message(&self) -> (text: String)
        ensures
            text@ == open_context(self.origin) + separator() + self.cause@,
    {
        let mut text = self.context();
        text.append(": ");
        text.append(self.cause.as_str());
        text
    }
}

impl ConfigError {
    /// The failure to read the configuration, as the backend reported it.
    pub(crate) fn from_backend(failure: &git2::Error) -> (error: Self)
        ensures
            error.cause@ == backend::failure_text(*failure),
    {
        ConfigError { cause: backend::error_message(failure) }
    }

    /// The operation that failed, in words.
    pub fn context(&self) -> (text: String)
        ensures
            text@ == config_context(),
    {
        String::from_str("Could not load configuration")
    }

    /// The cause alone, as the backend worded it: a failure to read the
    /// configuration is passed on as it came.
    pub fn message(&self) -> (text: String)
        ensures
            text@ == self.cause@,
    {
        self.cause.clone()
    }
}

impl DiffError {
    /// A commit or a tree that the backend could not find.
    pub(crate) fn object_not_found(failure: &git2::Error) -> (error: Self)
        ensures
            error is ObjectNotFound,
            error.spec_cause()@ == backend::failure_text(*failure),
    {
        DiffError::ObjectNotFound { cause: backend::error_message(failure) }
    }

    /// A diff that the backend could not compute.
    pub(crate) fn tree_computation_failed(failure: &git2::Error) -> (error: Self)
        ensures
            error is TreeComputationFailed,
            error.spec_cause()@ == backend::failure_text(*failure),
    {
        DiffError::TreeComputationFailed { cause: backend::error_message(failure) }
    }

    /// A report of the backend that cannot be the diff of two trees.
    pub(crate) fn bad_report(what: &str) -> (error: Self)
        ensures
            error is TreeComputationFailed,
            error.spec_cause()@ == what@,
    {
        DiffError::TreeComputationFailed { cause: String::from_str(what) }
    }

    /// The cause of the failure.
    pub open spec fn spec_cause(&self) -> String {
        match *self {
            DiffError::NotFound { cause } => cause,
            DiffError::ObjectNotFound { cause } => cause,
            DiffError::TreeComputationFailed { cause } => cause,
        }
    }

    /// The cause of the failure.
    pub fn cause(&self) -> (cause: &String)
        ensures
            *cause == self.spec_cause(),
    {
        match self {
            DiffError::NotFound { cause } => cause,
            DiffError::ObjectNotFound { cause } => cause,
            DiffError::TreeComputationFailed { cause } => cause,
        }
    }

    /// The operation that failed, in words.
    pub fn context(&self) -> (text: String)
        ensures
            text@ == diff_context(),
    {
        String::from_str("Could not load commit diff")
    }

    /// The context, a colon and the cause.
    pub fn message(&self) -> (text: String)
        ensures
            text@ == diff_context() + separator() + self.spec_cause()@,
    {
        let mut text = self.context();
        text.append(": ");
        text.append(self.cause().as_str());
        text
    }
}

} // verus!
