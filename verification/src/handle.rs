//! The handle on an opened repository.

use vstd::prelude::*;
use vstd::string::StringExecFns;

use crate::backend;
use crate::commit_diff::CommitDiff;
use crate::errors::{reported_by_backend, ConfigError, DiffError, OpenError, OpenOrigin};
use crate::loader::{first_diff, load_failure, CommitDiffLoader};
use crate::options::CommitDiffLoaderOptions;

verus! {

/// An opened repository.
///
/// The handle is the one owner of the backend's connection to the
/// repository, which is released when the handle is dropped.
pub struct RepositoryHandle {
    repository: git2::Repository,
}

/// How a handle on the repository whose directory is written `path` is
/// described.
pub open spec fn spec_description(path: Seq<char>) -> Seq<char> {
    "Repository { [path]: "@ + path + " }"@
}

/// Describes a handle on the repository whose directory is written `path`.
pub fn description(path: &str) -> (text: String)
    ensures
        text@ == spec_description(path@),
{
    let mut text = String::from_str("Repository { [path]: ");
    text.append(path);
    text.append(" }");
    text
}

impl RepositoryHandle {
    /// The handle that owns `repository`.
    pub closed spec fn holding(repository: git2::Repository) -> Self {
        RepositoryHandle { repository }
    }

    /// The backend's repository that the handle owns.
    pub closed spec fn backend(&self) -> git2::Repository {
        self.repository
    }

    /// Whether the repository has a directory on disk. One that the library
    /// opened has; one that was taken over may be no more than an object
    /// database.
    pub open spec fn has_directory(&self) -> bool {
        backend::has_directory(self.backend())
    }

    /// Finds and opens a repository as git itself would: the one that
    /// `$GIT_DIR` names or, where that is not set, the one that holds the
    /// current directory.
    ///
    /// Whether there is a repository to open is for the backend to say. A
    /// failure says that the environment was searched.
    pub fn open_from_env() -> (opened: Result<Self, OpenError>)
        ensures
            opened matches Ok(handle) ==> handle.has_directory(),
            opened matches Err(failure) ==> failure.origin == OpenOrigin::Environment && reported_by_backend(
                failure.cause@,
            ),
    {
        match git2::Repository::open_from_env() {
            Ok(repository) => Ok(RepositoryHandle { repository }),
            Err(failure) => Err(OpenError::from_environment(&failure)),
        }
    }

    /// Opens the repository at `path`.
    ///
    /// Whether there is a repository at `path` is for the backend to say. A
    /// failure names the path that was tried.
    pub fn open_from_path(path: &str) -> (opened: Result<Self, OpenError>)
        ensures
            opened matches Ok(handle) ==> handle.has_directory(),
            opened matches Err(failure) ==> failure.origin matches OpenOrigin::Path(attempted) && attempted@
                == path@,
            opened matches Err(failure) ==> reported_by_backend(failure.cause@),
    {
        match backend::open_repository(path) {
            Ok(repository) => Ok(RepositoryHandle { repository }),
            Err(failure) => Err(OpenError::from_path(path, &failure)),
        }
    }

    /// Loads the configuration of the repository, merged with the global and
    /// the system configuration as the backend merges them.
    ///
    /// Whether the configuration can be read is for the backend to say. A
    /// failure passes on what the backend said, word for word.
    pub fn load_config(&self) -> (loaded: Result<git2::Config, ConfigError>)
        ensures
            loaded matches Err(failure) ==> reported_by_backend(failure.cause@),
    {
        match self.repository.config() {
            Ok(config) => Ok(config),
            Err(failure) => Err(ConfigError::from_backend(&failure)),
        }
    }

    /// Loads the diff of the commit that `hash` names: a full or shortened
    /// hash, or any other revision that the backend can resolve.
    ///
    /// Of the diffs of that commit the first is returned: the one against its
    /// first parent, or against the empty tree where it has none. The diffs
    /// against the other parents of a merge are dropped.
    ///
    /// A revision that the backend cannot resolve is `NotFound`, and the
    /// failure passes on what the backend said, word for word; after that the
    /// failures are those of `CommitDiffLoader::load_from_hash`. What is
    /// returned for each answer of the backend is stated at `load_resolved`.
    pub fn load_commit_diff(&self, hash: &str, config: &CommitDiffLoaderOptions) -> (loaded: Result<
        CommitDiff,
        DiffError,
    >)
        ensures
            loaded matches Ok(diff) ==> diff@.respects(*config),
            loaded matches Err(failure) ==> if failure is NotFound {
                reported_by_backend(failure.spec_cause()@)
            } else {
                load_failure(failure)
            },
    {
        let resolved = match backend::resolve_revision(&self.repository, hash) {
            Ok(oid) => Ok(oid),
            Err(failure) => Err(backend::error_message(&failure)),
        };
        self.load_resolved(resolved, config)
    }

    /// Loads the diff of a commit once its revision has been looked up:
    /// `resolved` is the id that the revision names, or what the backend said
    /// when it could not resolve it.
    ///
    /// An unresolved revision is `NotFound`, with the backend's words as the
    /// cause, and nothing is loaded. For a resolved one the first diff of the
    /// commit with that id is loaded, which names that commit. The failures
    /// then are those of the loader, never `NotFound`.
    pub fn load_resolved(&self, resolved: Result<git2::Oid, String>, config: &CommitDiffLoaderOptions) -> (loaded:
        Result<CommitDiff, DiffError>)
        ensures
            resolved matches Err(cause) ==> loaded == Err::<CommitDiff, DiffError>(DiffError::NotFound { cause }),
            resolved matches Ok(oid) ==> match loaded {
                Ok(diff) => diff@.commit == oid && diff@.respects(*config),
                Err(failure) => load_failure(failure),
            },
    {
        let oid = match resolved {
            Ok(oid) => oid,
            Err(cause) => {
                return Err(DiffError::NotFound { cause });
            },
        };
        let loader = CommitDiffLoader::new(&self.repository, config);
        let diffs = loader.load_from_hash(oid)?;
        Ok(first_diff(diffs))
    }

    /// The backend's repository, for a loader to read.
    pub fn git2_repository(&self) -> (repository: &git2::Repository)
        ensures
            *repository == self.backend(),
    {
        &self.repository
    }

    /// Describes the handle by the path of the repository's directory, which
    /// the backend gives. A repository without a directory cannot be
    /// described.
    pub fn describe(&self) -> (text: String)
        requires
            self.has_directory(),
        ensures
            exists|path: Seq<char>| text@ == spec_description(path),
    {
        let path = backend::repository_path(&self.repository);
        let text = description(path.as_str());
        assert(text@ == spec_description(path@));
        text
    }
}

/// The handle that took over a repository hands out that repository.
pub proof fn lemma_handle_holds_repository(repository: git2::Repository)
    ensures
        RepositoryHandle::holding(repository).backend() == repository,
{
}

impl From<git2::Repository> for RepositoryHandle {
    /// Takes over a repository that the caller opened.
    fn from(repository: git2::Repository) -> (handle: Self) {
        RepositoryHandle { repository }
    }
}

impl vstd::std_specs::convert::FromSpecImpl<git2::Repository> for RepositoryHandle {
    open spec fn obeys_from_spec() -> bool {
        true
    }

    open spec fn from_spec(repository: git2::Repository) -> Self {
        RepositoryHandle::holding(repository)
    }
}

} // verus!
