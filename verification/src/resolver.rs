//! The binary-resolution state machine.
//!
//! A resolution turns "give me a runnable path for the language server" into
//! a short dialogue with the host: the resolver decides, the host performs
//! the I/O. Each step function takes what the host observed and returns what
//! the host must do next; the host calls them in the order the steps name.
//!
//! The resolver holds one piece of state across resolutions: the last
//! successfully resolved path. It is never trusted blindly — the first step
//! of every resolution asks the host to re-check that the file still exists.

use vstd::prelude::*;
use crate::error::ResolveError;
use crate::install::CleanupDecision;
use crate::install::ListingEntry;
use crate::install::binary_path;
use crate::install::cleanup_targets;
use crate::install::spec_binary_path;
use crate::install::spec_cleanup_decision;
use crate::install::spec_first_failure_at;
use crate::install::spec_no_failure;
use crate::install::spec_version_dir;
use crate::install::version_dir;
use crate::platform::Os;
use crate::platform::identify;
use crate::platform::spec_identify;
use crate::release::LookupRequest;
use crate::release::ReleaseInfo;
use crate::release::lookup_request;
use crate::release::spec_fresh_lookup;
use crate::selector::select;
use crate::selector::spec_expected_file;
use crate::selector::spec_first_match;

verus! {

/// An installation status the host reports on the resolver's behalf.
#[derive(Clone, Copy, Debug, PartialEq, Eq, Structural)]
pub enum Status {
    CheckingForUpdate,
    Downloading,
}

/// What the host must do to open a resolution.
pub enum BeginStep {
    /// Check whether a regular file exists at `path`, then call
    /// [`Resolver::after_cache_check`] with the answer.
    CheckCache { path: String },
    /// Report the status, perform the release lookup, identify the platform,
    /// then call [`Resolver::after_lookup`] with both.
    Refresh { notify: Status, lookup: LookupRequest },
}

/// What the host must do after checking the cached path.
pub enum CacheStep {
    /// The cached path still points at a file; resolution is complete with
    /// no lookup and no status report.
    Resolved { path: String },
    /// The cached path is dangling or there was none: report the status,
    /// perform the release lookup, identify the platform, then call
    /// [`Resolver::after_lookup`] with both.
    Refresh { notify: Status, lookup: LookupRequest },
}

/// The data one install works with: the install directory of the release
/// version, the binary path inside it, and where the archive comes from.
pub struct InstallRequest {
    pub version_dir: String,
    pub binary_path: String,
    pub download_url: String,
}

/// What the host must do after the release lookup.
pub enum LookupStep {
    /// The lookup failed or no asset matches the platform; resolution is
    /// over.
    Failed { error: ResolveError },
    /// Check whether a regular file exists at `install.binary_path`, then
    /// call [`Resolver::after_install_check`] with the answer.
    CheckInstalled { install: InstallRequest },
}

/// What the host must do after checking for an existing install.
pub enum InstallStep {
    /// The binary of this version is already on disk; resolution is complete
    /// with no download, no extraction and no pruning.
    Resolved { path: String },
    /// Report the status, fetch the archive at `url` into the directory
    /// `dest` and unpack it there, then call [`Resolver::after_download`]
    /// with the result.
    Download { notify: Status, url: String, dest: String },
}

/// What the host must do after the download.
pub enum DownloadStep {
    /// The download or extraction failed; resolution is over.
    Failed { error: ResolveError },
    /// Mark the file at `path` executable, then call
    /// [`Resolver::after_make_executable`] with the result.
    MakeExecutable { path: String },
}

/// What the host must do after marking the binary executable.
pub enum ChmodStep {
    /// The binary could not be marked executable; resolution is over.
    Failed { error: ResolveError },
    /// Enumerate the entries of the install root, then call
    /// [`Resolver::after_list`] with the listing.
    ListInstallRoot,
}

/// The close of a fresh install: the host removes the named entries of the
/// listing — ignoring removal errors, they must never block the new install
/// — and then takes the outcome as the result of the resolution.
pub struct CleanupStep {
    pub remove: Vec<usize>,
    pub outcome: Result<String, ResolveError>,
}

/// The orchestrator of a resolution. One instance lives as long as the
/// hosting process; its only state is the best-effort memo of the last
/// resolved path.
pub struct Resolver {
    bin_path: Option<String>,
}

impl Resolver {
    /// The memoized path of the last successful resolution, if any.
    pub closed spec fn spec_cached(self) -> Option<String> {
        self.bin_path
    }

    /// A fresh resolver, with nothing resolved yet.
    pub fn new() -> (r: Resolver)
        ensures
            r.spec_cached() is None,
    {
        Resolver { bin_path: None }
    }

    /// Opens a resolution. With a memoized path the host only re-checks that
    /// the file still exists — no status report, no lookup; without one the
    /// resolution goes straight to the release lookup.
    pub fn begin(&self) -> (step: BeginStep)
        ensures
            match self.spec_cached() {
                Some(p) => step matches BeginStep::CheckCache { path } && path == p,
                None => step matches BeginStep::Refresh { notify, lookup } && notify
                    == Status::CheckingForUpdate && spec_fresh_lookup(lookup),
            },
    {
        match &self.bin_path {
            Some(p) => BeginStep::CheckCache { path: p.clone() },
            None => BeginStep::Refresh {
                notify: Status::CheckingForUpdate,
                lookup: lookup_request(),
            },
        }
    }

    /// Takes the host's answer on the memoized path. If the file is still
    /// there, the resolution is complete with that path; if it was deleted
    /// behind the resolver's back, the memo is not trusted and a full lookup
    /// runs instead.
    pub fn after_cache_check(&self, path: String, present: bool) -> (step: CacheStep)
        ensures
            present ==> (step matches CacheStep::Resolved { path: p } && p == path),
            !present ==> (step matches CacheStep::Refresh { notify, lookup } && notify
                == Status::CheckingForUpdate && spec_fresh_lookup(lookup)),
    {
        if present {
            CacheStep::Resolved { path }
        } else {
            CacheStep::Refresh { notify: Status::CheckingForUpdate, lookup: lookup_request() }
        }
    }

    /// Takes the release the lookup produced and the platform the host runs
    /// on. A failed lookup fails the resolution with its cause; otherwise
    /// the asset for the platform is selected and the install paths of the
    /// release version are derived, or, when no asset matches, the
    /// resolution fails naming the file it expected.
    pub fn after_lookup(&self, looked_up: Result<ReleaseInfo, String>, os: Os) -> (step: LookupStep)
        ensures
            match looked_up {
                Err(e) => step matches LookupStep::Failed { error } && error
                    == ResolveError::Lookup(e),
                Ok(release) => {
                    let token = spec_identify(os);
                    let file = spec_expected_file(token);
                    if exists|i: int| spec_first_match(release.assets@, file, i) {
                        &&& step matches LookupStep::CheckInstalled { install }
                        &&& install.version_dir@ == spec_version_dir(release.version@)
                        &&& install.binary_path@ == spec_binary_path(release.version@, token)
                        &&& exists|i: int|
                            #[trigger] spec_first_match(release.assets@, file, i)
                                && install.download_url == release.assets@[i].download_url
                    } else {
                        step matches LookupStep::Failed { error } && error
                            matches ResolveError::AssetNotFound(f) && f@ == file
                    }
                },
            },
    {
        match looked_up {
            Err(e) => LookupStep::Failed { error: ResolveError::Lookup(e) },
            Ok(release) => {
                let token = identify(os);
                match select(&release.assets, token) {
                    Err(error) => LookupStep::Failed { error },
                    Ok(i) => {
                        let dir = version_dir(&release.version);
                        let bin = binary_path(&release.version, token);
                        let url = release.assets[i].download_url.clone();
                        LookupStep::CheckInstalled {
                            install: InstallRequest {
                                version_dir: dir,
                                binary_path: bin,
                                download_url: url,
                            },
                        }
                    },
                }
            },
        }
    }

    /// Takes the host's answer on the binary path of the selected release.
    /// If the binary is already a file on disk, the install is reused as it
    /// stands: the path is memoized and returned, and no download, no
    /// extraction and no pruning happen. Otherwise the download is ordered
    /// and the resolver is left unchanged until the install completes.
    pub fn after_install_check(&mut self, install: &InstallRequest, present: bool) -> (step:
        InstallStep)
        ensures
            present ==> {
                &&& step matches InstallStep::Resolved { path } && path == install.binary_path
                &&& final(self).spec_cached() == Some(install.binary_path)
            },
            !present ==> {
                &&& step matches InstallStep::Download { notify, url, dest } && notify
                    == Status::Downloading && url == install.download_url && dest
                    == install.version_dir
                &&& *final(self) == *old(self)
            },
    {
        if present {
            self.bin_path = Some(install.binary_path.clone());
            InstallStep::Resolved { path: install.binary_path.clone() }
        } else {
            InstallStep::Download {
                notify: Status::Downloading,
                url: install.download_url.clone(),
                dest: install.version_dir.clone(),
            }
        }
    }

    /// Takes the result of the download. A failure is fatal for this
    /// resolution and is reported with its cause; on success the fresh
    /// binary is to be marked executable.
    pub fn after_download(&self, install: &InstallRequest, fetched: Result<(), String>) -> (step:
        DownloadStep)
        ensures
            match fetched {
                Err(e) => step matches DownloadStep::Failed { error } && error
                    == ResolveError::Fetch(e),
                Ok(u) => step matches DownloadStep::MakeExecutable { path } && path
                    == install.binary_path,
            },
    {
        match fetched {
            Err(e) => DownloadStep::Failed { error: ResolveError::Fetch(e) },
            Ok(()) => DownloadStep::MakeExecutable { path: install.binary_path.clone() },
        }
    }

    /// Takes the result of marking the binary executable. A failure is fatal
    /// and reported with its cause; on success the install root is to be
    /// enumerated so stale installs can be pruned.
    pub fn after_make_executable(&self, fetched: Result<(), String>) -> (step: ChmodStep)
        ensures
            match fetched {
                Err(e) => step matches ChmodStep::Failed { error } && error
                    == ResolveError::Permission(e),
                Ok(u) => step is ListInstallRoot,
            },
    {
        match fetched {
            Err(e) => ChmodStep::Failed { error: ResolveError::Permission(e) },
            Ok(()) => ChmodStep::ListInstallRoot,
        }
    }

    /// Closes the install with the listing of the install root. Every stale
    /// entry read before the first unreadable one is ordered removed — the
    /// entry named exactly like the current install directory is kept. If
    /// the root could not be listed, or an entry could not be read, the
    /// resolution fails (removals ordered up to that entry still stand) and
    /// the memo is left untouched; otherwise the fresh path is memoized and
    /// returned.
    pub fn after_list(&mut self, install: &InstallRequest, listing: Result<Vec<ListingEntry>, String>) -> (step: CleanupStep)
        ensures
            listing matches Err(e) ==> {
                &&& step.remove@.len() == 0
                &&& step.outcome matches Err(error) && error == ResolveError::ListDir(e)
                &&& *final(self) == *old(self)
            },
            listing matches Ok(entries) ==> {
                &&& spec_no_failure(entries@) ==> {
                    &&& spec_cleanup_decision(
                        entries@,
                        install.version_dir@,
                        step.remove@,
                        entries@.len() as int,
                    )
                    &&& step.outcome matches Ok(p) && p == install.binary_path
                    &&& final(self).spec_cached() == Some(install.binary_path)
                }
                &&& forall|k: int|
                    #[trigger] spec_first_failure_at(entries@, k) ==> {
                        &&& spec_cleanup_decision(
                            entries@,
                            install.version_dir@,
                            step.remove@,
                            k,
                        )
                        &&& step.outcome matches Err(error) && error
                            matches ResolveError::DirEntry(m) && (entries@[k]
                            matches ListingEntry::Failed(cause) && m == cause)
                        &&& *final(self) == *old(self)
                    }
            },
    {
        match listing {
            Err(e) => CleanupStep { remove: Vec::new(), outcome: Err(ResolveError::ListDir(e)) },
            Ok(entries) => {
                let decision: CleanupDecision = cleanup_targets(&entries, &install.version_dir);
                match decision.failure {
                    Some(f) => {
                        proof {
                            assert forall|k: int| spec_first_failure_at(entries@, k) implies k
                                == f.index as int by {
                                if k < f.index as int {
                                    assert(entries@[k] is Failed);
                                } else if k > f.index as int {
                                    assert(entries@[f.index as int] is Failed);
                                }
                            };
                        }
                        CleanupStep {
                            remove: decision.remove,
                            outcome: Err(ResolveError::DirEntry(f.message)),
                        }
                    },
                    None => {
                        self.bin_path = Some(install.binary_path.clone());
                        CleanupStep {
                            remove: decision.remove,
                            outcome: Ok(install.binary_path.clone()),
                        }
                    },
                }
            },
        }
    }
}

} // verus!
