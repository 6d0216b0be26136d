//! The ways a resolution attempt can fail, and the message each failure
//! carries to the host's user.

use vstd::prelude::*;

verus! {

/// Why a resolution attempt failed.
///
/// Every variant aborts the current resolution; none is retried here.
/// Pruning stale installs has no variant of its own: removal errors are
/// deliberately ignored and never block returning the resolved path.
#[derive(Debug)]
pub enum ResolveError {
    /// The release index was unreachable or malformed, or no qualifying
    /// release exists; the underlying cause is attached.
    Lookup(String),
    /// No release asset carries the expected platform file name; the name is
    /// attached for diagnosability.
    AssetNotFound(String),
    /// The archive download or its extraction failed.
    Fetch(String),
    /// The extracted binary could not be marked executable.
    Permission(String),
    /// The install root could not be enumerated before pruning.
    ListDir(String),
    /// An entry of the install root could not be read while pruning.
    DirEntry(String),
}

impl ResolveError {
    /// The characters of the message the host reports for this failure.
    pub open spec fn spec_message(self) -> Seq<char> {
        match self {
            ResolveError::Lookup(e) => e@,
            ResolveError::AssetNotFound(f) => "no asset found matching \""@ + f@ + "\""@,
            ResolveError::Fetch(e) => "failed to download file: "@ + e@,
            ResolveError::Permission(e) => e@,
            ResolveError::ListDir(e) => "failed to list working directory "@ + e@,
            ResolveError::DirEntry(e) => "failed to load directory entry "@ + e@,
        }
    }

    /// Renders the failure as the message surfaced to the host's user.
    pub fn message(&self) -> (m: String)
        ensures
            m@ == self.spec_message(),
    {
        match self {
            ResolveError::Lookup(e) => e.clone(),
            ResolveError::AssetNotFound(f) => {
                let mut m = "no asset found matching \"".to_owned();
                m.append(f.as_str());
                m.append("\"");
                m
            }
            ResolveError::Fetch(e) => {
                let mut m = "failed to download file: ".to_owned();
                m.append(e.as_str());
                m
            }
            ResolveError::Permission(e) => e.clone(),
            ResolveError::ListDir(e) => {
                let mut m = "failed to list working directory ".to_owned();
                m.append(e.as_str());
                m
            }
            ResolveError::DirEntry(e) => {
                let mut m = "failed to load directory entry ".to_owned();
                m.append(e.as_str());
                m
            }
        }
    }
}

} // verus!
