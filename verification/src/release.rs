//! The shape of a published release and the fixed query under which the host
//! looks the latest one up.

use vstd::prelude::*;

verus! {

/// One downloadable file within a release, published for a single platform.
pub struct AssetInfo {
    /// The file name of the asset.
    pub name: String,
    /// Where the asset can be fetched from.
    pub download_url: String,
}

/// The single most recent published release: its version and its assets,
/// in published order.
pub struct ReleaseInfo {
    pub version: String,
    pub assets: Vec<AssetInfo>,
}

/// The query the host performs against the release index.
pub struct LookupRequest {
    /// The repository whose releases are consulted.
    pub repository: String,
    /// Only releases that carry at least one downloadable asset qualify.
    pub require_assets: bool,
    /// Whether pre-releases qualify.
    pub pre_release: bool,
}

/// The repository the language server is released from.
pub open spec fn spec_repository() -> Seq<char> {
    "pherrymason/c3-lsp"@
}

/// A well-formed lookup: the fixed upstream repository, only releases with
/// assets, pre-releases excluded.
pub open spec fn spec_fresh_lookup(q: LookupRequest) -> bool {
    &&& q.repository@ == spec_repository()
    &&& q.require_assets
    &&& !q.pre_release
}

/// The one release query this resolver ever issues.
pub fn lookup_request() -> (q: LookupRequest)
    ensures
        spec_fresh_lookup(q),
{
    LookupRequest {
        repository: "pherrymason/c3-lsp".to_owned(),
        require_assets: true,
        pre_release: false,
    }
}

} // verus!
