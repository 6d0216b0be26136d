//! Asset selection: deriving the expected asset file name from the platform
//! token and picking the single matching asset of a release.

use vstd::prelude::*;
use crate::error::ResolveError;
use crate::platform::PlatformToken;
use crate::release::AssetInfo;

verus! {

/// The asset file name expected for a platform: the token with the archive
/// suffix appended.
pub open spec fn spec_expected_file(token: PlatformToken) -> Seq<char> {
    token.spec_str() + ".zip"@
}

/// Builds the expected asset file name for a platform token.
pub fn expected_asset_file(token: PlatformToken) -> (s: String)
    ensures
        s@ == spec_expected_file(token),
{
    let mut s = token.to_text();
    s.append(".zip");
    s
}

/// Whether index `i` holds the first asset of the sequence named `file`.
pub open spec fn spec_first_match(assets: Seq<AssetInfo>, file: Seq<char>, i: int) -> bool {
    &&& 0 <= i < assets.len()
    &&& assets[i].name@ == file
    &&& forall|j: int| 0 <= j < i ==> assets[j].name@ != file
}

/// Picks the asset published for the given platform: the first asset whose
/// name equals the expected platform file name, exactly; if duplicates exist
/// the first wins, and if none matches the selection fails with
/// `AssetNotFound` carrying the expected name.
pub fn select(assets: &Vec<AssetInfo>, token: PlatformToken) -> (r: Result<usize, ResolveError>)
    ensures
        match r {
            Ok(i) => spec_first_match(assets@, spec_expected_file(token), i as int),
            Err(e) => {
                &&& forall|j: int|
                    0 <= j < assets@.len() ==> assets@[j].name@ != spec_expected_file(token)
                &&& e matches ResolveError::AssetNotFound(f) && f@ == spec_expected_file(token)
            },
        },
{
    let expected = expected_asset_file(token);
    let mut i: usize = 0;
    while i < assets.len()
        invariant
            i <= assets.len(),
            expected@ == spec_expected_file(token),
            forall|j: int| 0 <= j < i ==> assets@[j].name@ != spec_expected_file(token),
        decreases assets.len() - i,
    {
        if assets[i].name == expected {
            return Ok(i);
        }
        i = i + 1;
    }
    Err(ResolveError::AssetNotFound(expected))
}

} // verus!
