//! The on-disk install layout and the pruning of stale installs.
//!
//! An install lives in a directory named deterministically from the release
//! version; the directory name is the cache key. The binary sits in a
//! platform-named subdirectory of it. After a fresh install every sibling of
//! the current install directory is pruned, best effort.

use vstd::prelude::*;

verus! {

/// The prefix every install directory name carries before the version.
pub open spec fn spec_dir_prefix() -> Seq<char> {
    "c3-language-server-"@
}

/// The file name of the server binary inside an install.
pub open spec fn spec_binary_name() -> Seq<char> {
    "c3_language_server_wrapper"@
}

/// The install directory name for a release version. The name is the cache
/// key: its presence on disk is what marks the version as installed.
pub open spec fn spec_version_dir(version: Seq<char>) -> Seq<char> {
    spec_dir_prefix() + version
}

/// Builds the install directory name for a release version.
pub fn version_dir(version: &String) -> (s: String)
    ensures
        s@ == spec_version_dir(version@),
{
    let mut s = "c3-language-server-".to_owned();
    s.append(version.as_str());
    s
}

/// The path of the server binary inside the install of a version, for a
/// platform: `<install dir>/<platform token>/<binary name>`.
pub open spec fn spec_binary_path(version: Seq<char>, token: crate::platform::PlatformToken) -> Seq<
    char,
> {
    spec_version_dir(version) + "/"@ + token.spec_str() + "/"@ + spec_binary_name()
}

/// Builds the path of the server binary for a version and platform.
pub fn binary_path(version: &String, token: crate::platform::PlatformToken) -> (s: String)
    ensures
        s@ == spec_binary_path(version@, token),
{
    let mut s = version_dir(version);
    s.append("/");
    let t = token.to_text();
    s.append(t.as_str());
    s.append("/");
    s.append("c3_language_server_wrapper");
    s
}

/// Distinct release versions get distinct install directory names, and equal
/// versions equal ones: the directory name is a faithful cache key, so
/// pruning every sibling that does not carry the current name can never
/// confuse two versions.
pub proof fn lemma_version_dir_cache_key(v1: Seq<char>, v2: Seq<char>)
    ensures
        (spec_version_dir(v1) == spec_version_dir(v2)) <==> (v1 == v2),
{
    if spec_version_dir(v1) == spec_version_dir(v2) {
        assert(spec_version_dir(v1).len() == spec_version_dir(v2).len());
        assert(v1.len() == v2.len());
        assert(v1 =~= v2) by {
            assert forall|i: int| 0 <= i < v1.len() implies v1[i] == v2[i] by {
                assert(spec_version_dir(v1)[spec_dir_prefix().len() + i] == v1[i]);
                assert(spec_version_dir(v2)[spec_dir_prefix().len() + i] == v2[i]);
            }
        }
    }
}

/// The binary path of a version lies inside that version's install
/// directory: the directory name is a strict prefix of the path, followed by
/// the path separator. A resolution that finds the binary therefore finds it
/// inside the directory the pruning step keeps.
pub proof fn lemma_binary_path_in_version_dir(version: Seq<char>, token: crate::platform::PlatformToken)
    ensures
        spec_binary_path(version, token).len() > spec_version_dir(version).len(),
        spec_binary_path(version, token).subrange(
            0,
            spec_version_dir(version).len() as int,
        ) == spec_version_dir(version),
        spec_binary_path(version, token)[spec_version_dir(version).len() as int] == '/',
{
    reveal_strlit("/");
    let vd = spec_version_dir(version);
    let bp = spec_binary_path(version, token);
    assert(bp.subrange(0, vd.len() as int) =~= vd);
    assert(bp[vd.len() as int] == "/"@[0]);
}

/// Pruning beside the install of `current` spares exactly that install: an
/// entry named for the current version is never stale, while one named for
/// any other version always is — so after a successful install of `current`
/// every sibling install directory is removed and the current one remains.
pub proof fn lemma_prune_spares_only_current(e: ListingEntry, current: Seq<char>, other: Seq<char>)
    requires
        other != current,
    ensures
        (e matches ListingEntry::Named(n) && n@ == spec_version_dir(current)) ==> !spec_stale(
            e,
            spec_version_dir(current),
        ),
        (e matches ListingEntry::Named(n) && n@ == spec_version_dir(other)) ==> spec_stale(
            e,
            spec_version_dir(current),
        ),
{
    lemma_version_dir_cache_key(current, other);
}

/// One entry of the install root as the host enumerated it.
pub enum ListingEntry {
    /// An entry carrying this name.
    Named(String),
    /// An entry whose name could not be represented as text; such an entry
    /// can never equal the current install directory name.
    Unnamed,
    /// The entry could not be read; the host's description is attached.
    Failed(String),
}

/// Whether an entry of the install root is stale beside the install
/// directory named `keep`: every entry but one carrying exactly that name.
pub open spec fn spec_stale(e: ListingEntry, keep: Seq<char>) -> bool {
    !(e matches ListingEntry::Named(n) && n@ == keep)
}

/// The first entry of the listing that could not be read.
pub struct FailedEntry {
    /// Its position in the listing.
    pub index: usize,
    /// The host's description of the failure.
    pub message: String,
}

/// Which entries of the install root to prune. The removals are positions in
/// the listing, in increasing order; removal errors are to be ignored by the
/// host, since failing to clean up must never block the fresh install.
pub struct CleanupDecision {
    pub remove: Vec<usize>,
    /// Set when enumeration broke off at an unreadable entry; removals then
    /// cover only the entries read before it.
    pub failure: Option<FailedEntry>,
}

/// The removals classify every scanned entry: a position below `scanned` is
/// removed exactly when its entry is stale, removals come in increasing
/// order, and none lies beyond the scanned part.
pub open spec fn spec_cleanup_decision(
    entries: Seq<ListingEntry>,
    keep: Seq<char>,
    remove: Seq<usize>,
    scanned: int,
) -> bool {
    &&& forall|j: int|
        0 <= j < scanned ==> (remove.contains(j as usize) <==> spec_stale(entries[j], keep))
    &&& forall|a: int, b: int| 0 <= a < b < remove.len() ==> remove[a] < remove[b]
    &&& forall|a: int| 0 <= a < remove.len() ==> (remove[a] as int) < scanned
}

/// Whether position `k` holds the first unreadable entry of the listing.
pub open spec fn spec_first_failure_at(entries: Seq<ListingEntry>, k: int) -> bool {
    &&& 0 <= k < entries.len()
    &&& entries[k] is Failed
    &&& forall|l: int| 0 <= l < k ==> !(entries[l] is Failed)
}

/// Whether every entry of the listing was readable.
pub open spec fn spec_no_failure(entries: Seq<ListingEntry>) -> bool {
    forall|l: int| 0 <= l < entries.len() ==> !(entries[l] is Failed)
}

/// Appending a position beyond every recorded one extends the membership of
/// the removal list by exactly that position.
proof fn lemma_remove_push(prev: Seq<usize>, i: usize)
    requires
        forall|a: int| 0 <= a < prev.len() ==> (prev[a] as int) < i,
    ensures
        forall|j: usize| #[trigger] prev.push(i).contains(j) <==> (prev.contains(j) || j == i),
{
    assert forall|j: usize| #[trigger] prev.push(i).contains(j) implies (prev.contains(j) || j
        == i) by {
        let k = choose|k: int| 0 <= k < prev.push(i).len() && prev.push(i)[k] == j;
        if k < prev.len() {
            assert(prev[k] == j);
        }
    };
    assert forall|j: usize| (prev.contains(j) || j == i) implies #[trigger] prev.push(i).contains(
        j,
    ) by {
        if prev.contains(j) {
            let k = choose|k: int| 0 <= k < prev.len() && prev[k] == j;
            assert(prev.push(i)[k] == j);
        } else {
            assert(prev.push(i)[prev.len() as int] == i);
        }
    };
}

/// Decides which entries of the install root to prune beside the install
/// directory named `keep`: every stale entry read before the first
/// unreadable one, each at most once, in listing order.
pub fn cleanup_targets(entries: &Vec<ListingEntry>, keep: &String) -> (d: CleanupDecision)
    ensures
        match d.failure {
            Some(f) => {
                &&& spec_first_failure_at(entries@, f.index as int)
                &&& entries@[f.index as int] matches ListingEntry::Failed(m) && f.message == m
                &&& spec_cleanup_decision(entries@, keep@, d.remove@, f.index as int)
            },
            None => {
                &&& spec_no_failure(entries@)
                &&& spec_cleanup_decision(entries@, keep@, d.remove@, entries@.len() as int)
            },
        },
{
    let mut remove: Vec<usize> = Vec::new();
    let mut i: usize = 0;
    while i < entries.len()
        invariant
            i <= entries.len(),
            forall|l: int| 0 <= l < i ==> !(entries@[l] is Failed),
            forall|j: int|
                0 <= j < i ==> (remove@.contains(j as usize) <==> spec_stale(entries@[j], keep@)),
            forall|a: int, b: int| 0 <= a < b < remove@.len() ==> remove@[a] < remove@[b],
            forall|a: int| 0 <= a < remove@.len() ==> (remove@[a] as int) < i,
        decreases entries.len() - i,
    {
        match &entries[i] {
            ListingEntry::Failed(m) => {
                return CleanupDecision {
                    remove,
                    failure: Some(FailedEntry { index: i, message: m.clone() }),
                };
            },
            ListingEntry::Named(n) => {
                if !n.eq(keep) {
                    let ghost prev = remove@;
                    remove.push(i);
                    proof {
                        lemma_remove_push(prev, i);
                    }
                }
            },
            ListingEntry::Unnamed => {
                let ghost prev = remove@;
                remove.push(i);
                proof {
                    lemma_remove_push(prev, i);
                }
            },
        }
        i = i + 1;
    }
    CleanupDecision { remove, failure: None }
}

} // verus!
