//! Driving the resolution state machine as a host would.

use c3_resolver::error::ResolveError;
use c3_resolver::install::ListingEntry;
use c3_resolver::platform::Os;
use c3_resolver::release::AssetInfo;
use c3_resolver::release::ReleaseInfo;
use c3_resolver::resolver::BeginStep;
use c3_resolver::resolver::CacheStep;
use c3_resolver::resolver::ChmodStep;
use c3_resolver::resolver::DownloadStep;
use c3_resolver::resolver::InstallRequest;
use c3_resolver::resolver::InstallStep;
use c3_resolver::resolver::LookupStep;
use c3_resolver::resolver::Resolver;
use c3_resolver::resolver::Status;

fn sample_release() -> ReleaseInfo {
    ReleaseInfo {
        version: "1.2.0".to_string(),
        assets: vec![
            AssetInfo {
                name: "linux-amd64-c3lsp.zip".to_string(),
                download_url: "https://example.test/linux.zip".to_string(),
            },
            AssetInfo {
                name: "darwin-amd64-c3lsp.zip".to_string(),
                download_url: "https://example.test/darwin.zip".to_string(),
            },
        ],
    }
}

/// Drives one full cache-miss resolution and hands back the install data.
fn resolve_fresh(r: &mut Resolver, listing: Vec<ListingEntry>) -> (InstallRequest, Vec<usize>, String) {
    let lookup = match r.begin() {
        BeginStep::Refresh { notify, lookup } => {
            assert_eq!(notify, Status::CheckingForUpdate);
            lookup
        }
        BeginStep::CheckCache { .. } => panic!("a fresh resolver has nothing cached"),
    };
    assert_eq!(lookup.repository, "pherrymason/c3-lsp");
    assert!(lookup.require_assets);
    assert!(!lookup.pre_release);

    let install = match r.after_lookup(Ok(sample_release()), Os::Linux) {
        LookupStep::CheckInstalled { install } => install,
        LookupStep::Failed { error } => panic!("lookup must succeed: {:?}", error),
    };

    let (url, dest) = match r.after_install_check(&install, false) {
        InstallStep::Download { notify, url, dest } => {
            assert_eq!(notify, Status::Downloading);
            (url, dest)
        }
        InstallStep::Resolved { .. } => panic!("nothing is installed yet"),
    };
    assert_eq!(url, install.download_url);
    assert_eq!(dest, install.version_dir);

    let chmod_path = match r.after_download(&install, Ok(())) {
        DownloadStep::MakeExecutable { path } => path,
        DownloadStep::Failed { error } => panic!("download reported ok: {:?}", error),
    };
    assert_eq!(chmod_path, install.binary_path);

    match r.after_make_executable(Ok(())) {
        ChmodStep::ListInstallRoot => {}
        ChmodStep::Failed { error } => panic!("chmod reported ok: {:?}", error),
    }

    let step = r.after_list(&install, Ok(listing));
    let path = step.outcome.expect("a clean listing closes the install");
    (install, step.remove, path)
}

#[test]
fn fresh_resolution_installs_and_returns_the_binary_path() {
    let mut r = Resolver::new();
    let (install, remove, path) = resolve_fresh(&mut r, Vec::new());
    assert_eq!(install.version_dir, "c3-language-server-1.2.0");
    assert_eq!(
        install.binary_path,
        "c3-language-server-1.2.0/linux-amd64-c3lsp/c3_language_server_wrapper"
    );
    assert_eq!(install.download_url, "https://example.test/linux.zip");
    assert_eq!(path, install.binary_path);
    assert!(remove.is_empty());
}

#[test]
fn install_prunes_the_superseded_version_and_keeps_the_new_one() {
    let mut r = Resolver::new();
    let listing = vec![
        ListingEntry::Named("c3-language-server-1.1.0".to_string()),
        ListingEntry::Named("c3-language-server-1.2.0".to_string()),
    ];
    let (_, remove, _) = resolve_fresh(&mut r, listing);
    assert_eq!(remove, vec![0]);
}

#[test]
fn second_resolution_short_circuits_on_the_cached_path() {
    let mut r = Resolver::new();
    let (_, _, path) = resolve_fresh(&mut r, Vec::new());

    // The second resolution asks for one file check and nothing else: no
    // status report, no release lookup.
    let cached = match r.begin() {
        BeginStep::CheckCache { path: cached } => cached,
        BeginStep::Refresh { .. } => panic!("the resolved path must be memoized"),
    };
    assert_eq!(cached, path);
    match r.after_cache_check(cached, true) {
        CacheStep::Resolved { path: p } => assert_eq!(p, path),
        CacheStep::Refresh { .. } => panic!("an existing file must be reused"),
    }
}

#[test]
fn deleted_cached_file_forces_a_full_lookup() {
    let mut r = Resolver::new();
    let (_, _, path) = resolve_fresh(&mut r, Vec::new());

    let cached = match r.begin() {
        BeginStep::CheckCache { path: cached } => cached,
        BeginStep::Refresh { .. } => panic!("the resolved path must be memoized"),
    };
    // The file disappeared behind the resolver's back: the dangling path is
    // not returned; a full lookup runs instead.
    match r.after_cache_check(cached, false) {
        CacheStep::Refresh { notify, lookup } => {
            assert_eq!(notify, Status::CheckingForUpdate);
            assert_eq!(lookup.repository, "pherrymason/c3-lsp");
        }
        CacheStep::Resolved { path } => panic!("returned a dangling path: {}", path),
    }
}

#[test]
fn reinstalling_the_same_version_downloads_nothing() {
    let mut first = Resolver::new();
    let (install, _, path) = resolve_fresh(&mut first, Vec::new());

    // A later process resolves the same release: the binary file is already
    // on disk, so the install check alone completes the resolution.
    let mut second = Resolver::new();
    let again = match second.after_lookup(Ok(sample_release()), Os::Linux) {
        LookupStep::CheckInstalled { install } => install,
        LookupStep::Failed { error } => panic!("lookup must succeed: {:?}", error),
    };
    assert_eq!(again.binary_path, install.binary_path);
    match second.after_install_check(&again, true) {
        InstallStep::Resolved { path: p } => assert_eq!(p, path),
        InstallStep::Download { .. } => panic!("the existing install must be reused"),
    }
    // The reused path is memoized like a fresh one.
    match second.begin() {
        BeginStep::CheckCache { path: p } => assert_eq!(p, path),
        BeginStep::Refresh { .. } => panic!("the reused path must be memoized"),
    }
}

#[test]
fn failed_lookup_surfaces_its_cause() {
    let r = Resolver::new();
    let step = r.after_lookup(Err("network unreachable".to_string()), Os::Linux);
    match step {
        LookupStep::Failed { error } => {
            assert!(matches!(error, ResolveError::Lookup(_)));
            assert_eq!(error.message(), "network unreachable");
        }
        LookupStep::CheckInstalled { .. } => panic!("a failed lookup cannot continue"),
    }
}

#[test]
fn missing_asset_fails_with_the_expected_name() {
    let r = Resolver::new();
    let step = r.after_lookup(Ok(sample_release()), Os::Windows);
    match step {
        LookupStep::Failed { error } => {
            assert_eq!(error.message(), "no asset found matching \"windows-amd64.zip\"");
        }
        LookupStep::CheckInstalled { .. } => panic!("no windows asset exists in the release"),
    }
}

#[test]
fn failed_download_is_fatal_with_its_cause() {
    let r = Resolver::new();
    let install = InstallRequest {
        version_dir: "c3-language-server-1.2.0".to_string(),
        binary_path: "c3-language-server-1.2.0/linux-amd64-c3lsp/c3_language_server_wrapper"
            .to_string(),
        download_url: "https://example.test/linux.zip".to_string(),
    };
    let step = r.after_download(&install, Err("connection reset".to_string()));
    match step {
        DownloadStep::Failed { error } => {
            assert!(matches!(error, ResolveError::Fetch(_)));
            assert_eq!(error.message(), "failed to download file: connection reset");
        }
        DownloadStep::MakeExecutable { .. } => panic!("a failed download cannot continue"),
    }
}

#[test]
fn failed_chmod_is_fatal_with_its_cause() {
    let r = Resolver::new();
    let step = r.after_make_executable(Err("operation not permitted".to_string()));
    match step {
        ChmodStep::Failed { error } => {
            assert!(matches!(error, ResolveError::Permission(_)));
            assert_eq!(error.message(), "operation not permitted");
        }
        ChmodStep::ListInstallRoot => panic!("a failed chmod cannot continue"),
    }
}

#[test]
fn unlistable_install_root_fails_and_leaves_no_memo() {
    let mut r = Resolver::new();
    let install = InstallRequest {
        version_dir: "c3-language-server-1.2.0".to_string(),
        binary_path: "c3-language-server-1.2.0/linux-amd64-c3lsp/c3_language_server_wrapper"
            .to_string(),
        download_url: "https://example.test/linux.zip".to_string(),
    };
    let step = r.after_list(&install, Err("permission denied".to_string()));
    assert!(step.remove.is_empty());
    let error = step.outcome.unwrap_err();
    assert!(matches!(error, ResolveError::ListDir(_)));
    assert_eq!(error.message(), "failed to list working directory permission denied");
    // Nothing was memoized: the next resolution starts from the lookup.
    assert!(matches!(r.begin(), BeginStep::Refresh { .. }));
}

#[test]
fn unreadable_entry_fails_after_the_earlier_removals() {
    let mut r = Resolver::new();
    let install = InstallRequest {
        version_dir: "c3-language-server-1.2.0".to_string(),
        binary_path: "c3-language-server-1.2.0/linux-amd64-c3lsp/c3_language_server_wrapper"
            .to_string(),
        download_url: "https://example.test/linux.zip".to_string(),
    };
    let listing = vec![
        ListingEntry::Named("c3-language-server-1.1.0".to_string()),
        ListingEntry::Failed("stale handle".to_string()),
    ];
    let step = r.after_list(&install, Ok(listing));
    assert_eq!(step.remove, vec![0]);
    let error = step.outcome.unwrap_err();
    assert!(matches!(error, ResolveError::DirEntry(_)));
    assert_eq!(error.message(), "failed to load directory entry stale handle");
    assert!(matches!(r.begin(), BeginStep::Refresh { .. }));
}

#[test]
fn launch_descriptor_carries_only_the_resolved_path() {
    let d = c3_resolver::launch::launch_descriptor(
        "c3-language-server-1.2.0/linux-amd64-c3lsp/c3_language_server_wrapper".to_string(),
    );
    assert_eq!(
        d.command,
        "c3-language-server-1.2.0/linux-amd64-c3lsp/c3_language_server_wrapper"
    );
    assert!(d.args.is_empty());
    assert!(d.env.is_empty());
}
