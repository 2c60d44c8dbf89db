use frida_manager::asset::{Asset, Release};
use frida_manager::cache::CacheListing;
use frida_manager::download::DownloadError;
use frida_manager::batch::{plan, Outcome, Step, Tally, Task};
use frida_manager::fetch::{
    fetch, resolved, FetchAction, FetchError, FetchEvent, FetchReport, FetchState, FilesystemError,
};
use frida_manager::upstream::{AssetField, UpstreamError};

fn asset(name: &str) -> Asset {
    Asset {
        name: name.to_string(),
        content_type: "application/x-xz".to_string(),
        download_url: format!("https://example.org/{}", name),
    }
}

fn listing(names: &[&str]) -> CacheListing {
    CacheListing::from_names(names.iter().map(|n| n.to_string()).collect())
}

fn task(name: &str, step: Step) -> Task {
    Task { asset: asset(name), step }
}

fn abort(error: FetchError) -> (FetchState, FetchAction) {
    (FetchState::Done, FetchAction::Abort { error })
}

const BODY: &[u8] = br#"{"tag_name": "16.0.0", "assets": [
    {"name": "frida-server-16.0.0-linux-x86.xz", "content_type": "application/x-xz",
     "browser_download_url": "https://example.org/frida-server-16.0.0-linux-x86.xz"},
    {"name": "other-tool-v1.0", "content_type": "application/x-xz",
     "browser_download_url": "https://example.org/other-tool-v1.0"},
    {"name": "frida-server-16.0.0-android-arm64.xz", "content_type": "application/x-xz",
     "browser_download_url": "https://example.org/frida-server-16.0.0-android-arm64.xz"},
    {"name": "frida-server-16.0.0-android-arm.xz", "content_type": "application/x-xz",
     "browser_download_url": "https://example.org/frida-server-16.0.0-android-arm.xz"}]}"#;

fn per_asset(names: &[&str], cached: &[&str]) -> FetchState {
    let l = listing(cached);
    let assets: Vec<Asset> = names.iter().map(|n| asset(n)).collect();
    let tasks = plan(&assets, &l);
    FetchState::PerAsset { version: "16.0.0".to_string(), tasks, listing: l }
}

fn report_of(step: (FetchState, FetchAction)) -> FetchReport {
    assert_eq!(step.0, FetchState::Done);
    match step.1 {
        FetchAction::Complete { report } => report,
        other => panic!("no report: {:?}", other),
    }
}

#[test]
fn a_fetch_of_the_latest_release_asks_the_latest_endpoint() {
    let start = FetchState::Start { root: "/home/u/.fridamanager".to_string() };
    let (next, action) = fetch(start, FetchEvent::Begin { version: None });
    assert_eq!(next, FetchState::ResolveRelease { root: "/home/u/.fridamanager".to_string() });
    assert_eq!(
        action,
        FetchAction::Get {
            url: "https://api.github.com/repos/frida/frida/releases/latest".to_string()
        }
    );
}

#[test]
fn a_fetch_of_a_version_asks_the_endpoint_of_its_tag() {
    let start = FetchState::Start { root: "root".to_string() };
    let (next, action) = fetch(start, FetchEvent::Begin { version: Some("15.2.2".to_string()) });
    assert_eq!(next, FetchState::ResolveRelease { root: "root".to_string() });
    assert_eq!(
        action,
        FetchAction::Get {
            url: "https://api.github.com/repos/frida/frida/releases/tags/15.2.2".to_string()
        }
    );
}

#[test]
fn a_resolved_release_is_filtered_and_its_directory_asked_for() {
    let state = FetchState::ResolveRelease { root: "/home/u/.fridamanager".to_string() };
    let (next, action) = fetch(state, FetchEvent::Answer { status: 200, body: BODY.to_vec() });
    assert_eq!(
        next,
        FetchState::CheckCache {
            version: "16.0.0".to_string(),
            assets: vec![
                asset("frida-server-16.0.0-linux-x86.xz"),
                asset("frida-server-16.0.0-android-arm64.xz"),
                asset("frida-server-16.0.0-android-arm.xz"),
            ],
        }
    );
    assert_eq!(
        action,
        FetchAction::OpenDirectory {
            version: "16.0.0".to_string(),
            path: "/home/u/.fridamanager/16.0.0".to_string(),
        }
    );
}

#[test]
fn a_release_that_cannot_be_resolved_ends_the_fetch() {
    let state = || FetchState::ResolveRelease { root: "root".to_string() };
    assert_eq!(
        fetch(state(), FetchEvent::Answer { status: 404, body: BODY.to_vec() }),
        abort(FetchError::Upstream(UpstreamError::Status(404)))
    );
    assert_eq!(
        fetch(state(), FetchEvent::Answer { status: 200, body: b"oops".to_vec() }),
        abort(FetchError::Upstream(UpstreamError::InvalidJson))
    );
    assert_eq!(
        fetch(state(), FetchEvent::Answer { status: 200, body: b"{\"tag_name\": \"1\"}".to_vec() }),
        abort(FetchError::Upstream(UpstreamError::MissingAssets))
    );
    assert_eq!(
        fetch(state(), FetchEvent::Answer { status: 200, body: b"{\"assets\": []}".to_vec() }),
        abort(FetchError::Upstream(UpstreamError::MissingTag))
    );
    assert_eq!(
        fetch(state(), FetchEvent::Answer { status: 200, body: b"{\"assets\": [{}]}".to_vec() }),
        abort(FetchError::Upstream(UpstreamError::MalformedAsset { index: 0, field: AssetField::Name }))
    );
    assert_eq!(
        fetch(state(), FetchEvent::NoAnswer),
        abort(FetchError::Upstream(UpstreamError::NoResponse))
    );
}

#[test]
fn a_version_that_would_leave_the_root_ends_the_fetch() {
    for tag in ["../../etc", "a/b", "", "..", "."] {
        let body = format!("{{\"tag_name\": \"{}\", \"assets\": []}}", tag);
        let state = FetchState::ResolveRelease { root: "root".to_string() };
        assert_eq!(
            fetch(state, FetchEvent::Answer { status: 200, body: body.into_bytes() }),
            abort(FetchError::Filesystem(FilesystemError::UnsafeVersion))
        );
    }
}

#[test]
fn resolved_goes_by_the_release_it_is_given() {
    let release = Release {
        version: "1.0".to_string(),
        assets: vec![asset("x"), asset("frida-server-1.0")],
    };
    let (next, action) = resolved("root", Ok(release));
    assert_eq!(
        next,
        FetchState::CheckCache { version: "1.0".to_string(), assets: vec![asset("frida-server-1.0")] }
    );
    assert_eq!(
        action,
        FetchAction::OpenDirectory { version: "1.0".to_string(), path: "root/1.0".to_string() }
    );
    assert_eq!(
        resolved("root", Err(UpstreamError::NoResponse)),
        abort(FetchError::Upstream(UpstreamError::NoResponse))
    );
}

#[test]
fn the_listing_decides_what_is_downloaded() {
    let state = FetchState::CheckCache {
        version: "16.0.0".to_string(),
        assets: vec![
            asset("frida-server-16.0.0-linux-x86.xz"),
            asset("frida-server-16.0.0-android-arm64.xz"),
        ],
    };
    let files = vec![
        "frida-server-16.0.0-android-arm64".to_string(),
        "notes.txt".to_string(),
        "notes.txt".to_string(),
    ];
    let (next, action) = fetch(state, FetchEvent::Directory { files });
    let tasks = || {
        vec![
            task("frida-server-16.0.0-linux-x86.xz", Step::Download),
            task("frida-server-16.0.0-android-arm64.xz", Step::Skip),
        ]
    };
    assert_eq!(
        next,
        FetchState::PerAsset {
            version: "16.0.0".to_string(),
            tasks: tasks(),
            listing: listing(&["frida-server-16.0.0-android-arm64", "notes.txt"]),
        }
    );
    assert_eq!(action, FetchAction::Run { tasks: tasks() });
}

#[test]
fn a_directory_that_cannot_be_had_ends_the_fetch() {
    let state = FetchState::CheckCache { version: "16.0.0".to_string(), assets: vec![asset("a")] };
    assert_eq!(
        fetch(state, FetchEvent::NoDirectory),
        abort(FetchError::Filesystem(FilesystemError::Unavailable))
    );
}

#[test]
fn one_failed_download_leaves_the_others_in_the_cache() {
    let state = per_asset(&["frida-server-a.xz", "frida-server-b.xz", "frida-server-c.xz"], &[]);
    let failures = vec![None, Some(DownloadError::Transport), None];
    let report = report_of(fetch(state, FetchEvent::Finished { failures }));
    assert_eq!(report.version, "16.0.0");
    assert_eq!(
        report.outcomes,
        vec![Outcome::Downloaded, Outcome::Failed(DownloadError::Transport), Outcome::Downloaded]
    );
    assert_eq!(report.listing.len(), 2);
    assert_eq!(report.listing, listing(&["frida-server-a", "frida-server-c"]));
    assert_eq!(report.tally(), Tally { cached: 0, downloaded: 2, failed: 1 });
}

#[test]
fn a_batch_in_which_every_download_failed_still_completes() {
    let state = per_asset(&["frida-server-a.xz", "frida-server-b.xz"], &["old"]);
    let failures = vec![Some(DownloadError::Decompression), Some(DownloadError::Filesystem)];
    let report = report_of(fetch(state, FetchEvent::Finished { failures }));
    assert_eq!(
        report.outcomes,
        vec![
            Outcome::Failed(DownloadError::Decompression),
            Outcome::Failed(DownloadError::Filesystem)
        ]
    );
    assert_eq!(report.listing, listing(&["old"]));
    assert_eq!(report.tally(), Tally { cached: 0, downloaded: 0, failed: 2 });
}

#[test]
fn an_asset_is_cached_after_its_download_and_not_before() {
    let a = asset("frida-server-a.xz");
    let b = asset("frida-server-b.xz");
    let before = listing(&["frida-server-b"]);
    assert!(!a.is_cached(&before));
    assert!(b.is_cached(&before));
    let state = per_asset(&["frida-server-a.xz", "frida-server-b.xz"], &["frida-server-b"]);
    let report = report_of(fetch(state, FetchEvent::Finished { failures: vec![None, None] }));
    assert_eq!(report.outcomes, vec![Outcome::Downloaded, Outcome::Cached]);
    assert!(a.is_cached(&report.listing));
    assert!(b.is_cached(&report.listing));
    assert_eq!(report.listing, listing(&["frida-server-b", "frida-server-a"]));
    assert_eq!(report.tally(), Tally { cached: 1, downloaded: 1, failed: 0 });
}

#[test]
fn what_is_reported_for_a_cached_asset_is_not_looked_at() {
    let state = per_asset(&["frida-server-a.xz"], &["frida-server-a"]);
    let failures = vec![Some(DownloadError::Transport)];
    let report = report_of(fetch(state, FetchEvent::Finished { failures }));
    assert_eq!(report.outcomes, vec![Outcome::Cached]);
    assert_eq!(report.listing, listing(&["frida-server-a"]));
}

#[test]
fn a_batch_of_no_tasks_completes() {
    let state = per_asset(&[], &["x"]);
    let report = report_of(fetch(state, FetchEvent::Finished { failures: Vec::new() }));
    assert_eq!(report.outcomes, Vec::<Outcome>::new());
    assert_eq!(report.listing, listing(&["x"]));
    assert_eq!(report.tally(), Tally { cached: 0, downloaded: 0, failed: 0 });
}

#[test]
fn two_tasks_that_write_one_file_leave_one_file() {
    let state = per_asset(&["frida-server-a.xz", "frida-server-a"], &[]);
    let report = report_of(fetch(state, FetchEvent::Finished { failures: vec![None, None] }));
    assert_eq!(report.outcomes, vec![Outcome::Downloaded, Outcome::Downloaded]);
    assert_eq!(report.listing.len(), 1);
}

#[test]
fn reports_that_do_not_fit_the_tasks_end_the_fetch() {
    let state = per_asset(&["frida-server-a.xz", "frida-server-b.xz"], &[]);
    assert_eq!(
        fetch(state, FetchEvent::Finished { failures: vec![None] }),
        abort(FetchError::Unexpected)
    );
    let state = per_asset(&[], &[]);
    assert_eq!(
        fetch(state, FetchEvent::Finished { failures: vec![None] }),
        abort(FetchError::Unexpected)
    );
}

#[test]
fn an_event_that_is_not_waited_for_ends_the_fetch() {
    let start = || FetchState::Start { root: "root".to_string() };
    assert_eq!(fetch(start(), FetchEvent::NoAnswer), abort(FetchError::Unexpected));
    assert_eq!(
        fetch(start(), FetchEvent::Directory { files: Vec::new() }),
        abort(FetchError::Unexpected)
    );
    let resolving = || FetchState::ResolveRelease { root: "root".to_string() };
    assert_eq!(
        fetch(resolving(), FetchEvent::Begin { version: None }),
        abort(FetchError::Unexpected)
    );
    assert_eq!(
        fetch(resolving(), FetchEvent::Finished { failures: Vec::new() }),
        abort(FetchError::Unexpected)
    );
    let checking = || FetchState::CheckCache { version: "1".to_string(), assets: Vec::new() };
    assert_eq!(
        fetch(checking(), FetchEvent::Answer { status: 200, body: BODY.to_vec() }),
        abort(FetchError::Unexpected)
    );
    assert_eq!(fetch(per_asset(&[], &[]), FetchEvent::NoDirectory), abort(FetchError::Unexpected));
    assert_eq!(
        fetch(FetchState::Done, FetchEvent::Begin { version: None }),
        abort(FetchError::Unexpected)
    );
    assert_eq!(
        fetch(FetchState::Done, FetchEvent::Finished { failures: Vec::new() }),
        abort(FetchError::Unexpected)
    );
}

#[test]
fn a_whole_fetch_from_start_to_report() {
    let mut state = FetchState::Start { root: "/home/u/.fridamanager".to_string() };
    let mut event = FetchEvent::Begin { version: Some("16.0.0".to_string()) };
    let mut seen: Vec<String> = Vec::new();
    let report = loop {
        let (next, action) = fetch(state, event);
        state = next;
        event = match action {
            FetchAction::Get { url } => {
                seen.push(url);
                FetchEvent::Answer { status: 200, body: BODY.to_vec() }
            }
            FetchAction::OpenDirectory { version, path } => {
                seen.push(format!("{} {}", version, path));
                FetchEvent::Directory { files: vec!["frida-server-16.0.0-android-arm".to_string()] }
            }
            FetchAction::Run { tasks } => {
                let failures = tasks
                    .iter()
                    .map(|t| {
                        seen.push(format!("{:?} {}", t.step, t.asset.name));
                        if t.asset.name.contains("arm64") {
                            Some(DownloadError::Transport)
                        } else {
                            None
                        }
                    })
                    .collect();
                FetchEvent::Finished { failures }
            }
            FetchAction::Complete { report } => break report,
            FetchAction::Abort { error } => panic!("given up: {:?}", error),
        };
    };
    assert_eq!(state, FetchState::Done);
    assert_eq!(
        seen,
        vec![
            "https://api.github.com/repos/frida/frida/releases/tags/16.0.0",
            "16.0.0 /home/u/.fridamanager/16.0.0",
            "Download frida-server-16.0.0-linux-x86.xz",
            "Download frida-server-16.0.0-android-arm64.xz",
            "Skip frida-server-16.0.0-android-arm.xz",
        ]
    );
    assert_eq!(
        report.outcomes,
        vec![Outcome::Downloaded, Outcome::Failed(DownloadError::Transport), Outcome::Cached]
    );
    assert_eq!(
        report.listing,
        listing(&["frida-server-16.0.0-android-arm", "frida-server-16.0.0-linux-x86"])
    );
}
