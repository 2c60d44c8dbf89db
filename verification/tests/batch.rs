use frida_manager::asset::Asset;
use frida_manager::batch::{outcome, plan, settle, tally, Outcome, Step, Tally, Task};
use frida_manager::cache::CacheListing;
use frida_manager::download::DownloadError;

fn asset(name: &str) -> Asset {
    Asset {
        name: name.to_string(),
        content_type: "application/x-xz".to_string(),
        download_url: format!("https://example.org/{}", name),
    }
}

fn listing(names: &[&str]) -> CacheListing {
    CacheListing::from_names(names.iter().map(|n| n.to_string()).collect())
}

fn task(name: &str, step: Step) -> Task {
    Task { asset: asset(name), step }
}

#[test]
fn the_plan_keeps_the_assets_in_their_order() {
    let assets = vec![asset("frida-server-b.xz"), asset("frida-server-a.xz"), asset("frida-server-c")];
    let tasks = plan(&assets, &listing(&["frida-server-a", "unrelated"]));
    assert_eq!(
        tasks,
        vec![
            task("frida-server-b.xz", Step::Download),
            task("frida-server-a.xz", Step::Skip),
            task("frida-server-c", Step::Download),
        ]
    );
    assert_eq!(plan(&Vec::new(), &listing(&["x"])), Vec::<Task>::new());
}

#[test]
fn after_a_cleaning_everything_is_downloaded_again() {
    let assets = vec![asset("frida-server-a.xz"), asset("frida-server-b.xz"), asset("frida-server-c")];
    let cached = listing(&["frida-server-a", "frida-server-b", "frida-server-c"]);
    let steps: Vec<Step> = plan(&assets, &cached).iter().map(|t| t.step).collect();
    assert_eq!(steps, vec![Step::Skip, Step::Skip, Step::Skip]);
    let cleaned = CacheListing::new();
    let tasks = plan(&assets, &cleaned);
    let steps: Vec<Step> = tasks.iter().map(|t| t.step).collect();
    assert_eq!(steps, vec![Step::Download, Step::Download, Step::Download]);
    let planned: Vec<Asset> = tasks.into_iter().map(|t| t.asset).collect();
    assert_eq!(planned, assets);
}

#[test]
fn outcomes_by_step_and_failure() {
    assert_eq!(outcome(Step::Skip, None), Outcome::Cached);
    assert_eq!(outcome(Step::Skip, Some(DownloadError::Filesystem)), Outcome::Cached);
    assert_eq!(outcome(Step::Download, None), Outcome::Downloaded);
    assert_eq!(
        outcome(Step::Download, Some(DownloadError::Transport)),
        Outcome::Failed(DownloadError::Transport)
    );
    assert_eq!(
        outcome(Step::Download, Some(DownloadError::Decompression)),
        Outcome::Failed(DownloadError::Decompression)
    );
    assert_eq!(
        outcome(Step::Download, Some(DownloadError::Filesystem)),
        Outcome::Failed(DownloadError::Filesystem)
    );
}

#[test]
fn settle_tells_outcomes_and_listing() {
    let tasks = vec![
        task("frida-server-a.xz", Step::Download),
        task("frida-server-b.xz", Step::Skip),
        task("frida-server-c", Step::Download),
    ];
    let failures = vec![None, None, Some(DownloadError::Filesystem)];
    let settled = settle(&tasks, &failures, listing(&["frida-server-b"]));
    assert_eq!(
        settled,
        Some((
            vec![Outcome::Downloaded, Outcome::Cached, Outcome::Failed(DownloadError::Filesystem)],
            listing(&["frida-server-b", "frida-server-a"]),
        ))
    );
    assert_eq!(settle(&tasks, &vec![None], CacheListing::new()), None);
    assert_eq!(settle(&Vec::new(), &Vec::new(), listing(&["x"])), Some((Vec::new(), listing(&["x"]))));
}

#[test]
fn tally_counts_each_outcome_once() {
    let outcomes = vec![
        Outcome::Cached,
        Outcome::Failed(DownloadError::Transport),
        Outcome::Downloaded,
        Outcome::Cached,
        Outcome::Failed(DownloadError::Decompression),
        Outcome::Cached,
    ];
    assert_eq!(tally(&outcomes), Tally { cached: 3, downloaded: 1, failed: 2 });
    assert_eq!(tally(&Vec::new()), Tally { cached: 0, downloaded: 0, failed: 0 });
}
