//! The course of one fetch, as a machine that is fed what happened outside.
//!
//! `Start → ResolveRelease → CheckCache → PerAsset → Done`. The caller does
//! what an action asks for and hands back what came of it; every decision is
//! taken here. The downloads of one batch do not depend on one another, so
//! the caller may run them side by side.

use crate::asset::{assets_view, server_assets, Asset, AssetView, Release, ReleaseView};
use crate::batch::{
    copy_tasks, count_cached, count_downloaded, count_failed, is_plan, lemma_one_failure_leaves_the_rest,
    listing_after, outcomes_of, plan, settle, tally, task_names, tasks_view, Outcome, Step, Tally,
    Task, TaskView,
};
use crate::cache::{distinct, is_safe_component, joined, names_view, version_dir, CacheListing};
use crate::download::DownloadError;
use crate::json::json_document;
use crate::upstream::{
    endpoint, endpoint_of, fetch_release, release_result_view, upstream_release, UpstreamError,
};
use vstd::prelude::*;
use vstd::string::*;

verus! {

/// Why the cache could not take a release.
#[derive(Clone, Copy, Debug, PartialEq, Eq)]
pub enum FilesystemError {
    /// The version is no safe directory name.
    UnsafeVersion,
    /// The version directory could not be made or read.
    Unavailable,
}

/// Why a fetch ended without a report.
#[derive(Clone, Copy, Debug, PartialEq, Eq)]
pub enum FetchError {
    Upstream(UpstreamError),
    Filesystem(FilesystemError),
    /// The machine was fed an event that its state does not wait for.
    Unexpected,
}

/// What a fetch that ran to its end left behind.
#[derive(Debug, PartialEq, Eq)]
pub struct FetchReport {
    /// The version that was fetched.
    pub version: String,
    /// What came of each task, in the order of the tasks.
    pub outcomes: Vec<Outcome>,
    /// What the version directory holds now.
    pub listing: CacheListing,
}

/// Where a fetch stands.
#[derive(Debug, PartialEq, Eq)]
pub enum FetchState {
    /// Nothing was asked for yet. `root` is the cache root.
    Start { root: String },
    /// The release was asked for.
    ResolveRelease { root: String },
    /// The server binaries are picked; the version directory was asked for.
    CheckCache { version: String, assets: Vec<Asset> },
    /// The tasks were handed out.
    PerAsset { version: String, tasks: Vec<Task>, listing: CacheListing },
    /// The fetch is over.
    Done,
}

/// What happened outside.
#[derive(Debug, PartialEq, Eq)]
pub enum FetchEvent {
    /// A fetch was asked for: of `version`, or of the latest release.
    Begin { version: Option<String> },
    /// The releases API answered.
    Answer { status: u16, body: Vec<u8> },
    /// The releases API gave no answer.
    NoAnswer,
    /// The version directory is there and holds `files`.
    Directory { files: Vec<String> },
    /// The version directory could not be made or read.
    NoDirectory,
    /// All tasks are over. `failures` holds, task by task, why its download
    /// failed; `None` for a task that went well or had no download.
    Finished { failures: Vec<Option<DownloadError>> },
}

/// What the caller is to do next.
#[derive(Debug, PartialEq, Eq)]
pub enum FetchAction {
    /// Ask `url` for the release.
    Get { url: String },
    /// Make the directory `path` if it is not there, and list its files.
    OpenDirectory { version: String, path: String },
    /// Run the tasks; none waits for another.
    Run { tasks: Vec<Task> },
    /// The fetch is through.
    Complete { report: FetchReport },
    /// The fetch is given up.
    Abort { error: FetchError },
}

/// The value of an optional string.
pub open spec fn optional_text(text: Option<String>) -> Option<Seq<char>> {
    match text {
        Some(s) => Some(s@),
        None => None,
    }
}

/// The first step: the release is asked for.
pub open spec fn begins(
    root: Seq<char>,
    version: Option<Seq<char>>,
    next: FetchState,
    action: FetchAction,
) -> bool {
    &&& next matches FetchState::ResolveRelease { root: kept }
    &&& kept@ == root
    &&& action matches FetchAction::Get { url }
    &&& url@ == endpoint_of(version)
}

/// The step after the answer of the releases API. A failure to read the
/// release ends the fetch, and so does a version that is no safe directory
/// name. Otherwise the server binaries are picked and the version directory
/// below `root` is asked for.
pub open spec fn resolves(
    root: Seq<char>,
    outcome: Result<ReleaseView, UpstreamError>,
    next: FetchState,
    action: FetchAction,
) -> bool {
    match outcome {
        Err(e) => aborts(FetchError::Upstream(e), next, action),
        Ok(release) => if is_safe_component(release.version) {
            &&& next matches FetchState::CheckCache { version, assets }
            &&& version@ == release.version
            &&& assets_view(assets@) == server_assets(release.assets)
            &&& action matches FetchAction::OpenDirectory { version: shown, path }
            &&& shown@ == release.version
            &&& path@ == joined(root, release.version)
        } else {
            aborts(FetchError::Filesystem(FilesystemError::UnsafeVersion), next, action)
        },
    }
}

/// The step after the version directory was listed: each asset is set
/// against the listing, and the tasks are handed out.
pub open spec fn checks(
    version: Seq<char>,
    assets: Seq<AssetView>,
    files: Seq<Seq<char>>,
    next: FetchState,
    action: FetchAction,
) -> bool {
    &&& next matches FetchState::PerAsset { version: kept, tasks, listing }
    &&& kept@ == version
    &&& listing@ == distinct(files)
    &&& listing@.no_duplicates()
    &&& is_plan(tasks_view(tasks@), assets, listing@)
    &&& action matches FetchAction::Run { tasks: handed }
    &&& tasks_view(handed@) == tasks_view(tasks@)
}

/// The last step: whatever the downloads came to, the fetch is through. The
/// report holds what came of each task and what the directory holds now.
pub open spec fn completes(
    version: Seq<char>,
    tasks: Seq<TaskView>,
    listing: Seq<Seq<char>>,
    failures: Seq<Option<DownloadError>>,
    next: FetchState,
    action: FetchAction,
) -> bool {
    &&& next is Done
    &&& action matches FetchAction::Complete { report }
    &&& report.version@ == version
    &&& report.outcomes@ == outcomes_of(tasks, failures)
    &&& report.listing@ == listing_after(listing, task_names(tasks), report.outcomes@)
}

/// The fetch is given up with `error`.
pub open spec fn aborts(error: FetchError, next: FetchState, action: FetchAction) -> bool {
    next is Done && action == (FetchAction::Abort { error })
}

/// One step of a fetch: from `state`, on `event`, to `next` with `action`.
/// An event that the state does not wait for ends the fetch.
pub open spec fn fetch_step(
    state: FetchState,
    event: FetchEvent,
    next: FetchState,
    action: FetchAction,
) -> bool {
    match state {
        FetchState::Start { root } => match event {
            FetchEvent::Begin { version } => begins(root@, optional_text(version), next, action),
            _ => aborts(FetchError::Unexpected, next, action),
        },
        FetchState::ResolveRelease { root } => match event {
            FetchEvent::Answer { status, body } => resolves(
                root@,
                upstream_release(status, json_document(body@)),
                next,
                action,
            ),
            FetchEvent::NoAnswer => aborts(
                FetchError::Upstream(UpstreamError::NoResponse),
                next,
                action,
            ),
            _ => aborts(FetchError::Unexpected, next, action),
        },
        FetchState::CheckCache { version, assets } => match event {
            FetchEvent::Directory { files } => checks(
                version@,
                assets_view(assets@),
                names_view(files@),
                next,
                action,
            ),
            FetchEvent::NoDirectory => aborts(
                FetchError::Filesystem(FilesystemError::Unavailable),
                next,
                action,
            ),
            _ => aborts(FetchError::Unexpected, next, action),
        },
        FetchState::PerAsset { version, tasks, listing } => match event {
            FetchEvent::Finished { failures } => if failures@.len() == tasks@.len() {
                completes(version@, tasks_view(tasks@), listing@, failures@, next, action)
            } else {
                aborts(FetchError::Unexpected, next, action)
            },
            _ => aborts(FetchError::Unexpected, next, action),
        },
        FetchState::Done => aborts(FetchError::Unexpected, next, action),
    }
}

/// How far a fetch has come.
pub open spec fn phase(state: FetchState) -> nat {
    match state {
        FetchState::Start { .. } => 0,
        FetchState::ResolveRelease { .. } => 1,
        FetchState::CheckCache { .. } => 2,
        FetchState::PerAsset { .. } => 3,
        FetchState::Done => 4,
    }
}

/// A fetch only moves forward: each step leads to the state next in line or
/// to the end, the end comes with a report or with an error and with
/// nothing else, and a report comes only after the downloads.
pub proof fn lemma_fetch_moves_forward(
    state: FetchState,
    event: FetchEvent,
    next: FetchState,
    action: FetchAction,
)
    requires
        fetch_step(state, event, next, action),
    ensures
        next is Done || phase(next) == phase(state) + 1,
        next is Done <==> (action is Complete || action is Abort),
        action is Complete ==> state is PerAsset,
{
}

/// A release that cannot be resolved ends the fetch at once, with the error
/// of the release: no directory is asked for and nothing is downloaded.
pub proof fn lemma_unresolved_release_ends_the_fetch(
    root: String,
    status: u16,
    body: Vec<u8>,
    next: FetchState,
    action: FetchAction,
)
    requires
        fetch_step(
            FetchState::ResolveRelease { root },
            FetchEvent::Answer { status, body },
            next,
            action,
        ),
        upstream_release(status, json_document(body@)) is Err,
    ensures
        next is Done,
        action == (FetchAction::Abort {
            error: FetchError::Upstream(upstream_release(status, json_document(body@))->Err_0),
        }),
{
}

/// A batch in which a download failed still comes to its end with a report:
/// where nothing was cached and no two tasks write one file, a batch of `n`
/// tasks of which exactly one failed ends the fetch with a report whose
/// listing holds `n - 1` files.
pub proof fn lemma_one_failure_still_completes(
    version: Seq<char>,
    tasks: Seq<TaskView>,
    failures: Seq<Option<DownloadError>>,
    failed: int,
    next: FetchState,
    action: FetchAction,
)
    requires
        failures.len() == tasks.len(),
        task_names(tasks).no_duplicates(),
        forall|k: int| 0 <= k < tasks.len() ==> (#[trigger] tasks[k]).step == Step::Download,
        0 <= failed < tasks.len(),
        forall|k: int| 0 <= k < failures.len() ==> ((#[trigger] failures[k]) is Some <==> k == failed),
        completes(version, tasks, Seq::empty(), failures, next, action),
    ensures
        next is Done,
        action is Complete,
        action->report.listing@.len() == tasks.len() - 1,
{
    lemma_one_failure_leaves_the_rest(tasks, failures, failed);
}

impl FetchReport {
    /// The outcomes of this report, counted by their kind.
    pub fn tally(&self) -> (r: Tally)
        ensures
            r.cached == count_cached(self.outcomes@),
            r.downloaded == count_downloaded(self.outcomes@),
            r.failed == count_failed(self.outcomes@),
            r.cached + r.downloaded + r.failed == self.outcomes@.len(),
    {
        tally(&self.outcomes)
    }
}

/// The step from `Start`.
fn begin(root: String, version: Option<String>) -> (r: (FetchState, FetchAction))
    ensures
        begins(root@, optional_text(version), r.0, r.1),
{
    let url = match &version {
        Some(tag) => endpoint(Some(tag.as_str())),
        None => endpoint(None),
    };
    (FetchState::ResolveRelease { root }, FetchAction::Get { url })
}

/// The step from `ResolveRelease`, given what was read out of the answer.
pub fn resolved(root: &str, outcome: Result<Release, UpstreamError>) -> (r: (
    FetchState,
    FetchAction,
))
    ensures
        resolves(root@, release_result_view(outcome), r.0, r.1),
{
    match outcome {
        Err(e) => (FetchState::Done, FetchAction::Abort { error: FetchError::Upstream(e) }),
        Ok(release) => match version_dir(root, release.version.as_str()) {
            None => (
                FetchState::Done,
                FetchAction::Abort {
                    error: FetchError::Filesystem(FilesystemError::UnsafeVersion),
                },
            ),
            Some(path) => {
                let assets = release.get_frida_server_assets();
                let shown = release.version.clone();
                (
                    FetchState::CheckCache { version: release.version, assets },
                    FetchAction::OpenDirectory { version: shown, path },
                )
            },
        },
    }
}

/// The step from `CheckCache`, given the files of the version directory.
fn checked(version: String, assets: Vec<Asset>, files: Vec<String>) -> (r: (
    FetchState,
    FetchAction,
))
    ensures
        checks(version@, assets_view(assets@), names_view(files@), r.0, r.1),
{
    let listing = CacheListing::from_names(files);
    let tasks = plan(&assets, &listing);
    let handed = copy_tasks(&tasks);
    (FetchState::PerAsset { version, tasks, listing }, FetchAction::Run { tasks: handed })
}

/// The step from `PerAsset`, given what was reported for each task.
fn finished(
    version: String,
    tasks: Vec<Task>,
    listing: CacheListing,
    failures: Vec<Option<DownloadError>>,
) -> (r: (FetchState, FetchAction))
    ensures
        if failures@.len() == tasks@.len() {
            completes(version@, tasks_view(tasks@), listing@, failures@, r.0, r.1)
        } else {
            aborts(FetchError::Unexpected, r.0, r.1)
        },
{
    match settle(&tasks, &failures, listing) {
        Some((outcomes, listing)) => {
            let report = FetchReport { version, outcomes, listing };
            (FetchState::Done, FetchAction::Complete { report })
        },
        None => (FetchState::Done, FetchAction::Abort { error: FetchError::Unexpected }),
    }
}

/// One step of a fetch. The caller does what the action asks for and comes
/// back with the event that tells what came of it, until the action is
/// `Complete` or `Abort`.
///
/// A release that cannot be resolved ends the fetch. A download that fails
/// does not: it is one outcome among the others of the report.
pub fn fetch(state: FetchState, event: FetchEvent) -> (r: (FetchState, FetchAction))
    ensures
        fetch_step(state, event, r.0, r.1),
{
    match state {
        FetchState::Start { root } => match event {
            FetchEvent::Begin { version } => begin(root, version),
            _ => (FetchState::Done, FetchAction::Abort { error: FetchError::Unexpected }),
        },
        FetchState::ResolveRelease { root } => match event {
            FetchEvent::Answer { status, body } => {
                let outcome = fetch_release(status, body.as_slice());
                resolved(root.as_str(), outcome)
            },
            FetchEvent::NoAnswer => (
                FetchState::Done,
                FetchAction::Abort { error: FetchError::Upstream(UpstreamError::NoResponse) },
            ),
            _ => (FetchState::Done, FetchAction::Abort { error: FetchError::Unexpected }),
        },
        FetchState::CheckCache { version, assets } => match event {
            FetchEvent::Directory { files } => checked(version, assets, files),
            FetchEvent::NoDirectory => (
                FetchState::Done,
                FetchAction::Abort {
                    error: FetchError::Filesystem(FilesystemError::Unavailable),
                },
            ),
            _ => (FetchState::Done, FetchAction::Abort { error: FetchError::Unexpected }),
        },
        FetchState::PerAsset { version, tasks, listing } => match event {
            FetchEvent::Finished { failures } => finished(version, tasks, listing, failures),
            _ => (FetchState::Done, FetchAction::Abort { error: FetchError::Unexpected }),
        },
        FetchState::Done => (
            FetchState::Done,
            FetchAction::Abort { error: FetchError::Unexpected },
        ),
    }
}

} // verus!
