//! A batch of downloads: what is to be done for each asset, and what the
//! batch leaves behind.
//!
//! The tasks of a batch do not depend on one another. A download that fails
//! is one outcome among the others; it takes nothing from the rest.

use crate::asset::{assets_view, stored_name, Asset, AssetView};
use crate::cache::{with_name, CacheListing};
use crate::download::DownloadError;
use vstd::prelude::*;

verus! {

/// What is to be done for one asset.
#[derive(Clone, Copy, Debug, PartialEq, Eq)]
pub enum Step {
    /// The asset is cached: nothing is fetched.
    Skip,
    /// The asset is fetched and written.
    Download,
}

/// One asset of a batch with what is to be done for it.
#[derive(Debug, PartialEq, Eq)]
pub struct Task {
    pub asset: Asset,
    pub step: Step,
}

/// The mathematical value of a [`Task`].
pub struct TaskView {
    pub asset: AssetView,
    pub step: Step,
}

impl View for Task {
    type V = TaskView;

    open spec fn view(&self) -> TaskView {
        TaskView { asset: self.asset@, step: self.step }
    }
}

/// The values of a sequence of tasks, position by position.
pub open spec fn tasks_view(tasks: Seq<Task>) -> Seq<TaskView> {
    Seq::new(tasks.len(), |i: int| tasks[i]@)
}

/// What came of one task.
#[derive(Clone, Copy, Debug, PartialEq, Eq)]
pub enum Outcome {
    /// The asset was cached before.
    Cached,
    /// The asset was fetched and written.
    Downloaded,
    /// The download failed; the asset is not in the cache.
    Failed(DownloadError),
}

/// How many tasks of a batch ended in which way.
#[derive(Clone, Copy, Debug, PartialEq, Eq)]
pub struct Tally {
    pub cached: usize,
    pub downloaded: usize,
    pub failed: usize,
}

/// The stored names of the assets of `tasks`, task by task.
pub open spec fn task_names(tasks: Seq<TaskView>) -> Seq<Seq<char>> {
    Seq::new(tasks.len(), |i: int| stored_name(tasks[i].asset.name))
}

/// What is done for `asset` where the version directory holds `listing`:
/// nothing if a file of its stored name is there, a download otherwise.
pub open spec fn step_for(listing: Seq<Seq<char>>, asset: AssetView) -> Step {
    if listing.contains(stored_name(asset.name)) {
        Step::Skip
    } else {
        Step::Download
    }
}

/// `tasks` is the plan for `assets` against `listing`: the assets in their
/// order, each with its step.
pub open spec fn is_plan(
    tasks: Seq<TaskView>,
    assets: Seq<AssetView>,
    listing: Seq<Seq<char>>,
) -> bool {
    &&& tasks.len() == assets.len()
    &&& forall|i: int|
        0 <= i < tasks.len() ==> (#[trigger] tasks[i]).asset == assets[i] && tasks[i].step
            == step_for(listing, assets[i])
}

/// What came of a task, from its step and the failure reported for it. What
/// is reported for a task without a download is not looked at.
pub open spec fn outcome_of(step: Step, failure: Option<DownloadError>) -> Outcome {
    match step {
        Step::Skip => Outcome::Cached,
        Step::Download => match failure {
            None => Outcome::Downloaded,
            Some(e) => Outcome::Failed(e),
        },
    }
}

/// The outcomes of `tasks` under `failures`, task by task.
pub open spec fn outcomes_of(tasks: Seq<TaskView>, failures: Seq<Option<DownloadError>>) -> Seq<
    Outcome,
> {
    Seq::new(tasks.len(), |i: int| outcome_of(tasks[i].step, failures[i]))
}

/// What a directory that held `listing` holds after tasks on the files
/// `names` ended with `outcomes`: each file that was downloaded is there too.
pub open spec fn listing_after(
    listing: Seq<Seq<char>>,
    names: Seq<Seq<char>>,
    outcomes: Seq<Outcome>,
) -> Seq<Seq<char>>
    decreases names.len(),
{
    if names.len() == 0 || outcomes.len() != names.len() {
        listing
    } else {
        let before = listing_after(listing, names.drop_last(), outcomes.drop_last());
        if outcomes.last() == Outcome::Downloaded {
            with_name(before, names.last())
        } else {
            before
        }
    }
}

/// How many of `outcomes` are assets that were cached before.
pub open spec fn count_cached(outcomes: Seq<Outcome>) -> nat
    decreases outcomes.len(),
{
    if outcomes.len() == 0 {
        0
    } else {
        count_cached(outcomes.drop_last()) + if outcomes.last() == Outcome::Cached {
            1nat
        } else {
            0nat
        }
    }
}

/// How many of `outcomes` are downloads that went well.
pub open spec fn count_downloaded(outcomes: Seq<Outcome>) -> nat
    decreases outcomes.len(),
{
    if outcomes.len() == 0 {
        0
    } else {
        count_downloaded(outcomes.drop_last()) + if outcomes.last() == Outcome::Downloaded {
            1nat
        } else {
            0nat
        }
    }
}

/// How many of `outcomes` are downloads that failed.
pub open spec fn count_failed(outcomes: Seq<Outcome>) -> nat
    decreases outcomes.len(),
{
    if outcomes.len() == 0 {
        0
    } else {
        count_failed(outcomes.drop_last()) + if outcomes.last() is Failed {
            1nat
        } else {
            0nat
        }
    }
}

/// Every outcome is counted once: as cached, as downloaded or as failed.
pub proof fn lemma_counts_cover(outcomes: Seq<Outcome>)
    ensures
        count_cached(outcomes) + count_downloaded(outcomes) + count_failed(outcomes)
            == outcomes.len(),
    decreases outcomes.len(),
{
    if outcomes.len() > 0 {
        lemma_counts_cover(outcomes.drop_last());
    }
}

/// After a cleaning nothing is cached, so every asset is downloaded again:
/// against an empty listing the plan skips nothing.
pub proof fn lemma_empty_cache_downloads_all(tasks: Seq<TaskView>, assets: Seq<AssetView>)
    requires
        is_plan(tasks, assets, Seq::empty()),
    ensures
        forall|i: int| 0 <= i < tasks.len() ==> (#[trigger] tasks[i]).step == Step::Download,
{
}

/// What a batch leaves behind: the files that were there stay, the files
/// that were downloaded are there too, and nothing else is.
pub proof fn lemma_listing_after_holds(
    listing: Seq<Seq<char>>,
    names: Seq<Seq<char>>,
    outcomes: Seq<Outcome>,
    name: Seq<char>,
)
    requires
        names.len() == outcomes.len(),
    ensures
        listing_after(listing, names, outcomes).contains(name) <==> (listing.contains(name)
            || exists|k: int|
            0 <= k < names.len() && #[trigger] names[k] == name && outcomes[k]
                == Outcome::Downloaded),
    decreases names.len(),
{
    if names.len() > 0 {
        let n = names.len() - 1;
        let front = names.drop_last();
        let before = listing_after(listing, front, outcomes.drop_last());
        lemma_listing_after_holds(listing, front, outcomes.drop_last(), name);
        let after = listing_after(listing, names, outcomes);
        let found = exists|k: int|
            0 <= k < names.len() && #[trigger] names[k] == name && outcomes[k]
                == Outcome::Downloaded;
        let found_before = exists|k: int|
            0 <= k < front.len() && #[trigger] front[k] == name && outcomes.drop_last()[k]
                == Outcome::Downloaded;
        if found_before {
            let k = choose|k: int|
                0 <= k < front.len() && #[trigger] front[k] == name && outcomes.drop_last()[k]
                    == Outcome::Downloaded;
            assert(names[k] == name && outcomes[k] == Outcome::Downloaded);
        }
        if found {
            let k = choose|k: int|
                0 <= k < names.len() && #[trigger] names[k] == name && outcomes[k]
                    == Outcome::Downloaded;
            if k < n {
                assert(front[k] == name && outcomes.drop_last()[k] == Outcome::Downloaded);
            }
        }
        if outcomes.last() == Outcome::Downloaded {
            if before.contains(names.last()) {
                assert(after == before);
            } else {
                assert(after == before.push(names.last()));
                assert(after[before.len() as int] == names.last());
                if after.contains(name) && name != names.last() {
                    let j = choose|j: int| 0 <= j < after.len() && after[j] == name;
                    assert(before[j] == name);
                }
                if before.contains(name) {
                    let j = choose|j: int| 0 <= j < before.len() && before[j] == name;
                    assert(after[j] == name);
                }
            }
            if name == names.last() {
                assert(names[n] == name && outcomes[n] == Outcome::Downloaded);
            }
        }
    }
}

/// An asset that the plan downloads is not cached before its download, and
/// is cached after it where the download went well.
pub proof fn lemma_cached_after_download(
    tasks: Seq<TaskView>,
    assets: Seq<AssetView>,
    listing: Seq<Seq<char>>,
    failures: Seq<Option<DownloadError>>,
    i: int,
)
    requires
        is_plan(tasks, assets, listing),
        failures.len() == tasks.len(),
        0 <= i < tasks.len(),
        tasks[i].step == Step::Download,
        failures[i] is None,
    ensures
        !listing.contains(stored_name(assets[i].name)),
        listing_after(listing, task_names(tasks), outcomes_of(tasks, failures)).contains(
            stored_name(assets[i].name),
        ),
{
    let names = task_names(tasks);
    let outcomes = outcomes_of(tasks, failures);
    assert(names[i] == stored_name(assets[i].name) && outcomes[i] == Outcome::Downloaded);
    lemma_listing_after_holds(listing, names, outcomes, names[i]);
}

/// Where no file of a batch is in the directory yet and no two tasks write
/// one file, each download that went well adds one file, and nothing else
/// changes the number of files.
pub proof fn lemma_each_download_adds_one(
    listing: Seq<Seq<char>>,
    names: Seq<Seq<char>>,
    outcomes: Seq<Outcome>,
)
    requires
        names.len() == outcomes.len(),
        listing.no_duplicates(),
        names.no_duplicates(),
        forall|k: int| 0 <= k < names.len() ==> !listing.contains(#[trigger] names[k]),
    ensures
        listing_after(listing, names, outcomes).no_duplicates(),
        listing_after(listing, names, outcomes).len() == listing.len() + count_downloaded(outcomes),
    decreases names.len(),
{
    if names.len() > 0 {
        let n = names.len() - 1;
        let front = names.drop_last();
        let before = listing_after(listing, front, outcomes.drop_last());
        assert forall|k: int| 0 <= k < front.len() implies !listing.contains(
            #[trigger] front[k],
        ) by {
            assert(front[k] == names[k]);
        }
        lemma_each_download_adds_one(listing, front, outcomes.drop_last());
        if outcomes.last() == Outcome::Downloaded {
            lemma_listing_after_holds(listing, front, outcomes.drop_last(), names.last());
            if before.contains(names.last()) {
                let k = choose|k: int|
                    0 <= k < front.len() && #[trigger] front[k] == names.last()
                        && outcomes.drop_last()[k] == Outcome::Downloaded;
                assert(names[k] == names[n]);
            }
        }
    }
}

/// Outcomes of which all but the one at `failed` are downloads that went
/// well hold one download less than there are outcomes.
proof fn lemma_count_with_one_failure(outcomes: Seq<Outcome>, failed: int)
    requires
        forall|k: int|
            0 <= k < outcomes.len() ==> ((#[trigger] outcomes[k]) == Outcome::Downloaded <==> k
                != failed),
    ensures
        count_downloaded(outcomes) == if 0 <= failed < outcomes.len() {
            outcomes.len() - 1
        } else {
            outcomes.len() as int
        },
    decreases outcomes.len(),
{
    if outcomes.len() > 0 {
        let front = outcomes.drop_last();
        assert forall|k: int| 0 <= k < front.len() implies ((#[trigger] front[k])
            == Outcome::Downloaded <==> k != failed) by {
            assert(front[k] == outcomes[k]);
        }
        lemma_count_with_one_failure(front, failed);
    }
}

/// One failed download in a batch of independent assets costs that one file
/// and nothing else: where nothing was cached and no two tasks write one
/// file, a batch of `n` tasks of which exactly one failed leaves `n - 1`
/// files.
pub proof fn lemma_one_failure_leaves_the_rest(
    tasks: Seq<TaskView>,
    failures: Seq<Option<DownloadError>>,
    failed: int,
)
    requires
        failures.len() == tasks.len(),
        task_names(tasks).no_duplicates(),
        forall|k: int| 0 <= k < tasks.len() ==> (#[trigger] tasks[k]).step == Step::Download,
        0 <= failed < tasks.len(),
        forall|k: int| 0 <= k < failures.len() ==> ((#[trigger] failures[k]) is Some <==> k == failed),
    ensures
        listing_after(Seq::empty(), task_names(tasks), outcomes_of(tasks, failures)).len()
            == tasks.len() - 1,
{
    let names = task_names(tasks);
    let outcomes = outcomes_of(tasks, failures);
    assert forall|k: int| 0 <= k < outcomes.len() implies ((#[trigger] outcomes[k])
        == Outcome::Downloaded <==> k != failed) by {
        assert(tasks[k].step == Step::Download);
        assert(failures[k] is Some <==> k == failed);
    }
    lemma_count_with_one_failure(outcomes, failed);
    lemma_each_download_adds_one(Seq::empty(), names, outcomes);
}

/// The tasks for `assets` against what the version directory holds: an asset
/// whose stored name is listed is skipped, every other is downloaded.
pub fn plan(assets: &Vec<Asset>, listing: &CacheListing) -> (r: Vec<Task>)
    ensures
        is_plan(tasks_view(r@), assets_view(assets@), listing@),
{
    let mut tasks: Vec<Task> = Vec::new();
    let mut i: usize = 0;
    while i < assets.len()
        invariant
            i <= assets.len(),
            tasks@.len() == i,
            forall|k: int|
                0 <= k < i ==> (#[trigger] tasks@[k]).asset == assets@[k] && tasks@[k].step
                    == step_for(listing@, assets@[k]@),
        decreases assets.len() - i,
    {
        let asset = assets[i].clone();
        let step = if asset.is_cached(listing) {
            Step::Skip
        } else {
            Step::Download
        };
        tasks.push(Task { asset, step });
        i += 1;
    }
    tasks
}

/// A copy of `tasks`.
pub(crate) fn copy_tasks(tasks: &Vec<Task>) -> (r: Vec<Task>)
    ensures
        tasks_view(r@) == tasks_view(tasks@),
{
    let mut copy: Vec<Task> = Vec::new();
    let mut i: usize = 0;
    while i < tasks.len()
        invariant
            i <= tasks.len(),
            copy@.len() == i,
            forall|k: int| 0 <= k < i ==> (#[trigger] copy@[k])@ == tasks@[k]@,
        decreases tasks.len() - i,
    {
        let task = Task { asset: tasks[i].asset.clone(), step: tasks[i].step };
        copy.push(task);
        i += 1;
    }
    assert(tasks_view(copy@) =~= tasks_view(tasks@));
    copy
}

/// What came of a task with `step` for which `failure` was reported.
pub fn outcome(step: Step, failure: Option<DownloadError>) -> (r: Outcome)
    ensures
        r == outcome_of(step, failure),
{
    match step {
        Step::Skip => Outcome::Cached,
        Step::Download => match failure {
            None => Outcome::Downloaded,
            Some(e) => Outcome::Failed(e),
        },
    }
}

/// What came of a batch: the outcome of each task, and the listing of the
/// directory with the files that were downloaded.
pub fn settle(
    tasks: &Vec<Task>,
    failures: &Vec<Option<DownloadError>>,
    listing: CacheListing,
) -> (r: Option<(Vec<Outcome>, CacheListing)>)
    ensures
        r is Some <==> failures@.len() == tasks@.len(),
        r matches Some((outcomes, after)) ==> {
            &&& outcomes@ == outcomes_of(tasks_view(tasks@), failures@)
            &&& after@ == listing_after(listing@, task_names(tasks_view(tasks@)), outcomes@)
        },
{
    if failures.len() != tasks.len() {
        return None;
    }
    let ghost names = task_names(tasks_view(tasks@));
    let ghost start = listing@;
    let mut listing = listing;
    let mut outcomes: Vec<Outcome> = Vec::new();
    let mut i: usize = 0;
    assert(names.take(0) =~= Seq::empty());
    while i < tasks.len()
        invariant
            i <= tasks.len(),
            failures@.len() == tasks@.len(),
            names == task_names(tasks_view(tasks@)),
            outcomes@.len() == i,
            forall|k: int|
                0 <= k < i ==> #[trigger] outcomes@[k] == outcome_of(tasks@[k].step, failures@[k]),
            listing@ == listing_after(start, names.take(i as int), outcomes@),
        decreases tasks.len() - i,
    {
        let result = outcome(tasks[i].step, failures[i]);
        let ghost before = outcomes@;
        outcomes.push(result);
        proof {
            assert(names.take(i + 1).drop_last() =~= names.take(i as int));
            assert(outcomes@.drop_last() =~= before);
        }
        match result {
            Outcome::Downloaded => {
                let name = tasks[i].asset.file_name();
                listing = listing.with_file(name.as_str());
            },
            _ => {},
        }
        i += 1;
    }
    assert(names.take(i as int) =~= names);
    assert(outcomes@ =~= outcomes_of(tasks_view(tasks@), failures@));
    Some((outcomes, listing))
}

/// The outcomes, counted by their kind.
pub fn tally(outcomes: &Vec<Outcome>) -> (r: Tally)
    ensures
        r.cached == count_cached(outcomes@),
        r.downloaded == count_downloaded(outcomes@),
        r.failed == count_failed(outcomes@),
        r.cached + r.downloaded + r.failed == outcomes@.len(),
{
    let mut tally = Tally { cached: 0, downloaded: 0, failed: 0 };
    let mut i: usize = 0;
    assert(outcomes@.take(0) =~= Seq::empty());
    while i < outcomes.len()
        invariant
            i <= outcomes.len(),
            tally.cached == count_cached(outcomes@.take(i as int)),
            tally.downloaded == count_downloaded(outcomes@.take(i as int)),
            tally.failed == count_failed(outcomes@.take(i as int)),
            tally.cached + tally.downloaded + tally.failed == i,
        decreases outcomes.len() - i,
    {
        assert(outcomes@.take(i + 1).drop_last() =~= outcomes@.take(i as int));
        match outcomes[i] {
            Outcome::Cached => {
                tally.cached += 1;
            },
            Outcome::Downloaded => {
                tally.downloaded += 1;
            },
            Outcome::Failed(_) => {
                tally.failed += 1;
            },
        }
        i += 1;
    }
    assert(outcomes@.take(i as int) =~= outcomes@);
    tally
}

} // verus!
