//! Comparing the latest release with the installed version.
//!
//! `Start → ResolveRelease → QueryInstalled → Done`. The installed version
//! is what the query program prints; the caller runs it.

use crate::asset::{Release, ReleaseView};
use crate::json::json_document;
use crate::text::{equal, string_from_utf8, trim, trimmed};
use crate::upstream::{
    fetch_release, release_result_view, upstream_release, UpstreamError,
    GITHUB_LATEST_RELEASES_URL,
};
use vstd::prelude::*;
use vstd::string::*;
use vstd::utf8::{decode_utf8, valid_utf8};

verus! {

/// The program that is asked for the installed version.
pub const VERSION_QUERY_PROGRAM: &'static str = "frida";

/// The flag that makes it print its version.
pub const VERSION_QUERY_FLAG: &'static str = "--version";

/// The sentence for an installed version that is the latest.
pub const UP_TO_DATE_MESSAGE: &'static str = "Currently installed version of Frida is up-to-date.";

/// The sentence for an installed version that is not the latest.
pub const OUTDATED_MESSAGE: &'static str =
    "Currently installed version of Frida is not the latest version. Please update!";

/// Why the installed version is not known.
#[derive(Clone, Copy, Debug, PartialEq, Eq)]
pub enum ExternalCommandError {
    /// The query program could not be run.
    NotRun,
    /// The query program ended with a failure.
    Failed,
    /// What the query program printed is no UTF-8 text.
    Undecodable,
}

/// Why a status check ended without a report.
#[derive(Clone, Copy, Debug, PartialEq, Eq)]
pub enum StatusError {
    Upstream(UpstreamError),
    Command(ExternalCommandError),
    /// The machine was fed an event that its state does not wait for.
    Unexpected,
}

/// How the installed version stands to the latest release.
#[derive(Clone, Copy, Debug, PartialEq, Eq)]
pub enum Verdict {
    UpToDate,
    Outdated,
}

/// What a status check found.
#[derive(Debug, PartialEq, Eq)]
pub struct StatusReport {
    /// The version of the latest release.
    pub latest: String,
    /// The installed version, as the query program printed it, trimmed.
    pub installed: String,
    pub verdict: Verdict,
}

/// What came of running the query program.
#[derive(Debug, PartialEq, Eq)]
pub enum QueryOutput {
    /// It could not be run.
    NotRun,
    /// It ran to its end and printed `stdout`.
    Exited { success: bool, stdout: Vec<u8> },
}

/// Where a status check stands.
#[derive(Debug, PartialEq, Eq)]
pub enum StatusState {
    Start,
    /// The latest release was asked for.
    ResolveRelease,
    /// The latest version is known; the installed version was asked for.
    QueryInstalled { latest: String },
    Done,
}

/// What happened outside.
#[derive(Debug, PartialEq, Eq)]
pub enum StatusEvent {
    /// A status check was asked for.
    Begin,
    /// The releases API answered.
    Answer { status: u16, body: Vec<u8> },
    /// The releases API gave no answer.
    NoAnswer,
    /// The query program is over.
    Queried { output: QueryOutput },
}

/// What the caller is to do next.
#[derive(Debug, PartialEq, Eq)]
pub enum StatusAction {
    /// Ask `url` for the latest release.
    Get { url: String },
    /// Run `program` with `flag` and take what it prints.
    Query { program: String, flag: String },
    /// The check is through.
    Report { report: StatusReport },
    /// The check is given up.
    Abort { error: StatusError },
}

/// The installed version that the output of the query program tells: what
/// it printed, without the whitespace around it. A query that did not run,
/// failed, or printed no UTF-8 text tells none.
pub open spec fn installed_of(output: QueryOutput) -> Result<Seq<char>, ExternalCommandError> {
    match output {
        QueryOutput::NotRun => Err(ExternalCommandError::NotRun),
        QueryOutput::Exited { success, stdout } => if !success {
            Err(ExternalCommandError::Failed)
        } else if !valid_utf8(stdout@) {
            Err(ExternalCommandError::Undecodable)
        } else {
            Ok(trimmed(decode_utf8(stdout@)))
        },
    }
}

/// Up to date means: the two versions are the same text. Nothing is read
/// into the versions.
pub open spec fn verdict_of(latest: Seq<char>, installed: Seq<char>) -> Verdict {
    if latest == installed {
        Verdict::UpToDate
    } else {
        Verdict::Outdated
    }
}

/// The sentence that tells a verdict.
pub open spec fn verdict_message(verdict: Verdict) -> Seq<char> {
    match verdict {
        Verdict::UpToDate => UP_TO_DATE_MESSAGE@,
        Verdict::Outdated => OUTDATED_MESSAGE@,
    }
}

/// The step after the answer of the releases API, given what was read out
/// of it.
pub open spec fn status_resolves(
    outcome: Result<ReleaseView, UpstreamError>,
    next: StatusState,
    action: StatusAction,
) -> bool {
    match outcome {
        Err(e) => status_aborts(StatusError::Upstream(e), next, action),
        Ok(release) => {
            &&& next matches StatusState::QueryInstalled { latest }
            &&& latest@ == release.version
            &&& action matches StatusAction::Query { program, flag }
            &&& program@ == VERSION_QUERY_PROGRAM@
            &&& flag@ == VERSION_QUERY_FLAG@
        },
    }
}

/// The step after the query program is over.
pub open spec fn status_reports(
    latest: Seq<char>,
    installed: Result<Seq<char>, ExternalCommandError>,
    next: StatusState,
    action: StatusAction,
) -> bool {
    match installed {
        Err(e) => status_aborts(StatusError::Command(e), next, action),
        Ok(version) => {
            &&& next is Done
            &&& action matches StatusAction::Report { report }
            &&& report.latest@ == latest
            &&& report.installed@ == version
            &&& report.verdict == verdict_of(latest, version)
        },
    }
}

/// The check is given up with `error`.
pub open spec fn status_aborts(error: StatusError, next: StatusState, action: StatusAction) -> bool {
    next is Done && action == (StatusAction::Abort { error })
}

/// One step of a status check: from `state`, on `event`, to `next` with
/// `action`. An event that the state does not wait for ends the check.
pub open spec fn status_step(
    state: StatusState,
    event: StatusEvent,
    next: StatusState,
    action: StatusAction,
) -> bool {
    match state {
        StatusState::Start => match event {
            StatusEvent::Begin => {
                &&& next is ResolveRelease
                &&& action matches StatusAction::Get { url }
                &&& url@ == GITHUB_LATEST_RELEASES_URL@
            },
            _ => status_aborts(StatusError::Unexpected, next, action),
        },
        StatusState::ResolveRelease => match event {
            StatusEvent::Answer { status, body } => status_resolves(
                upstream_release(status, json_document(body@)),
                next,
                action,
            ),
            StatusEvent::NoAnswer => status_aborts(
                StatusError::Upstream(UpstreamError::NoResponse),
                next,
                action,
            ),
            _ => status_aborts(StatusError::Unexpected, next, action),
        },
        StatusState::QueryInstalled { latest } => match event {
            StatusEvent::Queried { output } => status_reports(
                latest@,
                installed_of(output),
                next,
                action,
            ),
            _ => status_aborts(StatusError::Unexpected, next, action),
        },
        StatusState::Done => status_aborts(StatusError::Unexpected, next, action),
    }
}

/// How far a status check has come.
pub open spec fn status_phase(state: StatusState) -> nat {
    match state {
        StatusState::Start => 0,
        StatusState::ResolveRelease => 1,
        StatusState::QueryInstalled { .. } => 2,
        StatusState::Done => 3,
    }
}

/// A status check only moves forward, and the query program is asked only
/// once the latest release is known.
pub proof fn lemma_status_moves_forward(
    state: StatusState,
    event: StatusEvent,
    next: StatusState,
    action: StatusAction,
)
    requires
        status_step(state, event, next, action),
    ensures
        next is Done || status_phase(next) == status_phase(state) + 1,
        next is Done <==> (action is Report || action is Abort),
        action is Query ==> state is ResolveRelease,
        action is Report ==> state is QueryInstalled,
{
}

/// The verdict of a report is `UpToDate` exactly when the two versions of
/// the report are the same text.
pub proof fn lemma_up_to_date_iff_same_text(
    latest: String,
    output: QueryOutput,
    next: StatusState,
    action: StatusAction,
)
    requires
        status_step(
            StatusState::QueryInstalled { latest },
            StatusEvent::Queried { output },
            next,
            action,
        ),
        action is Report,
    ensures
        action->report.verdict == Verdict::UpToDate <==> action->report.installed@
            == action->report.latest@,
{
}

impl Verdict {
    /// The sentence that tells this verdict.
    pub fn message(&self) -> (r: &'static str)
        ensures
            r@ == verdict_message(*self),
    {
        match self {
            Verdict::UpToDate => UP_TO_DATE_MESSAGE,
            Verdict::Outdated => OUTDATED_MESSAGE,
        }
    }
}

/// The verdict on `installed` against `latest`.
pub fn verdict(latest: &str, installed: &str) -> (r: Verdict)
    ensures
        r == verdict_of(latest@, installed@),
{
    if equal(latest, installed) {
        Verdict::UpToDate
    } else {
        Verdict::Outdated
    }
}

/// The installed version that `output` tells.
pub fn installed_version(output: QueryOutput) -> (r: Result<String, ExternalCommandError>)
    ensures
        match r {
            Ok(version) => installed_of(output) == Ok::<Seq<char>, ExternalCommandError>(version@),
            Err(e) => installed_of(output) == Err::<Seq<char>, ExternalCommandError>(e),
        },
{
    match output {
        QueryOutput::NotRun => Err(ExternalCommandError::NotRun),
        QueryOutput::Exited { success, stdout } => {
            if !success {
                return Err(ExternalCommandError::Failed);
            }
            match string_from_utf8(stdout) {
                None => Err(ExternalCommandError::Undecodable),
                Some(text) => Ok(trim(text.as_str())),
            }
        },
    }
}

/// The step from `ResolveRelease`, given what was read out of the answer.
pub fn status_resolved(outcome: Result<Release, UpstreamError>) -> (r: (StatusState, StatusAction))
    ensures
        status_resolves(release_result_view(outcome), r.0, r.1),
{
    match outcome {
        Err(e) => (StatusState::Done, StatusAction::Abort { error: StatusError::Upstream(e) }),
        Ok(release) => (
            StatusState::QueryInstalled { latest: release.version },
            StatusAction::Query {
                program: String::from_str(VERSION_QUERY_PROGRAM),
                flag: String::from_str(VERSION_QUERY_FLAG),
            },
        ),
    }
}

/// The step from `QueryInstalled`, given the installed version.
pub fn status_queried(latest: String, installed: Result<String, ExternalCommandError>) -> (r: (
    StatusState,
    StatusAction,
))
    ensures
        status_reports(
            latest@,
            match installed {
                Ok(version) => Ok(version@),
                Err(e) => Err(e),
            },
            r.0,
            r.1,
        ),
{
    match installed {
        Err(e) => (StatusState::Done, StatusAction::Abort { error: StatusError::Command(e) }),
        Ok(version) => {
            let verdict = verdict(latest.as_str(), version.as_str());
            let report = StatusReport { latest, installed: version, verdict };
            (StatusState::Done, StatusAction::Report { report })
        },
    }
}

/// One step of a status check. The caller does what the action asks for and
/// comes back with the event that tells what came of it, until the action
/// is `Report` or `Abort`.
pub fn status(state: StatusState, event: StatusEvent) -> (r: (StatusState, StatusAction))
    ensures
        status_step(state, event, r.0, r.1),
{
    match state {
        StatusState::Start => match event {
            StatusEvent::Begin => (
                StatusState::ResolveRelease,
                StatusAction::Get { url: String::from_str(GITHUB_LATEST_RELEASES_URL) },
            ),
            _ => (StatusState::Done, StatusAction::Abort { error: StatusError::Unexpected }),
        },
        StatusState::ResolveRelease => match event {
            StatusEvent::Answer { status, body } => {
                let outcome = fetch_release(status, body.as_slice());
                status_resolved(outcome)
            },
            StatusEvent::NoAnswer => (
                StatusState::Done,
                StatusAction::Abort { error: StatusError::Upstream(UpstreamError::NoResponse) },
            ),
            _ => (StatusState::Done, StatusAction::Abort { error: StatusError::Unexpected }),
        },
        StatusState::QueryInstalled { latest } => match event {
            StatusEvent::Queried { output } => {
                let installed = installed_version(output);
                status_queried(latest, installed)
            },
            _ => (StatusState::Done, StatusAction::Abort { error: StatusError::Unexpected }),
        },
        StatusState::Done => (
            StatusState::Done,
            StatusAction::Abort { error: StatusError::Unexpected },
        ),
    }
}

} // verus!
