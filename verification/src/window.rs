//! What the window shows, and what is reported beside it.
use vstd::prelude::*;
use vstd::string::*;

use crate::effect::Platform;
use crate::telemetry::{Outcome, Report, ReportView};

verus! {

/// The name of the event that carries progress.
pub const PROGRESS_EVENT: &'static str = "setup-progress";

/// The name of the event that carries a failure.
pub const ERROR_EVENT: &'static str = "setup-error";

/// The name of the event that carries a line of output.
pub const LOG_EVENT: &'static str = "setup-log";

/// The name of the event that says that the installation is complete.
pub const COMPLETE_EVENT: &'static str = "setup-complete";

/// Progress for the window.
#[derive(Debug)]
pub struct ProgressEvent {
    pub percent: u8,
    pub message: String,
}

/// A failure for the window.
#[derive(Debug)]
pub struct ErrorEvent {
    pub message: String,
}

// The start.

/// Whether the installation was started.
#[derive(Debug)]
pub struct InstallState {
    pub started: bool,
}

impl Default for InstallState {
    fn default() -> (state: InstallState)
        ensures
            !state.started,
    {
        InstallState { started: false }
    }
}

/// Whether a request to start the installation starts it, and the state after
/// it.
pub open spec fn start_next(state: InstallState) -> (bool, InstallState) {
    (!state.started, InstallState { started: true })
}

/// Answers a request to start the installation, which is done once, however
/// often it is asked for.
pub fn start_install(state: &mut InstallState) -> (starts: bool)
    ensures
        (starts, *final(state)) == start_next(*old(state)),
        starts <==> !old(state).started,
        final(state).started,
{
    if state.started {
        return false;
    }
    state.started = true;
    true
}

/// The state after a number of requests.
pub open spec fn state_after(state: InstallState, requests: nat) -> InstallState
    decreases requests,
{
    if requests == 0 {
        state
    } else {
        start_next(state_after(state, (requests - 1) as nat)).1
    }
}

/// Of any number of requests, the first starts the installation, and no other.
pub proof fn law_started_once(state: InstallState, n: nat)
    requires
        !state.started,
    ensures
        start_next(state_after(state, n)).0 <==> n == 0,
    decreases n,
{
    if n > 0 {
        law_started_once(state, (n - 1) as nat);
    }
}

// Progress.

/// What a report of progress comes to: an event for the window, and before it,
/// on Windows, a report on how the installation stands.
#[derive(Debug)]
pub struct Progress {
    pub report: Option<Report>,
    pub event: ProgressEvent,
}

/// The view of a report, where there is one.
pub open spec fn report_view(report: Option<Report>) -> Option<ReportView> {
    match report {
        Some(r) => Some(r@),
        None => None,
    }
}

/// The report that goes with progress. It is not forced, so that most of them
/// are held back.
pub open spec fn progress_report(platform: Platform) -> Option<ReportView> {
    match platform {
        Platform::Windows => Some(
            ReportView {
                outcome: Outcome::InProgress,
                error_step: None,
                error_message: None,
                force: false,
            },
        ),
        Platform::Other => None,
    }
}

/// Makes what a report of progress comes to.
pub fn progress(platform: Platform, percent: u8, message: String) -> (made: Progress)
    ensures
        report_view(made.report) == progress_report(platform),
        made.event.percent == percent,
        made.event.message@ == message@,
{
    let report = match platform {
        Platform::Windows => Some(
            Report {
                outcome: Outcome::InProgress,
                error_step: None,
                error_message: None,
                force: false,
            },
        ),
        Platform::Other => None,
    };
    Progress { report, event: ProgressEvent { percent, message } }
}

/// On Windows progress goes with a report that the installation goes on, which may
/// be held back; elsewhere with none.
pub proof fn law_progress_report()
    ensures
        progress_report(Platform::Windows) == Some(
            ReportView {
                outcome: Outcome::InProgress,
                error_step: None,
                error_message: None,
                force: false,
            },
        ),
        progress_report(Platform::Other) is None,
{
}

/// A report is shown as it is.
pub proof fn law_report_view(report: Option<Report>)
    ensures
        match report {
            Some(r) => report_view(report) == Some(r@),
            None => report_view(report) is None,
        },
{
}

} // verus!
