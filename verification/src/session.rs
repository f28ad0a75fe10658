//! One run of the installation, from the moment the window asks for it to the
//! last report.
use vstd::prelude::*;
use vstd::string::*;

use crate::effect::{
    Action, ActionView, Awaited, Event, EventView, Platform, Turn, TurnView, option_text,
    result_text,
};
use crate::pipeline::{
    InstallMemory, InstallStage, MemoryView, install_can_draw, install_next, install_step,
};
use crate::service::{drawn_for, secret_view};
use crate::telemetry::{Outcome, Report, ReportView};
use crate::window::report_view;

verus! {

/// How long the window is given to appear before the installation begins, in
/// milliseconds.
pub const GRACE_MILLIS: u64 = 120;

/// How far the run has come.
#[derive(Debug, Clone, Copy, PartialEq, Eq, Structural)]
pub enum SessionStage {
    /// Nothing was asked yet.
    Begin,
    /// The window is being given time to appear.
    Painted,
    /// The machine is being asked about itself.
    Measured,
    /// The installation is under way.
    Installing { at: InstallStage },
    /// The last report is being sent.
    Reported,
    /// The failure is being shown.
    Shown,
}

impl SessionStage {
    /// The events that can come in this stage.
    pub open spec fn awaits(self) -> Awaited {
        match self {
            SessionStage::Begin => Awaited::Begin,
            SessionStage::Painted => Awaited::Completion,
            SessionStage::Measured => Awaited::Completion,
            SessionStage::Installing { at } => at.awaits(),
            SessionStage::Reported => Awaited::Completion,
            SessionStage::Shown => Awaited::Completion,
        }
    }
}

/// What the run keeps from one step to the next.
#[derive(Debug)]
pub struct SessionMemory {
    /// What the installation keeps.
    pub install: InstallMemory,
    /// How the installation failed, where it did.
    pub failure: Option<String>,
}

pub ghost struct SessionView {
    pub install: MemoryView,
    pub failure: Option<Seq<char>>,
}

impl View for SessionMemory {
    type V = SessionView;

    open spec fn view(&self) -> SessionView {
        SessionView { install: self.install@, failure: option_text(self.failure) }
    }
}

impl SessionMemory {
    /// Nothing to remember yet.
    pub fn new() -> (memory: SessionMemory)
        ensures
            memory@ == (SessionView {
                install: MemoryView { admin_exe: Seq::empty(), secret: Seq::empty() },
                failure: None,
            }),
    {
        SessionMemory { install: InstallMemory::new(), failure: None }
    }
}

// The end of the installation.

/// The last report, which is always sent. There is none off Windows.
pub open spec fn final_report(platform: Platform, result: Result<(), Seq<char>>) -> Option<
    ReportView,
> {
    match platform {
        Platform::Windows => Some(
            match result {
                Ok(_) => ReportView {
                    outcome: Outcome::Success,
                    error_step: None,
                    error_message: None,
                    force: true,
                },
                Err(message) => ReportView {
                    outcome: Outcome::Error,
                    error_step: Some("run_install"@),
                    error_message: Some(message),
                    force: true,
                },
            },
        ),
        Platform::Other => None,
    }
}

/// Makes the last report.
pub fn last_report(platform: Platform, result: &Result<(), String>) -> (report: Option<Report>)
    ensures
        report_view(report) == final_report(platform, result_text(*result)),
{
    match platform {
        Platform::Windows => match result {
            Ok(_) => Some(
                Report {
                    outcome: Outcome::Success,
                    error_step: None,
                    error_message: None,
                    force: true,
                },
            ),
            Err(message) => Some(
                Report {
                    outcome: Outcome::Error,
                    error_step: Some("run_install".to_string()),
                    error_message: Some(message.clone()),
                    force: true,
                },
            ),
        },
        Platform::Other => None,
    }
}

/// What is left to do after the last report: a failure is shown.
pub open spec fn after_report(memory: SessionView) -> TurnView<SessionStage, ()> {
    match memory.failure {
        Some(message) => TurnView::Ask {
            action: ActionView::ShowError { message },
            stage: SessionStage::Shown,
        },
        None => TurnView::Finish { result: Ok(()) },
    }
}

/// What the end of the installation leads to: the last report, where there is
/// one, and what is left to do after it.
pub open spec fn after_install(
    platform: Platform,
    memory: SessionView,
    result: Result<(), Seq<char>>,
) -> (TurnView<SessionStage, ()>, SessionView) {
    let kept = SessionView {
        failure: match result {
            Ok(_) => None,
            Err(message) => Some(message),
        },
        ..memory
    };
    match final_report(platform, result) {
        Some(report) => (
            TurnView::Ask {
                action: ActionView::SendReport { report },
                stage: SessionStage::Reported,
            },
            kept,
        ),
        None => (after_report(kept), kept),
    }
}

/// A step of the installation, as a step of the whole.
pub open spec fn while_installing(
    platform: Platform,
    memory: SessionView,
    step: (TurnView<InstallStage, ()>, MemoryView),
) -> (TurnView<SessionStage, ()>, SessionView) {
    let kept = SessionView { install: step.1, ..memory };
    match step.0 {
        TurnView::Ask { action, stage: at } => (
            TurnView::Ask { action, stage: SessionStage::Installing { at } },
            kept,
        ),
        TurnView::Finish { result } => after_install(platform, kept, result),
    }
}

/// The step that follows an event, and what is remembered.
pub open spec fn session_next(
    platform: Platform,
    program_data: bool,
    stage: SessionStage,
    memory: SessionView,
    drawn: Result<Seq<char>, Seq<char>>,
    event: EventView,
) -> (TurnView<SessionStage, ()>, SessionView) {
    match stage {
        SessionStage::Begin => (
            TurnView::Ask {
                action: ActionView::Pause { millis: GRACE_MILLIS },
                stage: SessionStage::Painted,
            },
            memory,
        ),
        SessionStage::Painted => match platform {
            Platform::Windows => (
                TurnView::Ask { action: ActionView::BeginReports, stage: SessionStage::Measured },
                memory,
            ),
            Platform::Other => while_installing(
                platform,
                memory,
                install_next(
                    platform,
                    program_data,
                    InstallStage::Begin,
                    memory.install,
                    drawn,
                    EventView::Begin,
                ),
            ),
        },
        SessionStage::Measured => while_installing(
            platform,
            memory,
            install_next(
                platform,
                program_data,
                InstallStage::Begin,
                memory.install,
                drawn,
                EventView::Begin,
            ),
        ),
        SessionStage::Installing { at } => while_installing(
            platform,
            memory,
            install_next(platform, program_data, at, memory.install, drawn, event),
        ),
        SessionStage::Reported => (after_report(memory), memory),
        SessionStage::Shown => (TurnView::Finish { result: Ok(()) }, memory),
    }
}

/// Whether this can be drawn in the step that follows an event.
pub open spec fn session_can_draw(
    stage: SessionStage,
    event: EventView,
    drawn: Result<Seq<char>, Seq<char>>,
) -> bool {
    match stage {
        SessionStage::Installing { at } => install_can_draw(at, event, drawn),
        _ => drawn == Ok::<Seq<char>, Seq<char>>(Seq::empty()),
    }
}

fn failure_shown(memory: &SessionMemory) -> (turn: Turn<SessionStage, ()>)
    ensures
        turn@ == after_report(memory@),
{
    match &memory.failure {
        Some(message) => Turn::Ask {
            action: Action::ShowError { message: message.clone() },
            stage: SessionStage::Shown,
        },
        None => Turn::Finish { result: Ok(()) },
    }
}

fn install_ended(platform: Platform, memory: &mut SessionMemory, result: Result<(), String>) -> (turn:
    Turn<SessionStage, ()>)
    ensures
        (turn@, final(memory)@) == after_install(platform, old(memory)@, result_text(result)),
        turn@ matches TurnView::Ask { action, stage: next } ==> action.awaited() == next.awaits(),
{
    let report = last_report(platform, &result);
    memory.failure = match result {
        Ok(_) => None,
        Err(message) => Some(message),
    };
    match report {
        Some(report) => Turn::Ask {
            action: Action::SendReport { report },
            stage: SessionStage::Reported,
        },
        None => failure_shown(memory),
    }
}

fn installing(
    platform: Platform,
    program_data: bool,
    at: InstallStage,
    memory: &mut SessionMemory,
    drawn: Result<String, String>,
    event: &Event,
) -> (turn: Turn<SessionStage, ()>)
    requires
        event@.answers(at.awaits()),
    ensures
        (turn@, final(memory)@) == while_installing(
            platform,
            old(memory)@,
            install_next(
                platform,
                program_data,
                at,
                old(memory)@.install,
                secret_view(drawn),
                event@,
            ),
        ),
        turn@ matches TurnView::Ask { action, stage: next } ==> action.awaited() == next.awaits(),
{
    match install_step(platform, program_data, at, &mut memory.install, drawn, event) {
        Turn::Ask { action, stage: at } => Turn::Ask {
            action,
            stage: SessionStage::Installing { at },
        },
        Turn::Finish { result } => install_ended(platform, memory, result),
    }
}

/// One step of the run, with the secret of the updater service, or the failure
/// to draw one, given.
pub fn session_step(
    platform: Platform,
    program_data: bool,
    stage: SessionStage,
    memory: &mut SessionMemory,
    drawn: Result<String, String>,
    event: &Event,
) -> (turn: Turn<SessionStage, ()>)
    requires
        event@.answers(stage.awaits()),
    ensures
        (turn@, final(memory)@) == session_next(
            platform,
            program_data,
            stage,
            old(memory)@,
            secret_view(drawn),
            event@,
        ),
        turn@ matches TurnView::Ask { action, stage: next } ==> action.awaited() == next.awaits(),
{
    match stage {
        SessionStage::Begin => Turn::Ask {
            action: Action::Pause { millis: GRACE_MILLIS },
            stage: SessionStage::Painted,
        },
        SessionStage::Painted => match platform {
            Platform::Windows => Turn::Ask {
                action: Action::BeginReports,
                stage: SessionStage::Measured,
            },
            Platform::Other => installing(
                platform,
                program_data,
                InstallStage::Begin,
                memory,
                drawn,
                &Event::Begin,
            ),
        },
        SessionStage::Measured => installing(
            platform,
            program_data,
            InstallStage::Begin,
            memory,
            drawn,
            &Event::Begin,
        ),
        SessionStage::Installing { at } => installing(
            platform,
            program_data,
            at,
            memory,
            drawn,
            event,
        ),
        SessionStage::Reported => failure_shown(memory),
        SessionStage::Shown => Turn::Finish { result: Ok(()) },
    }
}

/// Runs the installation, and sees to what surrounds it: the window is given a
/// moment to appear, the machine is asked about itself for the reports, and at
/// the end the last report is sent and a failure shown.
pub fn run_session(
    platform: Platform,
    program_data: bool,
    stage: SessionStage,
    memory: &mut SessionMemory,
    event: &Event,
) -> (turn: Turn<SessionStage, ()>)
    requires
        event@.answers(stage.awaits()),
    ensures
        exists|drawn: Result<Seq<char>, Seq<char>>|
            {
                &&& session_can_draw(stage, event@, drawn)
                &&& (turn@, final(memory)@) == #[trigger] session_next(
                    platform,
                    program_data,
                    stage,
                    old(memory)@,
                    drawn,
                    event@,
                )
            },
        turn@ matches TurnView::Ask { action, stage: next } ==> action.awaited() == next.awaits(),
{
    let drawn = match stage {
        SessionStage::Installing { at: InstallStage::Updater { at } } => drawn_for(at, event),
        _ => {
            let none = String::new();
            assert(none@ =~= Seq::empty());
            Ok(none)
        },
    };
    session_step(platform, program_data, stage, memory, drawn, event)
}

/// An installation that fails is reported, on Windows, with its message and the
/// step that failed, and the message is shown after that; elsewhere it is shown
/// at once. One that succeeds is reported as well, and nothing is shown.
pub proof fn law_end_is_reported_and_shown(
    platform: Platform,
    program_data: bool,
    at: InstallStage,
    memory: SessionView,
    drawn: Result<Seq<char>, Seq<char>>,
    event: EventView,
    sent: EventView,
)
    requires
        install_next(platform, program_data, at, memory.install, drawn, event).0 is Finish,
    ensures
        ({
            let result = install_next(
                platform,
                program_data,
                at,
                memory.install,
                drawn,
                event,
            ).0->result;
            let (turn, kept) = session_next(
                platform,
                program_data,
                SessionStage::Installing { at },
                memory,
                drawn,
                event,
            );
            let after = if platform is Windows {
                session_next(platform, program_data, SessionStage::Reported, kept, drawn, sent).0
            } else {
                turn
            };
            &&& platform is Windows ==> turn == (TurnView::Ask::<SessionStage, ()> {
                action: ActionView::SendReport { report: final_report(platform, result)->0 },
                stage: SessionStage::Reported,
            })
            &&& after == match result {
                Ok(_) => TurnView::Finish { result: Ok(()) },
                Err(message) => TurnView::Ask::<SessionStage, ()> {
                    action: ActionView::ShowError { message },
                    stage: SessionStage::Shown,
                },
            }
        }),
{
}

/// On Windows the run ends only after the last report, and the installation
/// begins only after the machine was asked about itself. The run itself never
/// fails.
pub proof fn law_session_order(
    platform: Platform,
    program_data: bool,
    stage: SessionStage,
    memory: SessionView,
    drawn: Result<Seq<char>, Seq<char>>,
    event: EventView,
)
    requires
        event.answers(stage.awaits()),
    ensures
        ({
            let turn = session_next(platform, program_data, stage, memory, drawn, event).0;
            &&& turn matches TurnView::Finish { result } ==> result is Ok
            &&& platform is Windows && turn is Finish ==> stage is Reported || stage is Shown
            &&& platform is Windows && (turn matches TurnView::Ask {
                stage: SessionStage::Installing { .. },
                ..
            }) ==> stage is Measured || stage is Installing
            &&& platform is Windows && (turn matches TurnView::Ask {
                stage: SessionStage::Shown,
                ..
            }) ==> stage is Reported
        }),
{
}

/// The last report says how the installation ended, with the whole message of a
/// failure, and is forced.
pub proof fn law_last_report(result: Result<(), Seq<char>>)
    ensures
        final_report(Platform::Windows, result) matches Some(report) && report.force && match result {
            Ok(_) => report.outcome is Success && report.error_step is None
                && report.error_message is None,
            Err(message) => report.outcome is Error && report.error_step == Some("run_install"@)
                && report.error_message == Some(message),
        },
        final_report(Platform::Other, result) is None,
{
}

/// The run goes from a pause of 120 milliseconds, on Windows through the questions
/// about the machine, to the installation, which begins at its beginning, and each
/// of whose requests is passed on as it is. What the installation keeps is kept,
/// and its failure, with the whole message, once it ends.
pub proof fn law_session_steps(
    platform: Platform,
    program_data: bool,
    at: InstallStage,
    memory: SessionView,
    drawn: Result<Seq<char>, Seq<char>>,
    event: EventView,
)
    ensures
        ({
            let step = |stage: SessionStage|
                session_next(platform, program_data, stage, memory, drawn, event);
            let asks = |action: ActionView, stage: SessionStage|
                TurnView::Ask::<SessionStage, ()> { action, stage };
            let (turn, kept) = install_next(
                platform,
                program_data,
                at,
                memory.install,
                drawn,
                event,
            );
            let begun = session_next(
                platform,
                program_data,
                SessionStage::Installing { at: InstallStage::Begin },
                memory,
                drawn,
                EventView::Begin,
            );
            &&& step(SessionStage::Begin) == (
                asks(ActionView::Pause { millis: 120 }, SessionStage::Painted),
                memory,
            )
            &&& step(SessionStage::Painted) == match platform {
                Platform::Windows => (
                    asks(ActionView::BeginReports, SessionStage::Measured),
                    memory,
                ),
                Platform::Other => begun,
            }
            &&& step(SessionStage::Measured) == begun
            &&& turn matches TurnView::Ask { action, stage } ==> step(
                SessionStage::Installing { at },
            ) == (
                asks(action, SessionStage::Installing { at: stage }),
                SessionView { install: kept, failure: memory.failure },
            )
            &&& turn matches TurnView::Finish { result } ==> step(SessionStage::Installing { at }).1
                == (SessionView {
                install: kept,
                failure: match result {
                    Ok(_) => None,
                    Err(message) => Some(message),
                },
            })
            &&& step(SessionStage::Reported) == (
                match memory.failure {
                    Some(message) => asks(ActionView::ShowError { message }, SessionStage::Shown),
                    None => TurnView::Finish { result: Ok(()) },
                },
                memory,
            )
            &&& step(SessionStage::Shown) == (
                TurnView::Finish::<SessionStage, ()> { result: Ok(()) },
                memory,
            )
        }),
{
}

/// A secret can be drawn only while the installation registers the updater service.
pub proof fn law_session_draws_for_install(
    stage: SessionStage,
    at: InstallStage,
    event: EventView,
    drawn: Result<Seq<char>, Seq<char>>,
)
    ensures
        session_can_draw(SessionStage::Installing { at }, event, drawn) <==> install_can_draw(
            at,
            event,
            drawn,
        ),
        !(stage is Installing) ==> (session_can_draw(stage, event, drawn) <==> drawn == Ok::<
            Seq<char>,
            Seq<char>,
        >(Seq::empty())),
{
}

/// What is kept is shown as it is.
pub proof fn law_memory_view(memory: SessionMemory)
    ensures
        memory@.install.admin_exe == memory.install.admin_exe@,
        memory@.install.secret == memory.install.secret@,
        memory@.failure == option_text(memory.failure),
{
}

} // verus!
