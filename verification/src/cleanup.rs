//! The removal of this program once it has done its work.
use vstd::prelude::*;
use vstd::string::*;

use crate::effect::{
    Action, ActionView, Awaited, Event, EventView, Platform, Root, RunMode, Turn, TurnView,
    below, code_message, failure, place,
};
use crate::handoff::{
    AdminExe, LaunchStage, admin_place, launch_admin, launch_next, powershell,
    powershell_command,
};
use crate::number::decimal_signed;
use crate::text::{append_quoted, law_quoted_read_back, quoted, read_literal};

verus! {

/// The script that waits for this program to end, runs its uninstaller, and
/// removes what is left, itself last. It keeps a log of its own.
pub const CLEANUP_SCRIPT: &'static str = r#"$ErrorActionPreference = 'Continue'
$logDir = Join-Path $env:ProgramData 'OctoPOS'
if (-not (Test-Path $logDir)) { New-Item -ItemType Directory -Force -Path $logDir | Out-Null }
$logPath = Join-Path $logDir 'uninstall-log.txt'
function L($msg) { "$([DateTime]::UtcNow.ToString('o')) $msg" | Add-Content -LiteralPath $logPath }

L "=== cleanup ps1 starting; user=$env:USERNAME pid=$PID ==="

# Wait for the bootstrapper to die so NSIS can replace its files.
$waited = 0
while (Get-Process -Name 'octopos-bootstrapper' -ErrorAction SilentlyContinue) {
    if ($waited -gt 60) { L "Bootstrapper still alive after 60s — bailing"; break }
    Start-Sleep -Seconds 1
    $waited++
}
L "Bootstrapper waited $waited s"
Start-Sleep -Seconds 2

try {
    $entry = Get-ItemProperty 'HKLM:\SOFTWARE\Microsoft\Windows\CurrentVersion\Uninstall\*' -ErrorAction SilentlyContinue |
        Where-Object { $_.DisplayName -eq 'OctoPOS Setup' } |
        Select-Object -First 1
    if (-not $entry) { L "No ARP entry for 'OctoPOS Setup' — already gone?" }
    else {
        $u = $entry.UninstallString -replace '^"|"$', ''
        L "Invoking NSIS uninstaller: $u /S"
        $p = Start-Process -FilePath $u -ArgumentList '/S' -Wait -PassThru -ErrorAction Stop
        L "NSIS uninstall finished with exit code $($p.ExitCode)"
    }
} catch {
    L "Uninstall threw: $($_.Exception.Message)"
}

# Best-effort cleanup of leftovers NSIS might miss.
foreach ($shortcut in @(
    (Join-Path $env:PUBLIC 'Desktop\OctoPOS Setup.lnk'),
    (Join-Path $env:USERPROFILE 'Desktop\OctoPOS Setup.lnk')
)) {
    if (Test-Path $shortcut) {
        Remove-Item -Force $shortcut -ErrorAction SilentlyContinue
        L "Removed stray shortcut: $shortcut"
    }
}

L "Removing scheduled task and self"
schtasks /delete /tn 'OctoPOSSetupCleanup' /f *> $null
Remove-Item -Force $MyInvocation.MyCommand.Path -ErrorAction SilentlyContinue
L "=== cleanup ps1 done ==="
"#;

/// The name of the script's file, among the temporary files.
pub const CLEANUP_FILE: &'static str = "octopos-setup-cleanup.ps1";

/// The name of the file that shows that the task was registered.
pub const MARKER_FILE: &'static str = "octopos-cleanup-scheduled.txt";

/// The registration of the task, up to the path of the script.
pub const SCHEDULE_HEAD: &'static str = "$ErrorActionPreference = 'Stop'; $argLine = '-NoProfile -WindowStyle Hidden -ExecutionPolicy Bypass -File \"' + ";

/// Behind the path of the script.
pub const SCHEDULE_NEXT: &'static str = " + '\"'; ";

/// From there to the path of the marker: the task runs the script as the system
/// itself, three quarters of a minute from now.
pub const SCHEDULE_BODY: &'static str = "$action = New-ScheduledTaskAction -Execute 'powershell.exe' -Argument $argLine; $trigger = New-ScheduledTaskTrigger -Once -At ((Get-Date).AddSeconds(45)); $principal = New-ScheduledTaskPrincipal -UserId 'SYSTEM' -LogonType ServiceAccount -RunLevel Highest; $settings = New-ScheduledTaskSettingsSet -AllowStartIfOnBatteries -DontStopIfGoingOnBatteries -StartWhenAvailable -DeleteExpiredTaskAfter ([TimeSpan]::FromMinutes(5)); Register-ScheduledTask -TaskName 'OctoPOSSetupCleanup' -Action $action -Trigger $trigger -Principal $principal -Settings $settings -Force | Out-Null; Set-Content -LiteralPath ";

/// Behind the path of the marker.
pub const SCHEDULE_TAIL: &'static str = " -Value ('scheduled at ' + [DateTime]::UtcNow.ToString('o'))";

/// The script that registers the task.
pub open spec fn schedule_script(script: Seq<char>, marker: Seq<char>) -> Seq<char> {
    SCHEDULE_HEAD@ + quoted(script) + SCHEDULE_NEXT@ + SCHEDULE_BODY@ + quoted(marker)
        + SCHEDULE_TAIL@
}

/// Makes the script that registers the task.
pub fn schedule_command(script: &str, marker: &str) -> (text: String)
    ensures
        text@ == schedule_script(script@, marker@),
{
    let mut text = SCHEDULE_HEAD.to_string();
    append_quoted(&mut text, script);
    text.append(SCHEDULE_NEXT);
    text.append(SCHEDULE_BODY);
    append_quoted(&mut text, marker);
    text.append(SCHEDULE_TAIL);
    text
}

/// How far the registration of the removal has come.
#[derive(Debug, Clone, Copy, PartialEq, Eq, Structural)]
pub enum ScheduleStage {
    /// Nothing was asked yet.
    Begin,
    /// The script's file is being created.
    Created,
    /// And written.
    Written,
    /// Its path was asked for.
    ScriptShown,
    /// And that of the marker.
    MarkerShown,
    /// The task is being registered.
    Registered,
}

impl ScheduleStage {
    /// The events that can come in this stage.
    pub open spec fn awaits(self) -> Awaited {
        match self {
            ScheduleStage::Begin => Awaited::Begin,
            ScheduleStage::Created => Awaited::Completion,
            ScheduleStage::Written => Awaited::Completion,
            ScheduleStage::ScriptShown => Awaited::Text,
            ScheduleStage::MarkerShown => Awaited::Text,
            ScheduleStage::Registered => Awaited::Reply,
        }
    }
}

/// The step that follows an event, and the path of the script.
pub open spec fn schedule_next(stage: ScheduleStage, script: Seq<char>, event: EventView) -> (
    TurnView<ScheduleStage, ()>,
    Seq<char>,
) {
    match (stage, event) {
        (ScheduleStage::Begin, _) => (
            TurnView::Ask {
                action: ActionView::Create { place: below(Root::Temp, CLEANUP_FILE@) },
                stage: ScheduleStage::Created,
            },
            script,
        ),
        (ScheduleStage::Created, EventView::Failed { error }) => (
            TurnView::Finish { result: Err("create cleanup ps1: "@ + error) },
            script,
        ),
        (ScheduleStage::Created, _) => (
            TurnView::Ask {
                action: ActionView::Fill { contents: CLEANUP_SCRIPT@ },
                stage: ScheduleStage::Written,
            },
            script,
        ),
        (ScheduleStage::Written, EventView::Failed { error }) => (
            TurnView::Finish { result: Err("write cleanup ps1: "@ + error) },
            script,
        ),
        (ScheduleStage::Written, _) => (
            TurnView::Ask {
                action: ActionView::Render { place: below(Root::Temp, CLEANUP_FILE@) },
                stage: ScheduleStage::ScriptShown,
            },
            script,
        ),
        (ScheduleStage::ScriptShown, EventView::Rendered { text }) => (
            TurnView::Ask {
                action: ActionView::Render { place: below(Root::Temp, MARKER_FILE@) },
                stage: ScheduleStage::MarkerShown,
            },
            text,
        ),
        (ScheduleStage::MarkerShown, EventView::Rendered { text }) => (
            TurnView::Ask {
                action: ActionView::Run {
                    command: powershell(schedule_script(script, text)),
                    mode: RunMode::Quiet,
                },
                stage: ScheduleStage::Registered,
            },
            script,
        ),
        (ScheduleStage::Registered, EventView::Failed { error }) => (
            TurnView::Finish { result: Err("schedule task: "@ + error) },
            script,
        ),
        (ScheduleStage::Registered, EventView::Exited { .. }) => if event.succeeded() {
            (TurnView::Finish { result: Ok(()) }, script)
        } else {
            (
                TurnView::Finish {
                    result: Err(
                        "Register-ScheduledTask exited with code "@ + decimal_signed(
                            event.shown_code(),
                        ),
                    ),
                },
                script,
            )
        },
        _ => (TurnView::Finish { result: Ok(()) }, script),
    }
}

/// Has the system remove this program after it has ended: leaves the script
/// among the temporary files and registers a task that runs it. `script` keeps
/// its path from one step to the next.
pub fn schedule_self_uninstall(stage: ScheduleStage, script: &mut String, event: &Event) -> (turn: Turn<
    ScheduleStage,
    (),
>)
    requires
        event@.answers(stage.awaits()),
    ensures
        (turn@, final(script)@) == schedule_next(stage, old(script)@, event@),
        turn@ matches TurnView::Ask { action, stage: next } ==> action.awaited() == next.awaits(),
{
    match (stage, event) {
        (ScheduleStage::Begin, _) => Turn::Ask {
            action: Action::Create { place: place(Root::Temp, CLEANUP_FILE) },
            stage: ScheduleStage::Created,
        },
        (ScheduleStage::Created, Event::Failed { error }) => Turn::Finish {
            result: Err(failure("create cleanup ps1: ", error.as_str())),
        },
        (ScheduleStage::Created, _) => Turn::Ask {
            action: Action::Fill { contents: CLEANUP_SCRIPT.to_string() },
            stage: ScheduleStage::Written,
        },
        (ScheduleStage::Written, Event::Failed { error }) => Turn::Finish {
            result: Err(failure("write cleanup ps1: ", error.as_str())),
        },
        (ScheduleStage::Written, _) => Turn::Ask {
            action: Action::Render { place: place(Root::Temp, CLEANUP_FILE) },
            stage: ScheduleStage::ScriptShown,
        },
        (ScheduleStage::ScriptShown, Event::Rendered { text }) => {
            *script = text.clone();
            Turn::Ask {
                action: Action::Render { place: place(Root::Temp, MARKER_FILE) },
                stage: ScheduleStage::MarkerShown,
            }
        },
        (ScheduleStage::MarkerShown, Event::Rendered { text }) => {
            let command = schedule_command(script.as_str(), text.as_str());
            Turn::Ask {
                action: Action::Run {
                    command: powershell_command(command.as_str()),
                    mode: RunMode::Quiet,
                },
                stage: ScheduleStage::Registered,
            }
        },
        (ScheduleStage::Registered, Event::Failed { error }) => Turn::Finish {
            result: Err(failure("schedule task: ", error.as_str())),
        },
        (ScheduleStage::Registered, Event::Exited { .. }) => {
            if event.succeeded() {
                Turn::Finish { result: Ok(()) }
            } else {
                Turn::Finish {
                    result: Err(
                        code_message("Register-ScheduledTask exited with code ", event.shown_code()),
                    ),
                }
            }
        },
        _ => Turn::Finish { result: Ok(()) },
    }
}

/// The literals that the two paths were put into are read as those paths,
/// whatever apostrophes are in them.
pub proof fn law_schedule_script_well_formed(script: Seq<char>, marker: Seq<char>)
    ensures
        read_literal(schedule_script(script, marker).skip(SCHEDULE_HEAD@.len() as int + 1)) == Some(
            (script, SCHEDULE_NEXT@ + SCHEDULE_BODY@ + quoted(marker) + SCHEDULE_TAIL@),
        ),
        read_literal(
            schedule_script(script, marker).skip(
                (SCHEDULE_HEAD@ + quoted(script) + SCHEDULE_NEXT@ + SCHEDULE_BODY@).len() as int
                    + 1,
            ),
        ) == Some((marker, SCHEDULE_TAIL@)),
{
    reveal_strlit(" + '\"'; ");
    reveal_strlit(" -Value ('scheduled at ' + [DateTime]::UtcNow.ToString('o'))");
    let before = SCHEDULE_HEAD@ + quoted(script) + SCHEDULE_NEXT@ + SCHEDULE_BODY@;
    let rest = SCHEDULE_NEXT@ + SCHEDULE_BODY@ + quoted(marker) + SCHEDULE_TAIL@;
    assert(rest[0] == SCHEDULE_NEXT@[0]);
    assert(schedule_script(script, marker).skip(SCHEDULE_HEAD@.len() as int + 1) =~= (quoted(script)
        + rest).skip(1));
    law_quoted_read_back(script, rest);
    assert(schedule_script(script, marker).skip(before.len() as int + 1) =~= (quoted(marker)
        + SCHEDULE_TAIL@).skip(1));
    law_quoted_read_back(marker, SCHEDULE_TAIL@);
}

// The end of this program.

/// How far the end of this program has come.
#[allow(inconsistent_fields)]
#[derive(Debug, Clone, Copy, PartialEq, Eq, Structural)]
pub enum FinalizeStage {
    /// Nothing was asked yet.
    Begin,
    /// The admin is being started.
    Launching { at: LaunchStage },
    /// The removal of this program is being registered.
    Scheduling { at: ScheduleStage },
    /// This process was asked to end.
    Exiting,
}

impl FinalizeStage {
    /// The events that can come in this stage.
    pub open spec fn awaits(self) -> Awaited {
        match self {
            FinalizeStage::Begin => Awaited::Begin,
            FinalizeStage::Launching { at } => at.awaits(),
            FinalizeStage::Scheduling { at } => at.awaits(),
            FinalizeStage::Exiting => Awaited::Completion,
        }
    }

    /// The place of this stage in the order of the stages.
    pub open spec fn rank(self) -> int {
        match self {
            FinalizeStage::Begin => 0,
            FinalizeStage::Launching { at } => match at {
                LaunchStage::Begin => 1,
                LaunchStage::Current => 2,
                LaunchStage::Legacy => 3,
                LaunchStage::Settled { .. } => 4,
                LaunchStage::Started => 5,
            },
            FinalizeStage::Scheduling { at } => match at {
                ScheduleStage::Begin => 6,
                ScheduleStage::Created => 7,
                ScheduleStage::Written => 8,
                ScheduleStage::ScriptShown => 9,
                ScheduleStage::MarkerShown => 10,
                ScheduleStage::Registered => 11,
            },
            FinalizeStage::Exiting => 12,
        }
    }
}

/// The request to end this process.
pub open spec fn exiting() -> TurnView<FinalizeStage, ()> {
    TurnView::Ask { action: ActionView::Exit { code: 0 }, stage: FinalizeStage::Exiting }
}

/// A step of the registration of the removal, as a step of the whole: whatever
/// comes of it, this process ends.
pub open spec fn while_scheduling(turn: TurnView<ScheduleStage, ()>) -> TurnView<FinalizeStage, ()> {
    match turn {
        TurnView::Ask { action, stage: at } => TurnView::Ask {
            action,
            stage: FinalizeStage::Scheduling { at },
        },
        TurnView::Finish { .. } => exiting(),
    }
}

/// A step of the start of the admin, as a step of the whole: whatever comes of
/// it, the removal is registered next.
pub open spec fn while_launching(turn: TurnView<LaunchStage, ()>, script: Seq<char>) -> (
    TurnView<FinalizeStage, ()>,
    Seq<char>,
) {
    match turn {
        TurnView::Ask { action, stage: at } => (
            TurnView::Ask { action, stage: FinalizeStage::Launching { at } },
            script,
        ),
        TurnView::Finish { .. } => {
            let (next, kept) = schedule_next(ScheduleStage::Begin, script, EventView::Begin);
            (while_scheduling(next), kept)
        },
    }
}

/// The step that follows an event, and the path of the script.
pub open spec fn finalize_next(
    platform: Platform,
    stage: FinalizeStage,
    script: Seq<char>,
    event: EventView,
) -> (TurnView<FinalizeStage, ()>, Seq<char>) {
    match stage {
        FinalizeStage::Begin => match platform {
            Platform::Windows => while_launching(
                launch_next(LaunchStage::Begin, EventView::Begin),
                script,
            ),
            Platform::Other => (exiting(), script),
        },
        FinalizeStage::Launching { at } => while_launching(launch_next(at, event), script),
        FinalizeStage::Scheduling { at } => {
            let (next, kept) = schedule_next(at, script, event);
            (while_scheduling(next), kept)
        },
        FinalizeStage::Exiting => (TurnView::Finish { result: Ok(()) }, script),
    }
}

/// One step of the registration of the removal.
fn scheduling(at: ScheduleStage, script: &mut String, event: &Event) -> (turn: Turn<
    FinalizeStage,
    (),
>)
    requires
        event@.answers(at.awaits()),
    ensures
        turn@ == while_scheduling(schedule_next(at, old(script)@, event@).0),
        final(script)@ == schedule_next(at, old(script)@, event@).1,
        turn@ matches TurnView::Ask { action, stage: next } ==> action.awaited() == next.awaits(),
{
    match schedule_self_uninstall(at, script, event) {
        Turn::Ask { action, stage: at } => Turn::Ask {
            action,
            stage: FinalizeStage::Scheduling { at },
        },
        Turn::Finish { .. } => Turn::Ask {
            action: Action::Exit { code: 0 },
            stage: FinalizeStage::Exiting,
        },
    }
}

/// One step of the start of the admin.
fn launching(at: LaunchStage, script: &mut String, event: &Event) -> (turn: Turn<FinalizeStage, ()>)
    requires
        event@.answers(at.awaits()),
    ensures
        (turn@, final(script)@) == while_launching(launch_next(at, event@), old(script)@),
        turn@ matches TurnView::Ask { action, stage: next } ==> action.awaited() == next.awaits(),
{
    match launch_admin(at, event) {
        Turn::Ask { action, stage: at } => Turn::Ask {
            action,
            stage: FinalizeStage::Launching { at },
        },
        Turn::Finish { .. } => scheduling(ScheduleStage::Begin, script, &Event::Begin),
    }
}

/// Ends this program, at the user's word: starts the admin, has this program
/// removed, and ends the process. What goes wrong on the way is let go.
pub fn finalize_install(
    platform: Platform,
    stage: FinalizeStage,
    script: &mut String,
    event: &Event,
) -> (turn: Turn<FinalizeStage, ()>)
    requires
        event@.answers(stage.awaits()),
    ensures
        (turn@, final(script)@) == finalize_next(platform, stage, old(script)@, event@),
        turn@ matches TurnView::Ask { action, stage: next } ==> action.awaited() == next.awaits(),
{
    match stage {
        FinalizeStage::Begin => match platform {
            Platform::Windows => launching(LaunchStage::Begin, script, &Event::Begin),
            Platform::Other => Turn::Ask {
                action: Action::Exit { code: 0 },
                stage: FinalizeStage::Exiting,
            },
        },
        FinalizeStage::Launching { at } => launching(at, script, event),
        FinalizeStage::Scheduling { at } => scheduling(at, script, event),
        FinalizeStage::Exiting => Turn::Finish { result: Ok(()) },
    }
}

/// Nothing keeps this program from ending: no failure is passed on, every step
/// comes nearer to the end, and the end comes only after this process was asked
/// to exit with code zero.
pub proof fn law_finalize_ends(
    platform: Platform,
    stage: FinalizeStage,
    script: Seq<char>,
    event: EventView,
)
    requires
        event.answers(stage.awaits()),
    ensures
        finalize_next(platform, stage, script, event).0 matches TurnView::Finish { result }
            ==> result == Ok::<(), Seq<char>>(()) && stage is Exiting,
        finalize_next(platform, stage, script, event).0 matches TurnView::Ask {
            action,
            stage: next,
        } ==> {
            &&& stage.rank() < next.rank() <= 12
            &&& next is Exiting <==> action == ActionView::Exit { code: 0 }
        },
{
}

/// The admin is started before the removal is registered, so that the user sees
/// it at once: the removal comes only from a stage of the admin's start, or from
/// an earlier one of its own.
pub proof fn law_finalize_order(
    platform: Platform,
    stage: FinalizeStage,
    script: Seq<char>,
    event: EventView,
)
    requires
        event.answers(stage.awaits()),
    ensures
        finalize_next(platform, stage, script, event).0 matches TurnView::Ask {
            stage: FinalizeStage::Scheduling { .. },
            ..
        } ==> stage is Launching || stage is Scheduling,
        platform is Windows ==> (finalize_next(platform, stage, script, event).0 matches TurnView::Ask {
            stage: FinalizeStage::Exiting,
            ..
        } ==> stage is Scheduling),
{
}

/// The task is registered for the script and the marker at the paths that the
/// system gives for them.
pub proof fn law_schedule_uses_both_paths(script: Seq<char>, path: Seq<char>)
    ensures
        schedule_next(
            ScheduleStage::ScriptShown,
            script,
            EventView::Rendered { text: path },
        ).1 == path,
        schedule_next(
            ScheduleStage::MarkerShown,
            script,
            EventView::Rendered { text: path },
        ) == (
            TurnView::Ask::<ScheduleStage, ()> {
                action: ActionView::Run {
                    command: powershell(
                        SCHEDULE_HEAD@ + quoted(script) + SCHEDULE_NEXT@ + SCHEDULE_BODY@ + quoted(
                            path,
                        ) + SCHEDULE_TAIL@,
                    ),
                    mode: RunMode::Quiet,
                },
                stage: ScheduleStage::Registered,
            },
            script,
        ),
{
}

/// The script is left in its file among the temporary files before its path, and
/// then that of the marker, are asked for. Its path is kept once it is known.
pub proof fn law_script_is_left(
    stage: ScheduleStage,
    script: Seq<char>,
    event: EventView,
    path: Seq<char>,
)
    ensures
        ({
            let asks = |action: ActionView, stage: ScheduleStage|
                TurnView::Ask::<ScheduleStage, ()> { action, stage };
            let file = below(Root::Temp, CLEANUP_FILE@);
            &&& schedule_next(ScheduleStage::Begin, script, event).0 == asks(
                ActionView::Create { place: file },
                ScheduleStage::Created,
            )
            &&& schedule_next(ScheduleStage::Created, script, EventView::Done).0 == asks(
                ActionView::Fill { contents: CLEANUP_SCRIPT@ },
                ScheduleStage::Written,
            )
            &&& schedule_next(ScheduleStage::Written, script, EventView::Done).0 == asks(
                ActionView::Render { place: file },
                ScheduleStage::ScriptShown,
            )
            &&& schedule_next(
                ScheduleStage::ScriptShown,
                script,
                EventView::Rendered { text: path },
            ).0 == asks(
                ActionView::Render { place: below(Root::Temp, MARKER_FILE@) },
                ScheduleStage::MarkerShown,
            )
            &&& !(stage is ScriptShown) ==> schedule_next(stage, script, event).1 == script
        }),
{
}

/// The end of this program goes through the start of the admin, step by step, then,
/// whatever came of that, through the registration of the removal from its
/// beginning, and then, whatever came of that, to the end of this process. Off
/// Windows it goes there at once.
pub proof fn law_finalize_steps(
    platform: Platform,
    launching: LaunchStage,
    scheduling: ScheduleStage,
    script: Seq<char>,
    event: EventView,
)
    ensures
        ({
            let asks = |action: ActionView, stage: FinalizeStage|
                TurnView::Ask::<FinalizeStage, ()> { action, stage };
            let exits = asks(ActionView::Exit { code: 0 }, FinalizeStage::Exiting);
            let at = |stage: FinalizeStage| finalize_next(platform, stage, script, event);
            let launched = launch_next(launching, event);
            let (scheduled, kept) = schedule_next(scheduling, script, event);
            &&& at(FinalizeStage::Begin) == match platform {
                Platform::Windows => (
                    asks(
                        ActionView::Probe { place: admin_place(AdminExe::Current) },
                        FinalizeStage::Launching { at: LaunchStage::Current },
                    ),
                    script,
                ),
                Platform::Other => (exits, script),
            }
            &&& at(FinalizeStage::Launching { at: launching }) == match launched {
                TurnView::Ask { action, stage } => (
                    asks(action, FinalizeStage::Launching { at: stage }),
                    script,
                ),
                TurnView::Finish { .. } => (
                    asks(
                        ActionView::Create { place: below(Root::Temp, CLEANUP_FILE@) },
                        FinalizeStage::Scheduling { at: ScheduleStage::Created },
                    ),
                    script,
                ),
            }
            &&& at(FinalizeStage::Scheduling { at: scheduling }) == match scheduled {
                TurnView::Ask { action, stage } => (
                    asks(action, FinalizeStage::Scheduling { at: stage }),
                    kept,
                ),
                TurnView::Finish { .. } => (exits, kept),
            }
            &&& at(FinalizeStage::Exiting) == (
                TurnView::Finish::<FinalizeStage, ()> { result: Ok(()) },
                script,
            )
        }),
{
}

/// The removal counts as registered where, and only where, the script was written
/// and the command ended with code zero; what fails is named.
pub proof fn law_schedule_failures(
    stage: ScheduleStage,
    script: Seq<char>,
    event: EventView,
    error: Seq<char>,
    code: Option<i32>,
    stdout: Seq<u8>,
)
    requires
        event.answers(stage.awaits()),
    ensures
        ({
            let turn = schedule_next(stage, script, event).0;
            &&& (turn matches TurnView::Finish { result: Ok(_) }) <==> (stage is Registered && (event
                matches EventView::Exited { code, .. } && code == Some(0i32)))
            &&& (turn matches TurnView::Finish { result: Err(_) }) <==> ((stage is Created
                || stage is Written || stage is Registered) && (event is Failed)) || (
            stage is Registered && (event matches EventView::Exited { code, .. } && code != Some(
                0i32,
            )))
        }),
        schedule_next(ScheduleStage::Created, script, EventView::Failed { error }).0 == (
        TurnView::Finish::<ScheduleStage, ()> { result: Err("create cleanup ps1: "@ + error) }),
        schedule_next(ScheduleStage::Written, script, EventView::Failed { error }).0 == (
        TurnView::Finish::<ScheduleStage, ()> { result: Err("write cleanup ps1: "@ + error) }),
        schedule_next(ScheduleStage::Registered, script, EventView::Failed { error }).0 == (
        TurnView::Finish::<ScheduleStage, ()> { result: Err("schedule task: "@ + error) }),
        code != Some(0i32) ==> schedule_next(
            ScheduleStage::Registered,
            script,
            EventView::Exited { code, stdout },
        ).0 == (TurnView::Finish::<ScheduleStage, ()> {
            result: Err(
                "Register-ScheduledTask exited with code "@ + decimal_signed(
                    match code {
                        Some(c) => c as int,
                        None => -1,
                    },
                ),
            ),
        }),
{
}

} // verus!
