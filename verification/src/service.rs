//! The updater service that runs beside the admin: where its program goes, the
//! secret it shares with the admin, and how it is registered.
use vstd::prelude::*;
use vstd::string::*;

use crate::effect::{
    Action, ActionView, Awaited, CommandLine, CommandView, Event, EventView, PlaceView, Root,
    RunMode, Turn, TurnView, Word, WordView, below, below2, code_message, failure, place,
    place2, plain, plain_command, text_words, words,
};
use crate::number::{decimal_signed, hex_bytes, hex_text, is_hex, law_hex_bytes_shape};
use crate::random::fill_random;

verus! {

/// How many random bytes make a secret.
pub const SECRET_BYTES: usize = 32;

/// The exit code of `sc create` for a service that is there already.
pub const SERVICE_EXISTS: i32 = 1073;

// The secret.

/// The secret that random bytes make, or the message for a failure to draw
/// them.
pub open spec fn secret_of(drawn: Result<Seq<u8>, Seq<char>>) -> Result<Seq<char>, Seq<char>> {
    match drawn {
        Ok(bytes) => Ok(hex_bytes(bytes)),
        Err(error) => Err("getrandom: "@ + error),
    }
}

/// What was drawn, with its text or bytes.
pub open spec fn drawn_view(drawn: Result<[u8; 32], String>) -> Result<Seq<u8>, Seq<char>> {
    match drawn {
        Ok(bytes) => Ok(bytes@),
        Err(error) => Err(error@),
    }
}

/// A secret, or the message, with its text.
pub open spec fn secret_view(secret: Result<String, String>) -> Result<Seq<char>, Seq<char>> {
    match secret {
        Ok(text) => Ok(text@),
        Err(error) => Err(error@),
    }
}

/// Whether this can come of drawing a secret: 64 hexadecimal digits, or a
/// message that says that drawing failed.
pub open spec fn is_secret_result(secret: Result<Seq<char>, Seq<char>>) -> bool {
    match secret {
        Ok(text) => text.len() == 2 * SECRET_BYTES && is_hex(text),
        Err(error) => "getrandom: "@.is_prefix_of(error),
    }
}

/// Whatever bytes are drawn, what comes of them is a secret or says that
/// drawing failed.
pub proof fn law_secret_shape(drawn: Result<Seq<u8>, Seq<char>>)
    requires
        drawn matches Ok(bytes) ==> bytes.len() == SECRET_BYTES,
    ensures
        is_secret_result(secret_of(drawn)),
{
    match drawn {
        Ok(bytes) => {
            law_hex_bytes_shape(bytes);
        },
        Err(error) => {
            let prefix = "getrandom: "@;
            assert((prefix + error).subrange(0, prefix.len() as int) =~= prefix);
        },
    }
}

/// Makes the secret of the bytes that were drawn.
pub fn secret_from(drawn: Result<[u8; 32], String>) -> (secret: Result<String, String>)
    ensures
        secret_view(secret) == secret_of(drawn_view(drawn)),
{
    match drawn {
        Ok(bytes) => Ok(hex_text(bytes.as_slice())),
        Err(error) => Err(failure("getrandom: ", error.as_str())),
    }
}

/// Draws a secret.
pub fn generate_secret() -> (secret: Result<String, String>)
    ensures
        is_secret_result(secret_view(secret)),
        secret matches Ok(text) ==> text@.len() == 64 && forall|i: int|
            0 <= i < text@.len() ==> ('0' <= #[trigger] text@[i] <= '9' || 'a' <= text@[i] <= 'f'),
        secret matches Err(error) ==> "getrandom: "@.is_prefix_of(error@),
{
    let mut bytes: [u8; 32] = [0u8; 32];
    let drawn = match fill_random(&mut bytes) {
        Ok(_) => Ok(bytes),
        Err(error) => Err(error),
    };
    proof {
        law_secret_shape(drawn_view(drawn));
    }
    secret_from(drawn)
}

// The registration.

/// How far the registration has come: what was asked for last.
#[derive(Debug, Clone, Copy, PartialEq, Eq, Structural)]
pub enum ServiceStage {
    /// Nothing yet.
    Begin,
    /// Whether the packed program is there.
    Bundled,
    /// The directory that it is installed in.
    RootMade,
    /// The end of a service that may be running.
    Stopped,
    /// The removal of a service that may be registered.
    Deleted,
    /// A moment for the system to let go of the file.
    Waited,
    /// The copy of the program.
    Copied,
    /// The secret in the registry.
    SecretRegistered,
    /// The directory for the secret's file.
    SecretDirMade,
    /// The secret's file.
    SecretWritten,
    /// The service.
    Created,
    /// Its start.
    Started,
}

impl ServiceStage {
    /// The events that can come in this stage.
    pub open spec fn awaits(self) -> Awaited {
        match self {
            ServiceStage::Begin => Awaited::Begin,
            ServiceStage::Bundled => Awaited::Presence,
            ServiceStage::RootMade => Awaited::Completion,
            ServiceStage::Stopped => Awaited::Reply,
            ServiceStage::Deleted => Awaited::Reply,
            ServiceStage::Waited => Awaited::Completion,
            ServiceStage::Copied => Awaited::Completion,
            ServiceStage::SecretRegistered => Awaited::Reply,
            ServiceStage::SecretDirMade => Awaited::Completion,
            ServiceStage::SecretWritten => Awaited::Completion,
            ServiceStage::Created => Awaited::Reply,
            ServiceStage::Started => Awaited::Reply,
        }
    }

    /// The place of this stage in the order of the stages.
    pub open spec fn rank(self) -> int {
        match self {
            ServiceStage::Begin => 0,
            ServiceStage::Bundled => 1,
            ServiceStage::RootMade => 2,
            ServiceStage::Stopped => 3,
            ServiceStage::Deleted => 4,
            ServiceStage::Waited => 5,
            ServiceStage::Copied => 6,
            ServiceStage::SecretRegistered => 7,
            ServiceStage::SecretDirMade => 8,
            ServiceStage::SecretWritten => 9,
            ServiceStage::Created => 10,
            ServiceStage::Started => 11,
        }
    }
}

/// The program as it was packed.
pub open spec fn bundled_updater() -> PlaceView {
    below2(Root::Resources, "embedded"@, "octopos-updater.exe"@)
}

/// The program as it is installed, out of the reach of the installer's own
/// removal.
pub open spec fn installed_updater() -> PlaceView {
    below2(Root::ProgramFiles, "OctoPOS Updater"@, "octopos-updater.exe"@)
}

/// The words of the command that puts the secret into the registry.
pub open spec fn secret_words(secret: Seq<char>) -> Seq<Seq<char>> {
    seq![
        "add"@,
        "HKLM\\Software\\OctoPOS"@,
        "/v"@,
        "UpdaterSecret"@,
        "/t"@,
        "REG_SZ"@,
        "/d"@,
        secret,
        "/f"@,
    ]
}

/// The command that registers the service.
pub open spec fn create_command() -> CommandView {
    CommandView {
        program: WordView::Text("sc"@),
        args: words(seq!["create"@, "OctoPOSUpdater"@, "binPath="@]).push(
            WordView::Path(installed_updater()),
        ) + words(seq!["start="@, "auto"@, "DisplayName="@, "OctoPOS Updater Service"@]),
        env: Seq::empty(),
    }
}

/// What was asked for in each stage; nothing was in the first, which stands with
/// the second.
pub open spec fn service_request(stage: ServiceStage, secret: Seq<char>) -> ActionView {
    match stage {
        ServiceStage::Begin | ServiceStage::Bundled => ActionView::Probe {
            place: bundled_updater(),
        },
        ServiceStage::RootMade => ActionView::MakeDirs {
            place: below(Root::ProgramFiles, "OctoPOS Updater"@),
        },
        ServiceStage::Stopped => ActionView::Run {
            command: plain("sc"@, seq!["stop"@, "OctoPOSUpdater"@]),
            mode: RunMode::Status,
        },
        ServiceStage::Deleted => ActionView::Run {
            command: plain("sc"@, seq!["delete"@, "OctoPOSUpdater"@]),
            mode: RunMode::Status,
        },
        ServiceStage::Waited => ActionView::Pause { millis: 500 },
        ServiceStage::Copied => ActionView::Copy {
            from: bundled_updater(),
            to: installed_updater(),
        },
        ServiceStage::SecretRegistered => ActionView::Run {
            command: plain("reg"@, secret_words(secret)),
            mode: RunMode::Status,
        },
        ServiceStage::SecretDirMade => ActionView::MakeDirs {
            place: below(Root::ProgramData, "OctoPOS"@),
        },
        ServiceStage::SecretWritten => ActionView::Write {
            place: below2(Root::ProgramData, "OctoPOS"@, "updater-secret"@),
            contents: secret,
        },
        ServiceStage::Created => ActionView::Run {
            command: create_command(),
            mode: RunMode::Status,
        },
        ServiceStage::Started => ActionView::Run {
            command: plain("sc"@, seq!["start"@, "OctoPOSUpdater"@]),
            mode: RunMode::Status,
        },
    }
}

/// Whether the step that follows an event draws the secret.
pub open spec fn draws_secret(stage: ServiceStage, event: EventView) -> bool {
    stage is Copied && event is Done
}

/// Whether this can be drawn in the step that follows an event: a secret, or a
/// failure to draw one, where the step draws it, and nothing elsewhere.
pub open spec fn can_be_drawn(
    stage: ServiceStage,
    event: EventView,
    drawn: Result<Seq<char>, Seq<char>>,
) -> bool {
    if draws_secret(stage, event) {
        is_secret_result(drawn)
    } else {
        drawn == Ok::<Seq<char>, Seq<char>>(Seq::empty())
    }
}

/// What the step that follows an event leads to: the next stage, the end, or a
/// failure. `drawn` is the secret, or the failure to draw one, where the step
/// draws it; `program_data` says whether there is a place for the secret's
/// file.
pub open spec fn service_outcome(
    stage: ServiceStage,
    program_data: bool,
    drawn: Result<Seq<char>, Seq<char>>,
    event: EventView,
) -> Result<Option<ServiceStage>, Seq<char>> {
    match (stage, event) {
        (ServiceStage::Begin, _) => Ok(Some(ServiceStage::Bundled)),
        (ServiceStage::Bundled, EventView::Missing { debug, .. }) => Err(
            "octopos-updater.exe no encontrado en "@ + debug,
        ),
        (ServiceStage::Bundled, _) => Ok(Some(ServiceStage::RootMade)),
        (ServiceStage::RootMade, EventView::Failed { error }) => Err(
            "create_dir_all updater root: "@ + error,
        ),
        (ServiceStage::RootMade, _) => Ok(Some(ServiceStage::Stopped)),
        (ServiceStage::Stopped, _) => Ok(Some(ServiceStage::Deleted)),
        (ServiceStage::Deleted, _) => Ok(Some(ServiceStage::Waited)),
        (ServiceStage::Waited, _) => Ok(Some(ServiceStage::Copied)),
        (ServiceStage::Copied, EventView::Failed { error }) => Err(
            "copy updater binary: "@ + error,
        ),
        (ServiceStage::Copied, _) => match drawn {
            Ok(_) => Ok(Some(ServiceStage::SecretRegistered)),
            Err(error) => Err(error),
        },
        (ServiceStage::SecretRegistered, EventView::Failed { error }) => Err("reg add: "@ + error),
        (ServiceStage::SecretRegistered, _) => if program_data {
            Ok(Some(ServiceStage::SecretDirMade))
        } else {
            Ok(Some(ServiceStage::Created))
        },
        (ServiceStage::SecretDirMade, _) => Ok(Some(ServiceStage::SecretWritten)),
        (ServiceStage::SecretWritten, EventView::Failed { error }) => Err("write secret: "@ + error),
        (ServiceStage::SecretWritten, _) => Ok(Some(ServiceStage::Created)),
        (ServiceStage::Created, EventView::Exited { code, .. }) => if code != Some(0i32) && code
            != Some(SERVICE_EXISTS) {
            Err("sc create fallo con codigo "@ + decimal_signed(event.shown_code()))
        } else {
            Ok(Some(ServiceStage::Started))
        },
        (ServiceStage::Created, _) => Ok(Some(ServiceStage::Started)),
        (ServiceStage::Started, _) => Ok(None),
    }
}

/// The step that follows an event, and the secret.
pub open spec fn service_next(
    stage: ServiceStage,
    program_data: bool,
    secret: Seq<char>,
    drawn: Result<Seq<char>, Seq<char>>,
    event: EventView,
) -> (TurnView<ServiceStage, ()>, Seq<char>) {
    let kept = if draws_secret(stage, event) && drawn is Ok {
        drawn->Ok_0
    } else {
        secret
    };
    match service_outcome(stage, program_data, drawn, event) {
        Ok(Some(next)) => (
            TurnView::Ask { action: service_request(next, kept), stage: next },
            kept,
        ),
        Ok(None) => (TurnView::Finish { result: Ok(()) }, kept),
        Err(error) => (TurnView::Finish { result: Err(error) }, kept),
    }
}

fn create_service() -> (command: CommandLine)
    ensures
        command@ == create_command(),
{
    let mut args = text_words(&["create", "OctoPOSUpdater", "binPath="]);
    assert(args@.map_values(|w: Word| w@) =~= words(
        seq!["create"@, "OctoPOSUpdater"@, "binPath="@],
    ));
    args.push(Word::Path(place2(Root::ProgramFiles, "OctoPOS Updater", "octopos-updater.exe")));
    let mut more = text_words(&["start=", "auto", "DisplayName=", "OctoPOS Updater Service"]);
    assert(more@.map_values(|w: Word| w@) =~= words(
        seq!["start="@, "auto"@, "DisplayName="@, "OctoPOS Updater Service"@],
    ));
    args.append(&mut more);
    let command = CommandLine { program: Word::Text("sc".to_string()), args, env: Vec::new() };
    assert(command@.args =~= create_command().args);
    assert(command@.env =~= Seq::empty());
    command
}

fn control_service(verb: &str) -> (command: CommandLine)
    ensures
        command@ == plain("sc"@, seq![verb@, "OctoPOSUpdater"@]),
{
    let command = plain_command("sc", &[verb, "OctoPOSUpdater"]);
    assert(command@.args =~= words(seq![verb@, "OctoPOSUpdater"@]));
    command
}

fn register_secret(secret: &str) -> (command: CommandLine)
    ensures
        command@ == plain("reg"@, secret_words(secret@)),
{
    let command = plain_command(
        "reg",
        &[
            "add",
            "HKLM\\Software\\OctoPOS",
            "/v",
            "UpdaterSecret",
            "/t",
            "REG_SZ",
            "/d",
            secret,
            "/f",
        ],
    );
    assert(command@.args =~= words(secret_words(secret@)));
    command
}

/// Makes the request of a stage.
fn request_of(stage: ServiceStage, secret: &str) -> (action: Action)
    ensures
        action@ == service_request(stage, secret@),
{
    match stage {
        ServiceStage::Begin | ServiceStage::Bundled => Action::Probe {
            place: place2(Root::Resources, "embedded", "octopos-updater.exe"),
        },
        ServiceStage::RootMade => Action::MakeDirs {
            place: place(Root::ProgramFiles, "OctoPOS Updater"),
        },
        ServiceStage::Stopped => Action::Run {
            command: control_service("stop"),
            mode: RunMode::Status,
        },
        ServiceStage::Deleted => Action::Run {
            command: control_service("delete"),
            mode: RunMode::Status,
        },
        ServiceStage::Waited => Action::Pause { millis: 500 },
        ServiceStage::Copied => Action::Copy {
            from: place2(Root::Resources, "embedded", "octopos-updater.exe"),
            to: place2(Root::ProgramFiles, "OctoPOS Updater", "octopos-updater.exe"),
        },
        ServiceStage::SecretRegistered => Action::Run {
            command: register_secret(secret),
            mode: RunMode::Status,
        },
        ServiceStage::SecretDirMade => Action::MakeDirs {
            place: place(Root::ProgramData, "OctoPOS"),
        },
        ServiceStage::SecretWritten => Action::Write {
            place: place2(Root::ProgramData, "OctoPOS", "updater-secret"),
            contents: secret.to_string(),
        },
        ServiceStage::Created => Action::Run { command: create_service(), mode: RunMode::Status },
        ServiceStage::Started => Action::Run {
            command: control_service("start"),
            mode: RunMode::Status,
        },
    }
}

/// One step of the registration, with the secret, or the failure to draw one,
/// given. `secret` keeps it from one step to the next.
pub fn service_step(
    stage: ServiceStage,
    program_data: bool,
    secret: &mut String,
    drawn: Result<String, String>,
    event: &Event,
) -> (turn: Turn<ServiceStage, ()>)
    requires
        event@.answers(stage.awaits()),
    ensures
        (turn@, final(secret)@) == service_next(
            stage,
            program_data,
            old(secret)@,
            secret_view(drawn),
            event@,
        ),
        turn@ matches TurnView::Ask { action, stage: next } ==> action.awaited() == next.awaits(),
{
    let next: ServiceStage = match (stage, event) {
        (ServiceStage::Begin, _) => ServiceStage::Bundled,
        (ServiceStage::Bundled, Event::Missing { debug, .. }) => {
            return Turn::Finish {
                result: Err(failure("octopos-updater.exe no encontrado en ", debug.as_str())),
            };
        },
        (ServiceStage::Bundled, _) => ServiceStage::RootMade,
        (ServiceStage::RootMade, Event::Failed { error }) => {
            return Turn::Finish {
                result: Err(failure("create_dir_all updater root: ", error.as_str())),
            };
        },
        (ServiceStage::RootMade, _) => ServiceStage::Stopped,
        (ServiceStage::Stopped, _) => ServiceStage::Deleted,
        (ServiceStage::Deleted, _) => ServiceStage::Waited,
        (ServiceStage::Waited, _) => ServiceStage::Copied,
        (ServiceStage::Copied, Event::Failed { error }) => {
            return Turn::Finish {
                result: Err(failure("copy updater binary: ", error.as_str())),
            };
        },
        (ServiceStage::Copied, _) => match drawn {
            Ok(text) => {
                *secret = text;
                ServiceStage::SecretRegistered
            },
            Err(error) => {
                return Turn::Finish { result: Err(error) };
            },
        },
        (ServiceStage::SecretRegistered, Event::Failed { error }) => {
            return Turn::Finish { result: Err(failure("reg add: ", error.as_str())) };
        },
        (ServiceStage::SecretRegistered, _) => if program_data {
            ServiceStage::SecretDirMade
        } else {
            ServiceStage::Created
        },
        (ServiceStage::SecretDirMade, _) => ServiceStage::SecretWritten,
        (ServiceStage::SecretWritten, Event::Failed { error }) => {
            return Turn::Finish { result: Err(failure("write secret: ", error.as_str())) };
        },
        (ServiceStage::SecretWritten, _) => ServiceStage::Created,
        (ServiceStage::Created, Event::Exited { code, .. }) => {
            let known: bool = match code {
                Some(c) => *c == 0 || *c == SERVICE_EXISTS,
                None => false,
            };
            if !known {
                return Turn::Finish {
                    result: Err(code_message("sc create fallo con codigo ", event.shown_code())),
                };
            }
            ServiceStage::Started
        },
        (ServiceStage::Created, _) => ServiceStage::Started,
        (ServiceStage::Started, _) => {
            return Turn::Finish { result: Ok(()) };
        },
    };
    Turn::Ask { action: request_of(next, secret.as_str()), stage: next }
}

/// Draws the secret, where the step that follows an event does so.
pub(crate) fn drawn_for(stage: ServiceStage, event: &Event) -> (drawn: Result<String, String>)
    ensures
        can_be_drawn(stage, event@, secret_view(drawn)),
{
    match (stage, event) {
        (ServiceStage::Copied, Event::Done) => generate_secret(),
        _ => {
            let none = String::new();
            assert(none@ =~= Seq::empty());
            Ok(none)
        },
    }
}

/// Registers the updater service: copies its program out of the installer's
/// own directory, draws the secret and leaves it in the registry and in a file,
/// and creates and starts the service.
pub fn register_companion_service(
    stage: ServiceStage,
    program_data: bool,
    secret: &mut String,
    event: &Event,
) -> (turn: Turn<ServiceStage, ()>)
    requires
        event@.answers(stage.awaits()),
    ensures
        exists|drawn: Result<Seq<char>, Seq<char>>|
            {
                &&& can_be_drawn(stage, event@, drawn)
                &&& (turn@, final(secret)@) == #[trigger] service_next(
                    stage,
                    program_data,
                    old(secret)@,
                    drawn,
                    event@,
                )
            },
        turn@ matches TurnView::Ask { action, stage: next } ==> action.awaited() == next.awaits(),
{
    let drawn = drawn_for(stage, event);
    service_step(stage, program_data, secret, drawn, event)
}

/// A step draws on the secret only where it says so: elsewhere it does not
/// depend on what would be drawn.
pub proof fn law_secret_drawn_once(
    stage: ServiceStage,
    program_data: bool,
    secret: Seq<char>,
    drawn: Result<Seq<char>, Seq<char>>,
    other: Result<Seq<char>, Seq<char>>,
    event: EventView,
)
    requires
        event.answers(stage.awaits()),
        !draws_secret(stage, event),
    ensures
        service_next(stage, program_data, secret, drawn, event) == service_next(
            stage,
            program_data,
            secret,
            other,
            event,
        ),
        service_next(stage, program_data, secret, drawn, event).1 == secret,
{
}

/// The requests come in the order of the stages: each leads to the next stage,
/// but for the two of the secret's file, which are left out where there is no
/// place for it. So the old service is stopped and deleted, and the pause made,
/// before the program is overwritten; the secret is in the registry before the
/// service is created; and every request is made at most once.
pub proof fn law_service_order(
    stage: ServiceStage,
    program_data: bool,
    secret: Seq<char>,
    drawn: Result<Seq<char>, Seq<char>>,
    event: EventView,
)
    requires
        event.answers(stage.awaits()),
    ensures
        service_next(stage, program_data, secret, drawn, event).0 matches TurnView::Ask {
            action,
            stage: next,
        } ==> {
            &&& action == service_request(
                next,
                service_next(stage, program_data, secret, drawn, event).1,
            )
            &&& next.rank() == stage.rank() + 1 || (stage is SecretRegistered && next is Created
                && !program_data)
        },
{
}

/// The registration succeeds only from its last stage, which is reached only
/// where `sc create` could not be run, made the service, or found it there.
pub proof fn law_service_started(
    stage: ServiceStage,
    program_data: bool,
    secret: Seq<char>,
    drawn: Result<Seq<char>, Seq<char>>,
    event: EventView,
)
    requires
        event.answers(stage.awaits()),
    ensures
        service_next(stage, program_data, secret, drawn, event).0 matches TurnView::Finish {
            result: Ok(()),
        } ==> stage is Started,
        service_next(stage, program_data, secret, drawn, event).0 matches TurnView::Ask {
            stage: ServiceStage::Started,
            ..
        } ==> stage is Created && (event is Failed || (event matches EventView::Exited {
            code: Some(code),
            ..
        } && (code == 0 || code == SERVICE_EXISTS))),
{
}

/// A service that is not there, or does not stop, is no failure: whatever comes
/// of stopping and deleting it, the registration goes on.
pub proof fn law_old_service_may_be_missing(
    program_data: bool,
    secret: Seq<char>,
    drawn: Result<Seq<char>, Seq<char>>,
    event: EventView,
)
    ensures
        service_next(ServiceStage::Stopped, program_data, secret, drawn, event).0 == (
        TurnView::Ask::<ServiceStage, ()> {
            action: service_request(ServiceStage::Deleted, secret),
            stage: ServiceStage::Deleted,
        }),
        service_next(ServiceStage::Deleted, program_data, secret, drawn, event).0 == (
        TurnView::Ask::<ServiceStage, ()> {
            action: service_request(ServiceStage::Waited, secret),
            stage: ServiceStage::Waited,
        }),
{
}

/// Which replies end the registration: that the packed program is missing, that its
/// directory, its copy or the secret's file cannot be made, that no secret can be
/// drawn, that the registry cannot be written, and that the service cannot be
/// created. Codes zero and 1073, which says that it is there already, let it go on.
pub proof fn law_service_failures(
    stage: ServiceStage,
    program_data: bool,
    secret: Seq<char>,
    drawn: Result<Seq<char>, Seq<char>>,
    event: EventView,
)
    requires
        event.answers(stage.awaits()),
    ensures
        (service_next(stage, program_data, secret, drawn, event).0 matches TurnView::Finish {
            result: Err(_),
        }) <==> match stage {
            ServiceStage::Bundled => event is Missing,
            ServiceStage::RootMade => event is Failed,
            ServiceStage::Copied => event is Failed || drawn is Err,
            ServiceStage::SecretRegistered => event is Failed,
            ServiceStage::SecretWritten => event is Failed,
            ServiceStage::Created => event matches EventView::Exited { code, .. } && code != Some(
                0i32,
            ) && code != Some(1073i32),
            _ => false,
        },
        (service_next(stage, program_data, secret, drawn, event).0 matches TurnView::Finish {
            result: Ok(_),
        }) <==> stage is Started,
{
}

/// What fails is named.
pub proof fn law_service_messages(
    program_data: bool,
    secret: Seq<char>,
    drawn: Result<Seq<char>, Seq<char>>,
    error: Seq<char>,
    display: Seq<char>,
    code: Option<i32>,
    stdout: Seq<u8>,
)
    ensures
        ({
            let at = |stage: ServiceStage, event: EventView|
                service_next(stage, program_data, secret, drawn, event).0;
            let ends = |message: Seq<char>|
                TurnView::Finish::<ServiceStage, ()> { result: Err(message) };
            let failed = EventView::Failed { error };
            &&& at(ServiceStage::Bundled, EventView::Missing { display, debug: error }) == ends(
                "octopos-updater.exe no encontrado en "@ + error,
            )
            &&& at(ServiceStage::RootMade, failed) == ends("create_dir_all updater root: "@ + error)
            &&& at(ServiceStage::Copied, failed) == ends("copy updater binary: "@ + error)
            &&& drawn matches Err(reason) ==> at(ServiceStage::Copied, EventView::Done) == ends(
                reason,
            )
            &&& at(ServiceStage::SecretRegistered, failed) == ends("reg add: "@ + error)
            &&& at(ServiceStage::SecretWritten, failed) == ends("write secret: "@ + error)
            &&& code != Some(0i32) && code != Some(1073i32) ==> at(
                ServiceStage::Created,
                EventView::Exited { code, stdout },
            ) == ends(
                "sc create fallo con codigo "@ + decimal_signed(
                    match code {
                        Some(c) => c as int,
                        None => -1,
                    },
                ),
            )
        }),
{
}

/// The secret that was drawn is what is put into the registry and kept, as it is,
/// and what was kept is what is put into the file.
pub proof fn law_secret_is_put_down(
    program_data: bool,
    before: Seq<char>,
    secret: Seq<char>,
    drawn: Result<Seq<char>, Seq<char>>,
    event: EventView,
)
    requires
        event.answers(Awaited::Completion),
    ensures
        ({
            let (turn, kept) = service_next(
                ServiceStage::Copied,
                program_data,
                before,
                Ok(secret),
                EventView::Done,
            );
            &&& kept == secret
            &&& turn matches TurnView::Ask { action: ActionView::Run { command, .. }, stage }
                && stage is SecretRegistered && command.program == WordView::Text("reg"@)
                && command.args == seq![
                WordView::Text("add"@),
                WordView::Text("HKLM\\Software\\OctoPOS"@),
                WordView::Text("/v"@),
                WordView::Text("UpdaterSecret"@),
                WordView::Text("/t"@),
                WordView::Text("REG_SZ"@),
                WordView::Text("/d"@),
                WordView::Text(secret),
                WordView::Text("/f"@),
            ]
        }),
        service_next(ServiceStage::SecretDirMade, program_data, secret, drawn, event) == (
            TurnView::Ask::<ServiceStage, ()> {
                action: ActionView::Write {
                    place: PlaceView {
                        root: Root::ProgramData,
                        tail: seq!["OctoPOS"@, "updater-secret"@],
                    },
                    contents: secret,
                },
                stage: ServiceStage::SecretWritten,
            },
            secret,
        ),
{
    assert(words(secret_words(secret)) =~= seq![
        WordView::Text("add"@),
        WordView::Text("HKLM\\Software\\OctoPOS"@),
        WordView::Text("/v"@),
        WordView::Text("UpdaterSecret"@),
        WordView::Text("/t"@),
        WordView::Text("REG_SZ"@),
        WordView::Text("/d"@),
        WordView::Text(secret),
        WordView::Text("/f"@),
    ]);
}

/// A secret is the bytes that were drawn, all of them, in hexadecimal digits, and a
/// failure to draw them is named.
pub proof fn law_secret_of(bytes: Seq<u8>, error: Seq<char>)
    ensures
        secret_of(Ok(bytes)) == Ok::<Seq<char>, Seq<char>>(hex_bytes(bytes)),
        secret_of(Err(error)) == Err::<Seq<char>, Seq<char>>("getrandom: "@ + error),
{
}

/// What can be drawn: 64 lower-case hexadecimal digits, or a message that says that
/// drawing failed, once the program is copied, and nothing at any other time.
pub proof fn law_what_is_drawn(
    stage: ServiceStage,
    event: EventView,
    drawn: Result<Seq<char>, Seq<char>>,
)
    ensures
        draws_secret(stage, event) <==> stage is Copied && event is Done,
        stage is Copied && event is Done ==> (can_be_drawn(stage, event, drawn) <==> match drawn {
            Ok(text) => text.len() == 64 && forall|i: int|
                0 <= i < text.len() ==> ('0' <= #[trigger] text[i] <= '9' || 'a' <= text[i] <= 'f'),
            Err(error) => "getrandom: "@.is_prefix_of(error),
        }),
        !(stage is Copied && event is Done) ==> (can_be_drawn(stage, event, drawn) <==> drawn == Ok::<
            Seq<char>,
            Seq<char>,
        >(Seq::empty())),
{
}

/// What the registration asks for in each stage, whatever the secret is.
pub proof fn law_service_requests(secret: Seq<char>)
    ensures
        ({
            let run = |command: CommandView|
                ActionView::Run { command, mode: RunMode::Status };
            let packed = below2(Root::Resources, "embedded"@, "octopos-updater.exe"@);
            let installed = below2(
                Root::ProgramFiles,
                "OctoPOS Updater"@,
                "octopos-updater.exe"@,
            );
            &&& service_request(ServiceStage::Bundled, secret) == (ActionView::Probe {
                place: packed,
            })
            &&& service_request(ServiceStage::RootMade, secret) == (ActionView::MakeDirs {
                place: below(Root::ProgramFiles, "OctoPOS Updater"@),
            })
            &&& service_request(ServiceStage::Stopped, secret) == run(
                plain("sc"@, seq!["stop"@, "OctoPOSUpdater"@]),
            )
            &&& service_request(ServiceStage::Deleted, secret) == run(
                plain("sc"@, seq!["delete"@, "OctoPOSUpdater"@]),
            )
            &&& service_request(ServiceStage::Waited, secret) == (ActionView::Pause { millis: 500 })
            &&& service_request(ServiceStage::Copied, secret) == (ActionView::Copy {
                from: packed,
                to: installed,
            })
            &&& service_request(ServiceStage::SecretRegistered, secret) == run(
                plain(
                    "reg"@,
                    seq![
                        "add"@,
                        "HKLM\\Software\\OctoPOS"@,
                        "/v"@,
                        "UpdaterSecret"@,
                        "/t"@,
                        "REG_SZ"@,
                        "/d"@,
                        secret,
                        "/f"@,
                    ],
                ),
            )
            &&& service_request(ServiceStage::SecretDirMade, secret) == (ActionView::MakeDirs {
                place: below(Root::ProgramData, "OctoPOS"@),
            })
            &&& service_request(ServiceStage::SecretWritten, secret) == (ActionView::Write {
                place: below2(Root::ProgramData, "OctoPOS"@, "updater-secret"@),
                contents: secret,
            })
            &&& service_request(ServiceStage::Created, secret) == run(
                CommandView {
                    program: WordView::Text("sc"@),
                    args: seq![
                        WordView::Text("create"@),
                        WordView::Text("OctoPOSUpdater"@),
                        WordView::Text("binPath="@),
                        WordView::Path(installed),
                        WordView::Text("start="@),
                        WordView::Text("auto"@),
                        WordView::Text("DisplayName="@),
                        WordView::Text("OctoPOS Updater Service"@),
                    ],
                    env: Seq::empty(),
                },
            )
            &&& service_request(ServiceStage::Started, secret) == run(
                plain("sc"@, seq!["start"@, "OctoPOSUpdater"@]),
            )
        }),
{
    assert(create_command().args =~= seq![
        WordView::Text("create"@),
        WordView::Text("OctoPOSUpdater"@),
        WordView::Text("binPath="@),
        WordView::Path(installed_updater()),
        WordView::Text("start="@),
        WordView::Text("auto"@),
        WordView::Text("DisplayName="@),
        WordView::Text("OctoPOS Updater Service"@),
    ]);
}

/// Where the registration goes on, each stage leads to the next, with the request
/// of that stage. The secret's file is left out where there is no place for it, and
/// only there.
pub proof fn law_service_goes_on(
    stage: ServiceStage,
    program_data: bool,
    secret: Seq<char>,
    drawn: Result<Seq<char>, Seq<char>>,
    event: EventView,
)
    ensures
        ({
            let (turn, kept) = service_next(stage, program_data, secret, drawn, event);
            turn matches TurnView::Ask { action, stage: next } ==> {
                &&& action == service_request(next, kept)
                &&& next == match stage {
                    ServiceStage::Begin => ServiceStage::Bundled,
                    ServiceStage::Bundled => ServiceStage::RootMade,
                    ServiceStage::RootMade => ServiceStage::Stopped,
                    ServiceStage::Stopped => ServiceStage::Deleted,
                    ServiceStage::Deleted => ServiceStage::Waited,
                    ServiceStage::Waited => ServiceStage::Copied,
                    ServiceStage::Copied => ServiceStage::SecretRegistered,
                    ServiceStage::SecretRegistered => if program_data {
                        ServiceStage::SecretDirMade
                    } else {
                        ServiceStage::Created
                    },
                    ServiceStage::SecretDirMade => ServiceStage::SecretWritten,
                    ServiceStage::SecretWritten => ServiceStage::Created,
                    _ => ServiceStage::Started,
                }
            }
        }),
{
}

/// A secret, and what was drawn for one, are shown as they are.
pub proof fn law_secret_view(secret: Result<String, String>, drawn: Result<[u8; 32], String>)
    ensures
        match secret {
            Ok(text) => secret_view(secret) == Ok::<Seq<char>, Seq<char>>(text@),
            Err(error) => secret_view(secret) == Err::<Seq<char>, Seq<char>>(error@),
        },
        match drawn {
            Ok(bytes) => drawn_view(drawn) == Ok::<Seq<u8>, Seq<char>>(bytes@),
            Err(error) => drawn_view(drawn) == Err::<Seq<u8>, Seq<char>>(error@),
        },
{
}

} // verus!
