//! The Windows that the installer runs on: its build number, the rights of
//! this process, and the task that wakes the Linux subsystem at startup.
use vstd::prelude::*;
use vstd::string::*;
use vstd::utf8::*;

use crate::effect::{
    Awaited, CommandLine, Event, EventView, Platform, code_message, failure, plain,
    plain_command, result_text, words,
};
use crate::number::{
    append_decimal, decimal, decimal_signed, law_decimal_read_back, lemma_decimal, parse_u32,
    parsed_u32,
};
use crate::text::{
    chars_of, field, field_of, find_char, from_utf8_lossy, law_fields, lemma_find_char,
    lemma_find_char_is, lossy_text,
};

verus! {

/// The oldest build of Windows that the installer accepts.
pub const MIN_BUILD: u32 = 19041;

// The build number.

/// The build number in what `ver` prints: the third of the parts between the
/// dots, up to a closing bracket.
pub open spec fn build_of(text: Seq<char>) -> Option<u32> {
    match field(text, '.', 2) {
        Some(part) => match field(part, ']', 0) {
            Some(number) => parsed_u32(number),
            None => None,
        },
        None => None,
    }
}

/// Reads the build number from what `ver` prints.
pub fn build_number(text: &str) -> (build: Option<u32>)
    ensures
        build == build_of(text@),
{
    let chars = chars_of(text);
    match field_of(chars.as_slice(), '.', 2) {
        Some(part) => match field_of(part, ']', 0) {
            Some(number) => parse_u32(number),
            None => None,
        },
        None => None,
    }
}

/// The command that prints the version of Windows.
pub fn version_query() -> (command: CommandLine)
    ensures
        command@ == plain("cmd"@, seq!["/c"@, "ver"@]),
{
    let command = plain_command("cmd", &["/c", "ver"]);
    assert(command@.args =~= words(seq!["/c"@, "ver"@]));
    command
}

/// The build number that telemetry reports, given the reply to
/// `version_query`. There is none off Windows, where nothing is asked.
pub open spec fn detected_build(platform: Platform, reply: EventView) -> Option<u32> {
    match (platform, reply) {
        (Platform::Windows, EventView::Exited { stdout, .. }) => build_of(lossy_text(stdout)),
        _ => None,
    }
}

/// Finds the build number that telemetry reports.
pub fn detect_os_build(platform: Platform, reply: &Event) -> (build: Option<u32>)
    ensures
        build == detected_build(platform, reply@),
        reply@ matches EventView::Exited { stdout, .. } ==> (platform is Windows && valid_utf8(
            stdout,
        ) ==> build == build_of(decode_utf8(stdout))),
{
    match (platform, reply) {
        (Platform::Windows, Event::Exited { stdout, .. }) => {
            let text = from_utf8_lossy(stdout.as_slice());
            build_number(text.as_str())
        },
        _ => None,
    }
}

/// Whether a build of Windows is recent enough; a build that could not be read
/// counts as zero.
pub open spec fn checked_build(build: Option<u32>) -> Result<(), Seq<char>> {
    let found = match build {
        Some(number) => number,
        None => 0,
    };
    if found < MIN_BUILD {
        Err("Windows 10 build 19041+ requerido (encontrado "@ + decimal(found as nat) + ")"@)
    } else {
        Ok(())
    }
}

/// The outcome of the check of the system, given the reply to `version_query`.
pub open spec fn checked_system(reply: EventView) -> Result<(), Seq<char>> {
    match reply {
        EventView::Exited { stdout, .. } => checked_build(build_of(lossy_text(stdout))),
        EventView::Failed { error } => Err("ver: "@ + error),
        _ => checked_build(None),
    }
}

/// Checks that a build of Windows is recent enough.
pub fn check_build(build: Option<u32>) -> (checked: Result<(), String>)
    ensures
        result_text(checked) == checked_build(build),
        checked is Ok <==> (build matches Some(number) && number >= 19041),
{
    let found: u32 = match build {
        Some(number) => number,
        None => 0,
    };
    if found < MIN_BUILD {
        let mut message = "Windows 10 build 19041+ requerido (encontrado ".to_string();
        append_decimal(&mut message, found);
        message.append(")");
        Err(message)
    } else {
        Ok(())
    }
}

/// Checks the system by the reply to `version_query`.
pub fn pre_check_system(reply: &Event) -> (checked: Result<(), String>)
    requires
        reply@.answers(Awaited::Reply),
    ensures
        result_text(checked) == checked_system(reply@),
        reply@ matches EventView::Exited { stdout, .. } ==> (valid_utf8(stdout) ==> (checked is Ok
            <==> (build_of(decode_utf8(stdout)) matches Some(number) && number >= 19041))),
{
    match reply {
        Event::Exited { stdout, .. } => {
            let text = from_utf8_lossy(stdout.as_slice());
            check_build(build_number(text.as_str()))
        },
        Event::Failed { error } => Err(failure("ver: ", error.as_str())),
        _ => check_build(None),
    }
}

/// The build number is what the third of the parts between the dots spells, up to
/// a closing bracket, and there is none where there are fewer parts.
pub proof fn law_build_of(major: Seq<char>, minor: Seq<char>, number: Seq<char>, rest: Seq<char>)
    requires
        find_char(major, '.') is None,
        find_char(minor, '.') is None,
        find_char(number, '.') is None,
        find_char(number, ']') is None,
        rest.len() > 0 ==> rest[0] == '.' || rest[0] == ']',
    ensures
        build_of(major + seq!['.'] + minor + seq!['.'] + number + rest) == parsed_u32(number),
        build_of(major) is None,
        build_of(major + seq!['.'] + minor) is None,
{
    let text = major + seq!['.'] + minor + seq!['.'] + number + rest;
    let after_major = minor + seq!['.'] + number + rest;
    let after_minor = number + rest;
    lemma_find_char(major, '.');
    lemma_find_char(minor, '.');
    lemma_find_char(number, '.');
    lemma_find_char(number, ']');
    assert(text =~= major + seq!['.'] + after_major);
    assert(after_major =~= minor + seq!['.'] + after_minor);
    law_fields(major, '.', after_major, 1);
    law_fields(minor, '.', after_minor, 0);
    law_fields(major, '.', minor, 1);
    law_fields(minor, '.', Seq::empty(), 0);
    let part = match find_char(after_minor, '.') {
        Some(i) => after_minor.take(i),
        None => after_minor,
    };
    assert(field(text, '.', 2) == Some(part));
    lemma_find_char(after_minor, '.');
    assert forall|j: int| 0 <= j < number.len() implies after_minor[j] == number[j] by {}
    if rest.len() > 0 && rest[0] == ']' {
        let i = number.len() as int;
        assert(after_minor[i] == ']');
        assert(part.len() > i && part[i] == ']');
        assert(part =~= number + seq![']'] + part.skip(i + 1));
        law_fields(number, ']', part.skip(i + 1), 0);
    } else {
        if rest.len() > 0 {
            assert(after_minor[number.len() as int] == '.');
            lemma_find_char_is(after_minor, '.', number.len() as int);
        } else {
            assert(after_minor =~= number);
        }
        assert(part =~= number);
        law_fields(number, ']', Seq::empty(), 0);
    }
}

/// A version of Windows in three parts, with anything behind the third that a
/// dot or a closing bracket sets apart, is read as the number in that part.
pub proof fn law_build_is_third_part(major: Seq<char>, minor: Seq<char>, build: u32, rest: Seq<char>)
    requires
        find_char(major, '.') is None,
        find_char(minor, '.') is None,
        rest.len() > 0 ==> rest[0] == '.' || rest[0] == ']',
    ensures
        build_of(major + seq!['.'] + minor + seq!['.'] + decimal(build as nat) + rest) == Some(
            build,
        ),
{
    let number = decimal(build as nat);
    lemma_decimal(build as nat);
    lemma_find_char(number, '.');
    lemma_find_char(number, ']');
    law_build_of(major, minor, number, rest);
    law_decimal_read_back(build);
}

/// A build is accepted where, and only where, it is known and at least 19041. One
/// that is refused is named in the message, as zero where it is not known.
pub proof fn law_build_is_accepted(build: Option<u32>)
    ensures
        checked_build(build) is Ok <==> (build matches Some(number) && number >= 19041),
        checked_build(build) matches Err(message) ==> message
            == "Windows 10 build 19041+ requerido (encontrado "@ + decimal(
            match build {
                Some(number) => number as nat,
                None => 0,
            },
        ) + ")"@,
{
}

/// The system is accepted where, and only where, its version names a build of
/// 19041 or newer, whatever stands around the version and whatever the exit code
/// is; and reports name that build.
pub proof fn law_system_is_accepted(
    major: Seq<char>,
    minor: Seq<char>,
    build: u32,
    rest: Seq<char>,
    code: Option<i32>,
    stdout: Seq<u8>,
)
    requires
        find_char(major, '.') is None,
        find_char(minor, '.') is None,
        rest.len() > 0 ==> rest[0] == '.' || rest[0] == ']',
        lossy_text(stdout) == major + seq!['.'] + minor + seq!['.'] + decimal(build as nat) + rest,
    ensures
        checked_system(EventView::Exited { code, stdout }) == if build >= 19041 {
            Ok::<(), Seq<char>>(())
        } else {
            Err(
                "Windows 10 build 19041+ requerido (encontrado "@ + decimal(build as nat) + ")"@,
            )
        },
        detected_build(Platform::Windows, EventView::Exited { code, stdout }) == Some(build),
{
    law_build_is_third_part(major, minor, build, rest);
}

/// A version in which no build can be read is refused, and so is a version that
/// could not be asked for; reports then name none, and off Windows they never do.
pub proof fn law_unknown_system_is_refused(
    code: Option<i32>,
    stdout: Seq<u8>,
    error: Seq<char>,
    reply: EventView,
)
    requires
        build_of(lossy_text(stdout)) is None,
    ensures
        checked_system(EventView::Exited { code, stdout }) == Err::<(), Seq<char>>(
            "Windows 10 build 19041+ requerido (encontrado "@ + decimal(0) + ")"@,
        ),
        detected_build(Platform::Windows, EventView::Exited { code, stdout }) is None,
        checked_system(EventView::Failed { error }) == Err::<(), Seq<char>>("ver: "@ + error),
        !(reply is Exited) ==> detected_build(Platform::Windows, reply) is None,
        detected_build(Platform::Other, reply) is None,
{
}

// Administrator rights.

/// The command that only an administrator can run.
pub fn elevation_query() -> (command: CommandLine)
    ensures
        command@ == plain("net"@, seq!["session"@]),
{
    let command = plain_command("net", &["session"]);
    assert(command@.args =~= words(seq!["session"@]));
    command
}

/// Tells from the reply to `elevation_query` whether this process has
/// administrator rights.
pub fn is_elevated(reply: &Event) -> (elevated: bool)
    ensures
        elevated == reply@.succeeded(),
{
    reply.succeeded()
}

// Waking the Linux subsystem.

/// The words of the command that registers the task.
pub open spec fn autostart_words() -> Seq<Seq<char>> {
    seq![
        "/create"@,
        "/tn"@,
        "OctoPOS WSL Autostart"@,
        "/tr"@,
        "wsl -d Ubuntu-22.04 --exec /bin/true"@,
        "/sc"@,
        "onstart"@,
        "/ru"@,
        "SYSTEM"@,
        "/rl"@,
        "HIGHEST"@,
        "/f"@,
    ]
}

/// The command that registers, in place of any task of the same name, one that
/// starts the Ubuntu distribution with Windows, before anyone logs in.
pub fn autostart_command() -> (command: CommandLine)
    ensures
        command@ == plain("schtasks"@, autostart_words()),
{
    let command = plain_command(
        "schtasks",
        &[
            "/create",
            "/tn",
            "OctoPOS WSL Autostart",
            "/tr",
            "wsl -d Ubuntu-22.04 --exec /bin/true",
            "/sc",
            "onstart",
            "/ru",
            "SYSTEM",
            "/rl",
            "HIGHEST",
            "/f",
        ],
    );
    assert(command@.args =~= words(autostart_words()));
    command
}

/// The outcome of the registration, given the reply to `autostart_command`.
pub open spec fn autostart_result(reply: EventView) -> Result<(), Seq<char>> {
    match reply {
        EventView::Failed { error } => Err("schtasks spawn: "@ + error),
        _ => if reply.succeeded() {
            Ok(())
        } else {
            Err("schtasks /create fallo con codigo "@ + decimal_signed(reply.shown_code()))
        },
    }
}

/// Tells from the reply to `autostart_command` whether the task is registered.
pub fn register_wsl_autostart(reply: &Event) -> (registered: Result<(), String>)
    requires
        reply@.answers(Awaited::Reply),
    ensures
        result_text(registered) == autostart_result(reply@),
{
    match reply {
        Event::Failed { error } => Err(failure("schtasks spawn: ", error.as_str())),
        _ => {
            if reply.succeeded() {
                Ok(())
            } else {
                Err(code_message("schtasks /create fallo con codigo ", reply.shown_code()))
            }
        },
    }
}

/// The task counts as registered where, and only where, the command ran and ended
/// with code zero.
pub proof fn law_autostart(reply: EventView)
    requires
        reply.answers(Awaited::Reply),
    ensures
        autostart_result(reply) is Ok <==> (reply matches EventView::Exited { code, .. } && code
            == Some(0i32)),
        reply matches EventView::Failed { error } ==> autostart_result(reply) == Err::<(), Seq<char>>(
            "schtasks spawn: "@ + error,
        ),
        reply matches EventView::Exited { code: Some(code), .. } ==> (code != 0
            ==> autostart_result(reply) == Err::<(), Seq<char>>(
            "schtasks /create fallo con codigo "@ + decimal_signed(code as int),
        )),
        reply matches EventView::Exited { code: None, .. } ==> autostart_result(reply) == Err::<
            (),
            Seq<char>,
        >("schtasks /create fallo con codigo "@ + decimal_signed(-1)),
{
}

} // verus!
