//! Running a command while its output goes, line by line, to the window and to
//! the log of the installation, which is the file that `setup_log_path` names.
use vstd::prelude::*;
use vstd::slice::*;
use vstd::string::*;
use vstd::utf8::*;

use crate::effect::{failure, result_text};
use crate::text::{from_utf8_lossy, lossy_text};

verus! {

/// Which of a command's outputs a line comes from.
#[derive(Debug, Clone, Copy, PartialEq, Eq, Structural)]
pub enum OutputStream {
    Stdout,
    Stderr,
}

impl OutputStream {
    /// The name of the output.
    pub open spec fn label(self) -> Seq<char> {
        match self {
            OutputStream::Stdout => "stdout"@,
            OutputStream::Stderr => "stderr"@,
        }
    }

    /// The name of the output.
    pub fn name(self) -> (name: &'static str)
        ensures
            name@ == self.label(),
    {
        match self {
            OutputStream::Stdout => "stdout",
            OutputStream::Stderr => "stderr",
        }
    }
}

/// A line of output for the window.
#[derive(Debug)]
pub struct LogLineEvent {
    pub stream: OutputStream,
    pub line: String,
}

/// A line of output in the form that it has in the log: behind the name of the
/// output in brackets, and with its end.
pub open spec fn logged(stream: OutputStream, line: Seq<char>) -> Seq<char> {
    "["@ + stream.label() + "] "@ + line + "\n"@
}

/// Puts a line of output into the form that it has in the log.
pub fn log_entry(event: &LogLineEvent) -> (entry: String)
    ensures
        entry@ == logged(event.stream, event.line@),
{
    let mut entry = "[".to_string();
    entry.append(event.stream.name());
    entry.append("] ");
    entry.append(event.line.as_str());
    entry.append("\n");
    entry
}

// Copying the lines.

/// What is done with what was read of an output.
#[derive(Debug)]
pub enum PumpTurn {
    /// Write the entry to the log, show the line in the window, and read on.
    Copy { entry: String, event: LogLineEvent },
    /// Stop: there is nothing more to be read.
    Stop,
}

pub ghost enum PumpTurnView {
    Copy { entry: Seq<char>, stream: OutputStream, line: Seq<char> },
    Stop,
}

impl View for PumpTurn {
    type V = PumpTurnView;

    open spec fn view(&self) -> PumpTurnView {
        match self {
            PumpTurn::Copy { entry, event } => PumpTurnView::Copy {
                entry: entry@,
                stream: event.stream,
                line: event.line@,
            },
            PumpTurn::Stop => PumpTurnView::Stop,
        }
    }
}

/// What was read of an output, up to and with the next line feed: its bytes,
/// none at the end, or the text of the error.
pub open spec fn read_view(read: Result<Vec<u8>, String>) -> Result<Seq<u8>, Seq<char>> {
    match read {
        Ok(bytes) => Ok(bytes@),
        Err(error) => Err(error@),
    }
}

/// The bytes of a line without its end: a line feed, or a carriage return and a
/// line feed. The last line may have none.
pub open spec fn without_line_end(bytes: Seq<u8>) -> Seq<u8> {
    if bytes.len() > 0 && bytes.last() == 10 {
        let line = bytes.drop_last();
        if line.len() > 0 && line.last() == 13 {
            line.drop_last()
        } else {
            line
        }
    } else {
        bytes
    }
}

/// What is done with what was read. Bytes that are not text do not stop it: what
/// stands for them is copied.
pub open spec fn pump_next(
    stream: OutputStream,
    read: Result<Seq<u8>, Seq<char>>,
) -> PumpTurnView {
    match read {
        Ok(bytes) => if bytes.len() == 0 {
            PumpTurnView::Stop
        } else {
            let line = lossy_text(without_line_end(bytes));
            PumpTurnView::Copy { entry: logged(stream, line), stream, line }
        },
        Err(_) => PumpTurnView::Stop,
    }
}

fn cut_line_end(bytes: &[u8]) -> (line: &[u8])
    ensures
        line@ == without_line_end(bytes@),
{
    let size: usize = bytes.len();
    if size > 0 && bytes[size - 1] == 10 {
        if size > 1 && bytes[size - 2] == 13 {
            let line = slice_subrange(bytes, 0, size - 2);
            assert(line@ =~= without_line_end(bytes@));
            line
        } else {
            let line = slice_subrange(bytes, 0, size - 1);
            assert(line@ =~= without_line_end(bytes@));
            line
        }
    } else {
        bytes
    }
}

/// Decides what is done with what was read of an output.
pub fn pump_step(stream: OutputStream, read: Result<Vec<u8>, String>) -> (turn: PumpTurn)
    ensures
        turn@ == pump_next(stream, read_view(read)),
        turn matches PumpTurn::Copy { event, .. } ==> {
            let line = without_line_end(read_view(read)->Ok_0);
            valid_utf8(line) ==> event.line@ == decode_utf8(line)
        },
{
    match read {
        Ok(bytes) => {
            if bytes.len() == 0 {
                return PumpTurn::Stop;
            }
            let line = from_utf8_lossy(cut_line_end(bytes.as_slice()));
            let event = LogLineEvent { stream, line };
            PumpTurn::Copy { entry: log_entry(&event), event }
        },
        Err(_) => PumpTurn::Stop,
    }
}

/// No line is lost: whatever bytes were read, they are copied to the log and to
/// the window.
pub proof fn law_every_line_is_copied(stream: OutputStream, bytes: Seq<u8>)
    requires
        bytes.len() > 0,
    ensures
        pump_next(stream, Ok(bytes)) matches PumpTurnView::Copy { entry, stream: from, line }
            && from == stream && entry == logged(stream, line) && line == lossy_text(
            without_line_end(bytes),
        ),
{
}

// Running the command.

/// What is done to run a command, one thing after the other.
#[derive(Debug, Clone, Copy, PartialEq, Eq, Structural)]
pub enum StreamAction {
    /// Create the directory of the log.
    MakeLogDir,
    /// Open the log, and create it where it is missing: to append to it, or else
    /// to write it anew.
    OpenLog { append: bool },
    /// Start the command, with both of its outputs piped.
    Spawn,
    /// Take the pipe of its standard output.
    TakeStdout,
    /// Take the pipe of its error output.
    TakeStderr,
    /// Get a second handle on the log.
    CloneLog,
    /// Begin to copy the lines of both outputs.
    Pump,
    /// Wait for its end.
    Wait,
    /// Wait for the last lines. The command ended with this code.
    Join { code: Option<i32> },
}

/// What came of it.
#[derive(Debug)]
pub enum StreamReply {
    /// It was done.
    Done,
    /// It could not be done; the text is the system's own.
    Failed { error: String },
    /// The command ended, with a code unless it was cut short.
    Exited { code: Option<i32> },
}

/// What to do next, or how it ended: with the command's exit code, or with a
/// message.
#[derive(Debug)]
pub enum StreamTurn {
    Do { action: StreamAction },
    Finish { result: Result<Option<i32>, String> },
}

pub ghost enum StreamReplyView {
    Done,
    Failed { error: Seq<char> },
    Exited { code: Option<i32> },
}

pub ghost enum StreamTurnView {
    Do { action: StreamAction },
    Finish { result: Result<Option<i32>, Seq<char>> },
}

impl View for StreamReply {
    type V = StreamReplyView;

    open spec fn view(&self) -> StreamReplyView {
        match self {
            StreamReply::Done => StreamReplyView::Done,
            StreamReply::Failed { error } => StreamReplyView::Failed { error: error@ },
            StreamReply::Exited { code } => StreamReplyView::Exited { code: *code },
        }
    }
}

impl View for StreamTurn {
    type V = StreamTurnView;

    open spec fn view(&self) -> StreamTurnView {
        match self {
            StreamTurn::Do { action } => StreamTurnView::Do { action: *action },
            StreamTurn::Finish { result } => StreamTurnView::Finish {
                result: result_text(*result),
            },
        }
    }
}

/// Whether a reply can come to what was done last: an exit code to the wait for
/// the end, and to nothing else.
pub open spec fn reply_fits(last: Option<StreamAction>, reply: StreamReplyView) -> bool {
    match last {
        None => reply is Done,
        Some(StreamAction::Wait) => reply is Exited || reply is Failed,
        Some(_) => reply is Done || reply is Failed,
    }
}

/// What follows. `log` is the path of the log in quoted form.
pub open spec fn stream_next(
    last: Option<StreamAction>,
    log: Seq<char>,
    reply: StreamReplyView,
) -> StreamTurnView {
    match (last, reply) {
        (None, _) => StreamTurnView::Do { action: StreamAction::MakeLogDir },
        (Some(StreamAction::MakeLogDir), _) => StreamTurnView::Do {
            action: StreamAction::OpenLog { append: true },
        },
        (Some(StreamAction::OpenLog { .. }), StreamReplyView::Failed { error }) => StreamTurnView::Finish {
            result: Err("no pude abrir "@ + log + ": "@ + error),
        },
        (Some(StreamAction::OpenLog { .. }), _) => StreamTurnView::Do { action: StreamAction::Spawn },
        (Some(StreamAction::Spawn), StreamReplyView::Failed { error }) => StreamTurnView::Finish {
            result: Err("spawn: "@ + error),
        },
        (Some(StreamAction::Spawn), _) => StreamTurnView::Do { action: StreamAction::TakeStdout },
        (Some(StreamAction::TakeStdout), StreamReplyView::Failed { .. }) => StreamTurnView::Finish {
            result: Err("missing stdout pipe"@),
        },
        (Some(StreamAction::TakeStdout), _) => StreamTurnView::Do {
            action: StreamAction::TakeStderr,
        },
        (Some(StreamAction::TakeStderr), StreamReplyView::Failed { .. }) => StreamTurnView::Finish {
            result: Err("missing stderr pipe"@),
        },
        (Some(StreamAction::TakeStderr), _) => StreamTurnView::Do {
            action: StreamAction::CloneLog,
        },
        (Some(StreamAction::CloneLog), StreamReplyView::Failed { error }) => StreamTurnView::Finish {
            result: Err("clone log: "@ + error),
        },
        (Some(StreamAction::CloneLog), _) => StreamTurnView::Do { action: StreamAction::Pump },
        (Some(StreamAction::Pump), _) => StreamTurnView::Do { action: StreamAction::Wait },
        (Some(StreamAction::Wait), StreamReplyView::Failed { error }) => StreamTurnView::Finish {
            result: Err("wait: "@ + error),
        },
        (Some(StreamAction::Wait), StreamReplyView::Exited { code }) => StreamTurnView::Do {
            action: StreamAction::Join { code },
        },
        (Some(StreamAction::Wait), _) => StreamTurnView::Do {
            action: StreamAction::Join { code: None },
        },
        (Some(StreamAction::Join { code }), _) => StreamTurnView::Finish { result: Ok(code) },
    }
}

/// Tells whether a reply can come to what was done last.
pub fn fits(last: Option<StreamAction>, reply: &StreamReply) -> (yes: bool)
    ensures
        yes == reply_fits(last, reply@),
{
    match (last, reply) {
        (None, StreamReply::Done) => true,
        (None, _) => false,
        (Some(StreamAction::Wait), StreamReply::Exited { .. }) => true,
        (Some(StreamAction::Wait), StreamReply::Failed { .. }) => true,
        (Some(StreamAction::Wait), _) => false,
        (Some(_), StreamReply::Done) => true,
        (Some(_), StreamReply::Failed { .. }) => true,
        _ => false,
    }
}

/// Runs a command whose output is streamed: says what to do next, given what
/// was done last and what came of it. The outcome is the command's exit code;
/// what it means is up to the caller.
pub fn run_streaming(last: Option<StreamAction>, log: &str, reply: &StreamReply) -> (turn: StreamTurn)
    requires
        reply_fits(last, reply@),
    ensures
        turn@ == stream_next(last, log@, reply@),
{
    let action: StreamAction = match (last, reply) {
        (None, _) => StreamAction::MakeLogDir,
        (Some(StreamAction::MakeLogDir), _) => StreamAction::OpenLog { append: true },
        (Some(StreamAction::OpenLog { .. }), StreamReply::Failed { error }) => {
            let mut message = failure("no pude abrir ", log);
            message.append(": ");
            message.append(error.as_str());
            return StreamTurn::Finish { result: Err(message) };
        },
        (Some(StreamAction::OpenLog { .. }), _) => StreamAction::Spawn,
        (Some(StreamAction::Spawn), StreamReply::Failed { error }) => {
            return StreamTurn::Finish { result: Err(failure("spawn: ", error.as_str())) };
        },
        (Some(StreamAction::Spawn), _) => StreamAction::TakeStdout,
        (Some(StreamAction::TakeStdout), StreamReply::Failed { .. }) => {
            return StreamTurn::Finish { result: Err("missing stdout pipe".to_string()) };
        },
        (Some(StreamAction::TakeStdout), _) => StreamAction::TakeStderr,
        (Some(StreamAction::TakeStderr), StreamReply::Failed { .. }) => {
            return StreamTurn::Finish { result: Err("missing stderr pipe".to_string()) };
        },
        (Some(StreamAction::TakeStderr), _) => StreamAction::CloneLog,
        (Some(StreamAction::CloneLog), StreamReply::Failed { error }) => {
            return StreamTurn::Finish { result: Err(failure("clone log: ", error.as_str())) };
        },
        (Some(StreamAction::CloneLog), _) => StreamAction::Pump,
        (Some(StreamAction::Pump), _) => StreamAction::Wait,
        (Some(StreamAction::Wait), StreamReply::Failed { error }) => {
            return StreamTurn::Finish { result: Err(failure("wait: ", error.as_str())) };
        },
        (Some(StreamAction::Wait), StreamReply::Exited { code }) => StreamAction::Join {
            code: *code,
        },
        (Some(StreamAction::Wait), _) => StreamAction::Join { code: None },
        (Some(StreamAction::Join { code }), _) => {
            return StreamTurn::Finish { result: Ok(code) };
        },
    };
    StreamTurn::Do { action }
}

/// The place of an action in the order of the actions.
pub open spec fn stream_rank(action: Option<StreamAction>) -> int {
    match action {
        None => 0,
        Some(StreamAction::MakeLogDir) => 1,
        Some(StreamAction::OpenLog { .. }) => 2,
        Some(StreamAction::Spawn) => 3,
        Some(StreamAction::TakeStdout) => 4,
        Some(StreamAction::TakeStderr) => 5,
        Some(StreamAction::CloneLog) => 6,
        Some(StreamAction::Pump) => 7,
        Some(StreamAction::Wait) => 8,
        Some(StreamAction::Join { .. }) => 9,
    }
}

/// Every action follows the one before it in their order, and only where that
/// one did not fail, but for the directory of the log, which may be there, and
/// the copying of the lines. So no command is started without a log to write to.
pub proof fn law_stream_order(last: Option<StreamAction>, log: Seq<char>, reply: StreamReplyView)
    requires
        reply_fits(last, reply),
    ensures
        stream_next(last, log, reply) matches StreamTurnView::Do { action } ==> {
            &&& stream_rank(Some(action)) == stream_rank(last) + 1
            &&& reply is Failed ==> last == Some(StreamAction::MakeLogDir) || last == Some(
                StreamAction::Pump,
            )
        },
{
}

/// A command that ends with a code has that code for its outcome.
pub proof fn law_stream_keeps_code(log: Seq<char>, code: Option<i32>, joined: StreamReplyView)
    ensures
        stream_next(Some(StreamAction::Wait), log, StreamReplyView::Exited { code })
            == (StreamTurnView::Do { action: StreamAction::Join { code } }),
        stream_next(Some(StreamAction::Join { code }), log, joined) == (StreamTurnView::Finish {
            result: Ok(code),
        }),
{
}

/// Where the log cannot be opened, that is the outcome, and the command is not
/// started: it is started only after the log was opened.
pub proof fn law_no_log_no_command(
    last: Option<StreamAction>,
    append: bool,
    log: Seq<char>,
    reply: StreamReplyView,
    error: Seq<char>,
)
    requires
        reply_fits(last, reply),
    ensures
        stream_next(
            Some(StreamAction::OpenLog { append }),
            log,
            StreamReplyView::Failed { error },
        ) == (StreamTurnView::Finish { result: Err("no pude abrir "@ + log + ": "@ + error) }),
        stream_next(last, log, reply) == (StreamTurnView::Do { action: StreamAction::Spawn })
            ==> (last matches Some(StreamAction::OpenLog { .. })) && reply is Done,
{
}

// What becomes of the log.

/// What can change the log while a command runs: an action, or a line of one of
/// its outputs.
pub ghost enum LogStep {
    Action(StreamAction),
    Pump(PumpTurnView),
}

/// The bytes of the log after a step.
pub open spec fn log_step(log: Seq<u8>, step: LogStep) -> Seq<u8> {
    match step {
        LogStep::Action(StreamAction::OpenLog { append }) => if append {
            log
        } else {
            Seq::empty()
        },
        LogStep::Action(_) => log,
        LogStep::Pump(PumpTurnView::Copy { entry, .. }) => log + encode_utf8(entry),
        LogStep::Pump(PumpTurnView::Stop) => log,
    }
}

/// The bytes of the log after a row of steps.
pub open spec fn log_after(log: Seq<u8>, steps: Seq<LogStep>) -> Seq<u8>
    decreases steps.len(),
{
    if steps.len() == 0 {
        log
    } else {
        log_step(log_after(log, steps.drop_last()), steps.last())
    }
}

/// Whether running a command ever asks for an action.
pub open spec fn is_asked(action: StreamAction) -> bool {
    exists|last: Option<StreamAction>, log: Seq<char>, reply: StreamReplyView|
        reply_fits(last, reply) && #[trigger] stream_next(last, log, reply) == (StreamTurnView::Do {
            action,
        })
}

/// The log is only ever appended to: whatever is done and whatever lines come, it
/// begins with what was in it before.
pub proof fn law_log_is_kept(log: Seq<u8>, steps: Seq<LogStep>)
    requires
        forall|i: int|
            0 <= i < steps.len() ==> (#[trigger] steps[i] matches LogStep::Action(action)
                ==> is_asked(action)),
    ensures
        log.is_prefix_of(log_after(log, steps)),
    decreases steps.len(),
{
    if steps.len() == 0 {
        assert(log.subrange(0, log.len() as int) =~= log);
    } else {
        let front = steps.drop_last();
        assert forall|i: int| 0 <= i < front.len() implies (#[trigger] front[i] matches LogStep::Action(
            action,
        ) ==> is_asked(action)) by {
            assert(front[i] == steps[i]);
        }
        law_log_is_kept(log, front);
        let before = log_after(log, front);
        let last = steps[steps.len() - 1];
        assert(last == steps.last());
        assert(last matches LogStep::Action(action) ==> is_asked(action));
        if let LogStep::Pump(PumpTurnView::Copy { entry, .. }) = last {
            assert((before + encode_utf8(entry)).subrange(0, log.len() as int) =~= before.subrange(
                0,
                log.len() as int,
            ));
        }
    }
}

/// No outcome of running a command can be taken for the request to restart
/// Windows, which is a word between underscores.
pub proof fn law_stream_error_is_told(
    last: Option<StreamAction>,
    log: Seq<char>,
    reply: StreamReplyView,
)
    requires
        reply_fits(last, reply),
    ensures
        stream_next(last, log, reply) matches StreamTurnView::Finish { result: Err(error) }
            ==> error.len() > 0 && error[0] != '_',
{
    reveal_strlit("no pude abrir ");
    reveal_strlit("spawn: ");
    reveal_strlit("missing stdout pipe");
    reveal_strlit("missing stderr pipe");
    reveal_strlit("clone log: ");
    reveal_strlit("wait: ");
}

/// A line feed at the end of a line goes, with a carriage return right before it,
/// and nothing else does.
pub proof fn law_line_end(line: Seq<u8>)
    ensures
        line.len() == 0 || line.last() != 13 ==> without_line_end(line.push(10)) == line,
        without_line_end(line.push(13).push(10)) == line,
        line.len() == 0 || line.last() != 10 ==> without_line_end(line) == line,
{
    assert(line.push(10).drop_last() =~= line);
    assert(line.push(13).push(10).drop_last() =~= line.push(13));
    assert(line.push(13).drop_last() =~= line);
}

/// An entry of the log is the name of the output in brackets, a space, the line as
/// it is, and a line feed.
pub proof fn law_logged(stream: OutputStream, line: Seq<char>)
    ensures
        logged(stream, line).len() == line.len() + 10,
        logged(stream, line).take(9) == match stream {
            OutputStream::Stdout => seq!['[', 's', 't', 'd', 'o', 'u', 't', ']', ' '],
            OutputStream::Stderr => seq!['[', 's', 't', 'd', 'e', 'r', 'r', ']', ' '],
        },
        logged(stream, line).subrange(9, line.len() + 9int) == line,
        logged(stream, line).last() == '\n',
{
    reveal_strlit("[");
    reveal_strlit("] ");
    reveal_strlit("stdout");
    reveal_strlit("stderr");
    reveal_strlit("\n");
    let entry = logged(stream, line);
    assert(entry.subrange(9, line.len() + 9int) =~= line);
    assert(entry.take(9) =~= match stream {
        OutputStream::Stdout => seq!['[', 's', 't', 'd', 'o', 'u', 't', ']', ' '],
        OutputStream::Stderr => seq!['[', 's', 't', 'd', 'e', 'r', 'r', ']', ' '],
    });
}

/// Copying stops at the end of the output and where it cannot be read, and nowhere
/// else.
pub proof fn law_copying_stops(stream: OutputStream, read: Result<Seq<u8>, Seq<char>>)
    ensures
        pump_next(stream, read) is Stop <==> (read is Err || read->Ok_0.len() == 0),
{
}

/// What fails is named: each of these failures, and no other, ends the running of a
/// command with a message of its own.
pub proof fn law_stream_failures(
    last: Option<StreamAction>,
    append: bool,
    log: Seq<char>,
    error: Seq<char>,
    reply: StreamReplyView,
)
    requires
        reply_fits(last, reply),
    ensures
        ({
            let failed = StreamReplyView::Failed { error };
            let at = |action: StreamAction| stream_next(Some(action), log, failed);
            let ends = |message: Seq<char>| StreamTurnView::Finish { result: Err(message) };
            &&& at(StreamAction::OpenLog { append }) == ends(
                "no pude abrir "@ + log + ": "@ + error,
            )
            &&& at(StreamAction::Spawn) == ends("spawn: "@ + error)
            &&& at(StreamAction::TakeStdout) == ends("missing stdout pipe"@)
            &&& at(StreamAction::TakeStderr) == ends("missing stderr pipe"@)
            &&& at(StreamAction::CloneLog) == ends("clone log: "@ + error)
            &&& at(StreamAction::Wait) == ends("wait: "@ + error)
        }),
        (stream_next(last, log, reply) matches StreamTurnView::Finish { result: Err(_) }) <==> (
        reply is Failed && match last {
            None => false,
            Some(StreamAction::MakeLogDir) => false,
            Some(StreamAction::Pump) => false,
            Some(StreamAction::Join { .. }) => false,
            Some(_) => true,
        }),
{
}

/// What follows where nothing failed: the directory of the log, the log, opened to
/// be appended to, the command, its pipes, a second handle, the copying, the wait,
/// and the last lines. The outcome comes after those, and not before. The directory
/// and the copying are passed over where they fail.
pub proof fn law_stream_goes_on(
    append: bool,
    log: Seq<char>,
    code: Option<i32>,
    reply: StreamReplyView,
)
    ensures
        ({
            let done = |action: StreamAction|
                stream_next(Some(action), log, StreamReplyView::Done);
            let next = |action: StreamAction| StreamTurnView::Do { action };
            &&& stream_next(None, log, reply) == next(StreamAction::MakeLogDir)
            &&& stream_next(Some(StreamAction::MakeLogDir), log, reply) == next(
                StreamAction::OpenLog { append: true },
            )
            &&& done(StreamAction::OpenLog { append }) == next(StreamAction::Spawn)
            &&& done(StreamAction::Spawn) == next(StreamAction::TakeStdout)
            &&& done(StreamAction::TakeStdout) == next(StreamAction::TakeStderr)
            &&& done(StreamAction::TakeStderr) == next(StreamAction::CloneLog)
            &&& done(StreamAction::CloneLog) == next(StreamAction::Pump)
            &&& stream_next(Some(StreamAction::Pump), log, reply) == next(StreamAction::Wait)
            &&& stream_next(Some(StreamAction::Wait), log, StreamReplyView::Exited { code }) == next(
                StreamAction::Join { code },
            )
        }),
{
}

/// An exit code is the reply to the wait for the end, and to nothing else.
pub proof fn law_reply_fits(last: Option<StreamAction>, reply: StreamReplyView)
    ensures
        reply is Exited ==> (reply_fits(last, reply) <==> last == Some(StreamAction::Wait)),
        reply is Failed ==> (reply_fits(last, reply) <==> last is Some),
        reply is Done ==> (reply_fits(last, reply) <==> last != Some(StreamAction::Wait)),
{
}

/// What was read, what is done with it, a reply and what follows it are shown as
/// they are.
pub proof fn law_stream_views(
    read: Result<Vec<u8>, String>,
    pump: PumpTurn,
    reply: StreamReply,
    turn: StreamTurn,
)
    ensures
        match read {
            Ok(bytes) => read_view(read) == Ok::<Seq<u8>, Seq<char>>(bytes@),
            Err(error) => read_view(read) == Err::<Seq<u8>, Seq<char>>(error@),
        },
        match pump {
            PumpTurn::Copy { entry, event } => pump@ == (PumpTurnView::Copy {
                entry: entry@,
                stream: event.stream,
                line: event.line@,
            }),
            PumpTurn::Stop => pump@ is Stop,
        },
        match reply {
            StreamReply::Done => reply@ is Done,
            StreamReply::Failed { error } => reply@ == (StreamReplyView::Failed { error: error@ }),
            StreamReply::Exited { code } => reply@ == (StreamReplyView::Exited { code }),
        },
        match turn {
            StreamTurn::Do { action } => turn@ == (StreamTurnView::Do { action }),
            StreamTurn::Finish { result: Ok(code) } => turn@ == (StreamTurnView::Finish {
                result: Ok(code),
            }),
            StreamTurn::Finish { result: Err(error) } => turn@ == (StreamTurnView::Finish {
                result: Err(error@),
            }),
        },
{
}

} // verus!
