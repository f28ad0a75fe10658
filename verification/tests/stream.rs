use octopos_bootstrapper::stream::{
    fits, log_entry, pump_step, run_streaming, LogLineEvent, OutputStream, PumpTurn, StreamAction,
    StreamReply, StreamTurn,
};

fn failed(error: &str) -> StreamReply {
    StreamReply::Failed { error: error.to_string() }
}

fn next(last: Option<StreamAction>, reply: StreamReply) -> StreamTurn {
    assert!(fits(last, &reply));
    run_streaming(last, "\"C:\\\\l\"", &reply)
}

fn done(turn: StreamTurn) -> StreamAction {
    match turn {
        StreamTurn::Do { action } => action,
        other => panic!("ended: {:?}", other),
    }
}

fn ended(turn: StreamTurn) -> Result<Option<i32>, String> {
    match turn {
        StreamTurn::Finish { result } => result,
        other => panic!("went on: {:?}", other),
    }
}

#[test]
fn line_is_logged_behind_its_stream() {
    let event = LogLineEvent { stream: OutputStream::Stdout, line: "hola".to_string() };
    assert_eq!(log_entry(&event), "[stdout] hola\n");
    let event = LogLineEvent { stream: OutputStream::Stderr, line: String::new() };
    assert_eq!(log_entry(&event), "[stderr] \n");
    assert_eq!(OutputStream::Stdout.name(), "stdout");
    assert_eq!(OutputStream::Stderr.name(), "stderr");
}

#[test]
fn command_is_run_in_order() {
    let order = [
        StreamAction::MakeLogDir,
        StreamAction::OpenLog { append: true },
        StreamAction::Spawn,
        StreamAction::TakeStdout,
        StreamAction::TakeStderr,
        StreamAction::CloneLog,
        StreamAction::Pump,
        StreamAction::Wait,
    ];
    let mut last = None;
    for action in order {
        assert_eq!(done(next(last, StreamReply::Done)), action);
        last = Some(action);
    }
    for code in [Some(0), Some(3), None] {
        let joined = done(next(last, StreamReply::Exited { code }));
        assert_eq!(joined, StreamAction::Join { code });
        assert_eq!(ended(next(Some(joined), StreamReply::Done)), Ok(code));
        assert_eq!(ended(next(Some(joined), failed("panicked"))), Ok(code));
    }
}

#[test]
fn failures_that_end_a_command() {
    let cases = [
        (StreamAction::OpenLog { append: true }, "no pude abrir \"C:\\\\l\": x"),
        (StreamAction::Spawn, "spawn: x"),
        (StreamAction::TakeStdout, "missing stdout pipe"),
        (StreamAction::TakeStderr, "missing stderr pipe"),
        (StreamAction::CloneLog, "clone log: x"),
        (StreamAction::Wait, "wait: x"),
    ];
    for (action, message) in cases {
        assert_eq!(ended(next(Some(action), failed("x"))), Err(message.to_string()));
    }
}

#[test]
fn directory_of_the_log_may_be_there() {
    assert_eq!(
        done(next(Some(StreamAction::MakeLogDir), failed("x"))),
        StreamAction::OpenLog { append: true }
    );
    assert_eq!(done(next(Some(StreamAction::Pump), failed("x"))), StreamAction::Wait);
}

#[test]
fn exit_codes_answer_the_wait_only() {
    let reply = StreamReply::Exited { code: Some(0) };
    assert!(fits(Some(StreamAction::Wait), &reply));
    assert!(!fits(Some(StreamAction::Spawn), &reply));
    assert!(!fits(None, &reply));
    assert!(!fits(Some(StreamAction::Wait), &StreamReply::Done));
    assert!(!fits(None, &failed("x")));
}

/// Copies an output as the application does, and gives the log and the lines.
fn pump(stream: OutputStream, output: &[u8]) -> (Vec<u8>, Vec<String>) {
    let mut log = b"before\n".to_vec();
    let mut lines = Vec::new();
    let mut rest = output;
    loop {
        let size = match rest.iter().position(|b| *b == b'\n') {
            Some(at) => at + 1,
            None => rest.len(),
        };
        let (bytes, more) = rest.split_at(size);
        rest = more;
        match pump_step(stream, Ok(bytes.to_vec())) {
            PumpTurn::Copy { entry, event } => {
                assert_eq!(event.stream, stream);
                log.extend_from_slice(entry.as_bytes());
                lines.push(event.line);
            }
            PumpTurn::Stop => return (log, lines),
        }
    }
}

#[test]
fn every_line_is_copied() {
    let (log, lines) = pump(OutputStream::Stdout, b"one\r\n\ntwo\rx\nlast\r");
    assert_eq!(lines, ["one", "", "two\rx", "last\r"]);
    assert_eq!(
        log,
        b"before\n[stdout] one\n[stdout] \n[stdout] two\rx\n[stdout] last\r\n"
    );
    assert_eq!(pump(OutputStream::Stderr, b"").1, Vec::<String>::new());
}

#[test]
fn line_that_is_not_text_does_not_stop_the_others() {
    let (log, lines) = pump(OutputStream::Stderr, b"ok\nbad \xff\xfe!\nmore\n");
    assert_eq!(lines, ["ok", "bad \u{fffd}\u{fffd}!", "more"]);
    assert!(log.starts_with(b"before\n[stderr] ok\n"));
    assert!(log.ends_with(b"[stderr] more\n"));
}

#[test]
fn failed_read_stops_the_copying() {
    assert!(matches!(
        pump_step(OutputStream::Stdout, Err("broken pipe".to_string())),
        PumpTurn::Stop
    ));
    assert!(matches!(pump_step(OutputStream::Stdout, Ok(Vec::new())), PumpTurn::Stop));
}
