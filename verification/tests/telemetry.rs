use base64::Engine;
use octopos_bootstrapper::archive::{encode_log, read_and_gzip, LogError};
use octopos_bootstrapper::effect::{Event, Platform};
use octopos_bootstrapper::telemetry::{
    install_id_of, FieldValue, MachineReplies, Outcome, Report, TelemetryContext,
    UploadField, UploadInput, UploadRequest, UploadStage, UploadTurn,
};
use std::io::Read;

const SEC: u64 = 1_000_000_000;

fn unpack(text: &str) -> Vec<u8> {
    let compressed = base64::engine::general_purpose::STANDARD.decode(text).unwrap();
    let mut raw = Vec::new();
    flate2::read::GzDecoder::new(compressed.as_slice()).read_to_end(&mut raw).unwrap();
    raw
}

fn context() -> TelemetryContext {
    TelemetryContext {
        install_id: "id".to_string(),
        hw_fingerprint: "fp".to_string(),
        app_version: "v1.0.0".to_string(),
        os_build: Some(19045),
        started_at: 5 * SEC,
        last_upload: None,
    }
}

fn report(outcome: Outcome, force: bool) -> Report {
    Report { outcome, error_step: None, error_message: None, force }
}

fn shown(fields: &[UploadField]) -> Vec<(String, String)> {
    fields
        .iter()
        .map(|field| {
            let value = match &field.value {
                FieldValue::Text(text) => format!("{:?}", text),
                FieldValue::Number(number) => number.to_string(),
            };
            (field.name.to_string(), value)
        })
        .collect()
}

fn pairs(list: &[(&str, &str)]) -> Vec<(String, String)> {
    list.iter().map(|(a, b)| (a.to_string(), b.to_string())).collect()
}

fn replies() -> MachineReplies {
    MachineReplies {
        guid: Event::Exited { code: Some(0), stdout: b"MachineGuid REG_SZ g-1".to_vec() },
        mac: Event::Exited { code: Some(0), stdout: b"\"AA-BB\",\"x\"".to_vec() },
        digest: Event::Exited { code: Some(0), stdout: b"cafe\r\n".to_vec() },
        version: Event::Exited { code: Some(0), stdout: b"[Version 10.0.22631.1]".to_vec() },
    }
}

/// Sends a report at a moment, and tells whether it went out.
fn tick(context: &mut TelemetryContext, force: bool, now: u64) -> bool {
    let report = report(Outcome::InProgress, force);
    let mut turn = context.upload(&report, UploadStage::Begin, UploadInput::Nothing);
    loop {
        let stage = match turn.stage() {
            Some(stage) => stage,
            None => return matches!(turn, UploadTurn::Send { .. }),
        };
        let input = match turn {
            UploadTurn::ReadClock => UploadInput::Clock { now },
            _ => UploadInput::Gathered { log: None, now, endpoint: None },
        };
        assert!(input.fits(stage));
        turn = context.upload(&report, stage, input);
    }
}

fn send(context: &mut TelemetryContext, report: &Report, input: UploadInput) -> UploadRequest {
    match context.upload(report, UploadStage::Gathered, input) {
        UploadTurn::Send { request } => request,
        other => panic!("not sent: {:?}", other),
    }
}

#[test]
fn outcomes_have_their_names() {
    assert_eq!(Outcome::InProgress.name(), "in-progress");
    assert_eq!(Outcome::Success.name(), "success");
    assert_eq!(Outcome::Error.name(), "error");
}

#[test]
fn install_id_is_written_in_groups() {
    let mut bytes = [0u8; 16];
    for (i, b) in bytes.iter_mut().enumerate() {
        *b = (i * 17) as u8;
    }
    assert_eq!(install_id_of(bytes), "00112233-4455-4677-8899-aabbccddeeff");
    assert_eq!(install_id_of([0; 16]), "00000000-0000-4000-8000-000000000000");
    assert_eq!(install_id_of([255; 16]), "ffffffff-ffff-4fff-bfff-ffffffffffff");
}

#[test]
fn install_ids_are_random_and_of_version_four() {
    let replies = replies();
    let one = TelemetryContext::draw(Platform::Windows, &replies, "1", 0).unwrap();
    let other = TelemetryContext::draw(Platform::Windows, &replies, "1", 0).unwrap();
    assert_ne!(one.install_id, other.install_id);
    assert_eq!(one.hw_fingerprint, other.hw_fingerprint);
    assert_eq!(one.os_build, other.os_build);
    for id in [one.install_id, other.install_id] {
        assert_eq!(id.len(), 36);
        for (i, c) in id.chars().enumerate() {
            match i {
                8 | 13 | 18 | 23 => assert_eq!(c, '-'),
                14 => assert_eq!(c, '4'),
                19 => assert!(matches!(c, '8' | '9' | 'a' | 'b')),
                _ => assert!(matches!(c, '0'..='9' | 'a'..='f')),
            }
        }
        assert_eq!(uuid::Uuid::parse_str(&id).unwrap().get_version_num(), 4);
    }
}

#[test]
fn different_bytes_make_different_identifiers() {
    let mut seen = std::collections::HashSet::new();
    for at in 0..16usize {
        for value in 1u8..16 {
            let mut bytes = [0u8; 16];
            bytes[at] = value;
            assert!(seen.insert(install_id_of(bytes)));
        }
    }
    // The marks take the place of six bits.
    let mut bytes = [0u8; 16];
    bytes[6] = 0xf0;
    bytes[8] = 0xc0;
    assert_eq!(install_id_of(bytes), install_id_of([0; 16]));
}

#[test]
fn first_report_of_an_attempt_is_sent_at_once() {
    let mut made = TelemetryContext::new([1; 16], Platform::Windows, &replies(), "1", 0);
    assert!(tick(&mut made, false, 0));
    assert!(!tick(&mut made, false, 1));
}

#[test]
fn log_comes_back_as_it_went() {
    let long: Vec<u8> = (0..100_000u32).map(|i| (i * i % 251) as u8).collect();
    for raw in [&b""[..], b"a", b"[stdout] hola\n[stderr] adios\n", &[0, 255, 10], &long] {
        let text = read_and_gzip(raw).unwrap();
        assert!(text.len() >= 24);
        assert_eq!(text.len() % 4, 0);
        assert!(text.starts_with("H4sI"));
        assert_eq!(unpack(&text), raw);
    }
}

#[test]
fn same_log_has_the_same_text() {
    assert_eq!(read_and_gzip(b"line\n"), read_and_gzip(b"line\n"));
    assert_ne!(read_and_gzip(b"line\n"), read_and_gzip(b"line"));
}

#[test]
fn compressed_log_is_put_into_base64() {
    let cases: [(&[u8], &str); 7] = [
        (b"", ""),
        (b"f", "Zg=="),
        (b"fo", "Zm8="),
        (b"foo", "Zm9v"),
        (b"foob", "Zm9vYg=="),
        (b"foobar", "Zm9vYmFy"),
        (&[0xfb, 0xff, 0xbf], "+/+/"),
    ];
    for (bytes, text) in cases {
        assert_eq!(encode_log(Some(bytes.to_vec())), Ok(text.to_string()));
    }
    assert_eq!(encode_log(None), Err(LogError::Compression));
}

#[test]
fn base64_tells_byte_strings_apart() {
    let mut seen = std::collections::HashSet::new();
    for a in 0u8..=255 {
        assert!(seen.insert(encode_log(Some(vec![a])).unwrap()));
        assert!(seen.insert(encode_log(Some(vec![a, 0])).unwrap()));
        assert!(seen.insert(encode_log(Some(vec![0, a, 0])).unwrap()));
    }
}

#[test]
fn context_is_made_of_what_the_machine_answered() {
    let replies = replies();
    let made = TelemetryContext::new([7; 16], Platform::Windows, &replies, "0.4.2", 9);
    assert_eq!(made.install_id, "07070707-0707-4707-8707-070707070707");
    assert_eq!(made.hw_fingerprint, "cafe");
    assert_eq!(made.app_version, "v0.4.2");
    assert_eq!(made.os_build, Some(22631));
    assert_eq!(made.started_at, 9);
    assert_eq!(made.last_upload, None);
    let elsewhere = TelemetryContext::new([8; 16], Platform::Other, &replies, "0.4.2", 9);
    assert_eq!(elsewhere.os_build, None);
    assert_eq!(elsewhere.hw_fingerprint.len(), 64);
    assert_ne!(elsewhere.install_id, made.install_id);
}

#[test]
fn report_holds_what_is_known() {
    let fields = context().payload(&report(Outcome::InProgress, false), None, 65 * SEC + 7);
    assert_eq!(
        shown(&fields),
        pairs(&[
            ("installId", "\"id\""),
            ("hwFingerprint", "\"fp\""),
            ("appVersion", "\"v1.0.0\""),
            ("osBuild", "19045"),
            ("outcome", "\"in-progress\""),
            ("durationSec", "60"),
        ])
    );
}

#[test]
fn report_on_a_failure_says_where_and_how() {
    let failure = Report {
        outcome: Outcome::Error,
        error_step: Some("run_install".to_string()),
        error_message: Some("boom".to_string()),
        force: true,
    };
    let mut unknown = context();
    unknown.os_build = None;
    let fields = unknown.payload(&failure, Some("H4s=".to_string()), 0);
    assert_eq!(
        shown(&fields),
        pairs(&[
            ("installId", "\"id\""),
            ("hwFingerprint", "\"fp\""),
            ("appVersion", "\"v1.0.0\""),
            ("outcome", "\"error\""),
            ("errorStep", "\"run_install\""),
            ("errorMessage", "\"boom\""),
            ("durationSec", "0"),
            ("logGzipB64", "\"H4s=\""),
        ])
    );
}

#[test]
fn request_carries_the_log() {
    let mut ctx = context();
    let input = UploadInput::Gathered {
        log: Some(b"[stdout] hola\n".to_vec()),
        now: 6 * SEC,
        endpoint: None,
    };
    let request = send(&mut ctx, &report(Outcome::Success, true), input);
    assert_eq!(request.endpoint, "https://platform.octo-pos.net/install-logs");
    let last = request.fields.last().unwrap();
    assert_eq!(last.name, "logGzipB64");
    match &last.value {
        FieldValue::Text(text) => assert_eq!(unpack(text), b"[stdout] hola\n"),
        other => panic!("no text: {:?}", other),
    }
    let input = UploadInput::Gathered {
        log: None,
        now: 6 * SEC,
        endpoint: Some("http://localhost:1".to_string()),
    };
    let request = send(&mut ctx, &report(Outcome::Success, true), input);
    assert_eq!(request.endpoint, "http://localhost:1");
    assert_eq!(request.fields.last().unwrap().name, "durationSec");
}

#[test]
fn reports_are_thirty_seconds_apart() {
    let mut ctx = context();
    assert!(tick(&mut ctx, false, 100 * SEC));
    assert_eq!(ctx.last_upload, Some(100 * SEC));
    assert!(!tick(&mut ctx, false, 100 * SEC));
    assert!(!tick(&mut ctx, false, 130 * SEC - 1));
    assert_eq!(ctx.last_upload, Some(100 * SEC));
    assert!(tick(&mut ctx, false, 130 * SEC));
    assert_eq!(ctx.last_upload, Some(130 * SEC));
    // A clock that went back holds reports back too.
    assert!(!tick(&mut ctx, false, 10 * SEC));
}

#[test]
fn sent_reports_are_spaced_in_any_row() {
    let mut ctx = context();
    let mut sent = Vec::new();
    let mut now: u64 = 0;
    for i in 0..500u64 {
        now += (i * 7919 % 23) * SEC;
        let force = i % 5 == 0;
        if tick(&mut ctx, force, now) {
            if !force {
                sent.push(now);
            }
        } else {
            assert!(now < *sent.last().unwrap() + 30 * SEC);
        }
    }
    assert!(sent.len() > 50);
    for pair in sent.windows(2) {
        assert!(pair[1] - pair[0] >= 30 * SEC);
    }
}

#[test]
fn forced_reports_always_go_and_leave_the_others_alone() {
    let mut ctx = context();
    assert!(tick(&mut ctx, true, 1));
    assert_eq!(ctx.last_upload, None);
    assert!(tick(&mut ctx, false, 2));
    assert!(tick(&mut ctx, true, 3));
    assert!(tick(&mut ctx, true, 3));
    assert_eq!(ctx.last_upload, Some(2));
    assert_eq!(ctx.install_id, "id");
}
