//! The reports on an installation: what they hold, and when they are sent. A
//! report carries the log of the installation, so that a failed one is seen
//! without anyone having to ask for the file.
use vstd::prelude::*;
use vstd::string::*;

use crate::archive::{base64_decoded, gzipped, law_log_travels, log_text, read_and_gzip, unpacked};
use crate::effect::{Event, EventView, Platform, failure, option_text};
use crate::fingerprint::{fingerprint, hw_fingerprint};
use crate::number::{digit, hex, hex_bytes, is_hex, law_hex_bytes_injective, law_hex_bytes_shape};
use crate::random::fill_random;
use crate::system::{detect_os_build, detected_build};

verus! {

/// Where reports go.
pub const ENDPOINT_DEFAULT: &'static str = "https://platform.octo-pos.net/install-logs";

/// How many seconds lie between two reports at least, but for forced ones.
pub const MIN_UPLOAD_INTERVAL_SECS: u64 = 30;

/// How many seconds sending a report may take.
pub const HTTP_TIMEOUT_SECS: u64 = 10;

/// A second, in nanoseconds.
pub const SECOND: u64 = 1_000_000_000;

/// How an installation stands.
#[derive(Debug, Clone, Copy, PartialEq, Eq, Structural)]
pub enum Outcome {
    InProgress,
    Success,
    Error,
}

impl Outcome {
    /// The word that reports use.
    pub open spec fn label(self) -> Seq<char> {
        match self {
            Outcome::InProgress => "in-progress"@,
            Outcome::Success => "success"@,
            Outcome::Error => "error"@,
        }
    }

    /// The word that reports use.
    pub fn name(self) -> (name: &'static str)
        ensures
            name@ == self.label(),
    {
        match self {
            Outcome::InProgress => "in-progress",
            Outcome::Success => "success",
            Outcome::Error => "error",
        }
    }
}

// The identifier of an installation.

/// `uuid::Builder::from_random_bytes`: the bytes, with the version, four, in the
/// high half of the seventh, and the variant, binary one and zero, in the two
/// high bits of the ninth.
#[verifier::external_body]
fn random_uuid(random: [u8; 16]) -> (bytes: [u8; 16])
    ensures
        bytes@ == marked(random@),
{
    uuid::Builder::from_random_bytes(random).into_uuid().into_bytes()
}

/// `uuid::Uuid`'s `to_string`: the bytes in lower-case hexadecimal digits, in
/// groups of four, two, two, two and six bytes with hyphens between them.
#[verifier::external_body]
fn uuid_string(bytes: [u8; 16]) -> (text: String)
    ensures
        text@ == uuid_text(bytes@),
{
    uuid::Uuid::from_bytes(bytes).to_string()
}

/// Sixteen random bytes, marked as a random identifier of version four.
pub open spec fn marked(random: Seq<u8>) -> Seq<u8> {
    random.update(6, (random[6] % 16 + 64) as u8).update(8, (random[8] % 64 + 128) as u8)
}

/// An identifier in its usual form.
pub open spec fn uuid_text(bytes: Seq<u8>) -> Seq<char> {
    hex_bytes(bytes.subrange(0, 4)) + seq!['-'] + hex_bytes(bytes.subrange(4, 6)) + seq!['-']
        + hex_bytes(bytes.subrange(6, 8)) + seq!['-'] + hex_bytes(bytes.subrange(8, 10)) + seq!['-']
        + hex_bytes(bytes.subrange(10, 16))
}

/// The identifier of an installation, given sixteen random bytes.
pub open spec fn install_id(random: Seq<u8>) -> Seq<char> {
    uuid_text(marked(random))
}

/// Makes the identifier of an installation.
pub fn install_id_of(random: [u8; 16]) -> (text: String)
    ensures
        text@ == install_id(random@),
{
    uuid_string(random_uuid(random))
}

proof fn lemma_hex_pair(bytes: Seq<u8>)
    requires
        bytes.len() == 2,
    ensures
        hex_bytes(bytes)[0] == digit(bytes[0] as int / 16),
{
    reveal_with_fuel(hex_bytes, 3);
    reveal_with_fuel(hex, 3);
    assert(bytes.drop_last().drop_last() =~= Seq::empty());
    assert(bytes.drop_last().last() == bytes[0]);
    assert(hex_bytes(bytes.drop_last()) =~= hex(bytes[0] as nat, 2));
    assert(hex(bytes[0] as nat, 2)[0] == digit((bytes[0] as nat / 16 % 16) as int));
}

/// An identifier has 36 characters: hyphens behind the eighth, the twelfth, the
/// sixteenth and the twentieth of its digits, and hexadecimal digits, of which
/// the thirteenth gives the version and the seventeenth the variant.
pub proof fn law_install_id_shape(random: Seq<u8>)
    requires
        random.len() == 16,
    ensures
        ({
            let text = install_id(random);
            &&& text.len() == 36
            &&& text[8] == '-' && text[13] == '-' && text[18] == '-' && text[23] == '-'
            &&& is_hex(text.subrange(0, 8))
            &&& is_hex(text.subrange(9, 13))
            &&& is_hex(text.subrange(14, 18))
            &&& is_hex(text.subrange(19, 23))
            &&& is_hex(text.subrange(24, 36))
            &&& text[14] == '4'
            &&& text[19] == '8' || text[19] == '9' || text[19] == 'a' || text[19] == 'b'
        }),
{
    let text = install_id(random);
    let bytes = marked(random);
    lemma_uuid_groups(bytes);
    law_hex_bytes_shape(bytes.subrange(0, 4));
    law_hex_bytes_shape(bytes.subrange(4, 6));
    law_hex_bytes_shape(bytes.subrange(6, 8));
    law_hex_bytes_shape(bytes.subrange(8, 10));
    law_hex_bytes_shape(bytes.subrange(10, 16));
    lemma_hex_pair(bytes.subrange(6, 8));
    lemma_hex_pair(bytes.subrange(8, 10));
    assert(text[14] == text.subrange(14, 18)[0]);
    assert(text[19] == text.subrange(19, 23)[0]);
}

proof fn lemma_uuid_groups(bytes: Seq<u8>)
    requires
        bytes.len() == 16,
    ensures
        ({
            let text = uuid_text(bytes);
            &&& text.len() == 36
            &&& text[8] == '-' && text[13] == '-' && text[18] == '-' && text[23] == '-'
            &&& text.subrange(0, 8) == hex_bytes(bytes.subrange(0, 4))
            &&& text.subrange(9, 13) == hex_bytes(bytes.subrange(4, 6))
            &&& text.subrange(14, 18) == hex_bytes(bytes.subrange(6, 8))
            &&& text.subrange(19, 23) == hex_bytes(bytes.subrange(8, 10))
            &&& text.subrange(24, 36) == hex_bytes(bytes.subrange(10, 16))
        }),
{
    let text = uuid_text(bytes);
    law_hex_bytes_shape(bytes.subrange(0, 4));
    law_hex_bytes_shape(bytes.subrange(4, 6));
    law_hex_bytes_shape(bytes.subrange(6, 8));
    law_hex_bytes_shape(bytes.subrange(8, 10));
    law_hex_bytes_shape(bytes.subrange(10, 16));
    assert(text.subrange(0, 8) =~= hex_bytes(bytes.subrange(0, 4)));
    assert(text.subrange(9, 13) =~= hex_bytes(bytes.subrange(4, 6)));
    assert(text.subrange(14, 18) =~= hex_bytes(bytes.subrange(6, 8)));
    assert(text.subrange(19, 23) =~= hex_bytes(bytes.subrange(8, 10)));
    assert(text.subrange(24, 36) =~= hex_bytes(bytes.subrange(10, 16)));
}

/// No two rows of sixteen bytes have the same usual form.
pub proof fn law_uuid_text_injective(a: Seq<u8>, b: Seq<u8>)
    requires
        a.len() == 16,
        b.len() == 16,
        uuid_text(a) == uuid_text(b),
    ensures
        a == b,
{
    lemma_uuid_groups(a);
    lemma_uuid_groups(b);
    law_hex_bytes_injective(a.subrange(0, 4), b.subrange(0, 4));
    law_hex_bytes_injective(a.subrange(4, 6), b.subrange(4, 6));
    law_hex_bytes_injective(a.subrange(6, 8), b.subrange(6, 8));
    law_hex_bytes_injective(a.subrange(8, 10), b.subrange(8, 10));
    law_hex_bytes_injective(a.subrange(10, 16), b.subrange(10, 16));
    assert(a =~= a.subrange(0, 4) + a.subrange(4, 6) + a.subrange(6, 8) + a.subrange(8, 10)
        + a.subrange(10, 16));
    assert(b =~= b.subrange(0, 4) + b.subrange(4, 6) + b.subrange(6, 8) + b.subrange(8, 10)
        + b.subrange(10, 16));
}

// The context.

/// What all reports on one installation share.
#[derive(Debug)]
pub struct TelemetryContext {
    /// The identifier of this installation.
    pub install_id: String,
    /// The fingerprint of the machine.
    pub hw_fingerprint: String,
    /// The version of this program.
    pub app_version: String,
    /// The build of Windows, where it is known.
    pub os_build: Option<u32>,
    /// When it began, in nanoseconds.
    pub started_at: u64,
    /// When the last report was let through that was not forced.
    pub last_upload: Option<u64>,
}

pub ghost struct ContextView {
    pub install_id: Seq<char>,
    pub hw_fingerprint: Seq<char>,
    pub app_version: Seq<char>,
    pub os_build: Option<u32>,
    pub started_at: u64,
    pub last_upload: Option<u64>,
}

impl View for TelemetryContext {
    type V = ContextView;

    open spec fn view(&self) -> ContextView {
        ContextView {
            install_id: self.install_id@,
            hw_fingerprint: self.hw_fingerprint@,
            app_version: self.app_version@,
            os_build: self.os_build,
            started_at: self.started_at,
            last_upload: self.last_upload,
        }
    }
}

/// What the machine answered to the four questions about it: see
/// `machine_guid_query`, `mac_query`, `fingerprint_query` and `version_query`.
#[derive(Debug)]
pub struct MachineReplies {
    pub guid: Event,
    pub mac: Event,
    pub digest: Event,
    pub version: Event,
}

/// The context of an installation that began at `started_at`.
pub open spec fn new_context(
    random: Seq<u8>,
    platform: Platform,
    guid: EventView,
    mac: EventView,
    digest: EventView,
    version: EventView,
    package_version: Seq<char>,
    started_at: u64,
) -> ContextView {
    ContextView {
        install_id: install_id(random),
        hw_fingerprint: fingerprint(platform, guid, mac, digest),
        app_version: "v"@ + package_version,
        os_build: detected_build(platform, version),
        started_at,
        last_upload: None,
    }
}

// What a report holds.

/// A report, apart from what all of them share.
#[derive(Debug)]
pub struct Report {
    pub outcome: Outcome,
    /// The step that failed.
    pub error_step: Option<String>,
    /// How it failed.
    pub error_message: Option<String>,
    /// Whether it is sent however soon after the last one.
    pub force: bool,
}

pub ghost struct ReportView {
    pub outcome: Outcome,
    pub error_step: Option<Seq<char>>,
    pub error_message: Option<Seq<char>>,
    pub force: bool,
}

impl View for Report {
    type V = ReportView;

    open spec fn view(&self) -> ReportView {
        ReportView {
            outcome: self.outcome,
            error_step: option_text(self.error_step),
            error_message: option_text(self.error_message),
            force: self.force,
        }
    }
}

/// The value of a field of a report.
#[derive(Debug)]
pub enum FieldValue {
    Text(String),
    Number(u64),
}

/// A field of a report, under the name that the platform knows.
#[derive(Debug)]
pub struct UploadField {
    pub name: &'static str,
    pub value: FieldValue,
}

/// A report that is ready to be sent as a JSON object of these fields, in this
/// order, to this address.
#[derive(Debug)]
pub struct UploadRequest {
    pub endpoint: String,
    pub fields: Vec<UploadField>,
}

pub ghost enum ValueView {
    Text(Seq<char>),
    Number(u64),
}

pub ghost struct RequestView {
    pub endpoint: Seq<char>,
    pub fields: Seq<(Seq<char>, ValueView)>,
}

impl View for FieldValue {
    type V = ValueView;

    open spec fn view(&self) -> ValueView {
        match self {
            FieldValue::Text(text) => ValueView::Text(text@),
            FieldValue::Number(number) => ValueView::Number(*number),
        }
    }
}

impl View for UploadField {
    type V = (Seq<char>, ValueView);

    open spec fn view(&self) -> (Seq<char>, ValueView) {
        (self.name@, self.value@)
    }
}

/// The views of a row of fields.
pub open spec fn fields_view(fields: Seq<UploadField>) -> Seq<(Seq<char>, ValueView)> {
    fields.map_values(|field: UploadField| field@)
}

impl View for UploadRequest {
    type V = RequestView;

    open spec fn view(&self) -> RequestView {
        RequestView { endpoint: self.endpoint@, fields: fields_view(self.fields@) }
    }
}

/// A field with a text, or none where there is no text.
pub open spec fn text_field(name: Seq<char>, text: Option<Seq<char>>) -> Seq<
    (Seq<char>, ValueView),
> {
    match text {
        Some(value) => seq![(name, ValueView::Text(value))],
        None => Seq::empty(),
    }
}

/// A field with a number, or none where there is no number.
pub open spec fn number_field(name: Seq<char>, number: Option<u64>) -> Seq<
    (Seq<char>, ValueView),
> {
    match number {
        Some(value) => seq![(name, ValueView::Number(value))],
        None => Seq::empty(),
    }
}

/// How many whole seconds lie between two moments; none where the later one
/// comes first.
pub open spec fn seconds_between(from: u64, to: u64) -> u64 {
    if to < from {
        0
    } else {
        ((to - from) / SECOND as int) as u64
    }
}

/// The log as it is sent, given what could be read of it: nothing where it
/// could not be read, or does not travel.
pub open spec fn sent_log(raw: Option<Seq<u8>>) -> Option<Seq<char>> {
    match raw {
        Some(bytes) => match log_text(gzipped(bytes)) {
            Ok(text) => Some(text),
            Err(_) => None,
        },
        None => None,
    }
}

/// The build of Windows as a number of a field.
pub open spec fn build_number_of(build: Option<u32>) -> Option<u64> {
    match build {
        Some(number) => Some(number as u64),
        None => None,
    }
}

/// The fields of a report, given the log as it is sent.
pub open spec fn payload(
    context: ContextView,
    report: ReportView,
    log: Option<Seq<char>>,
    now: u64,
) -> Seq<(Seq<char>, ValueView)> {
    text_field("installId"@, Some(context.install_id)) + text_field(
        "hwFingerprint"@,
        Some(context.hw_fingerprint),
    ) + text_field("appVersion"@, Some(context.app_version)) + number_field(
        "osBuild"@,
        build_number_of(context.os_build),
    ) + text_field("outcome"@, Some(report.outcome.label())) + text_field(
        "errorStep"@,
        report.error_step,
    ) + text_field("errorMessage"@, report.error_message) + number_field(
        "durationSec"@,
        Some(seconds_between(context.started_at, now)),
    ) + text_field("logGzipB64"@, log)
}

/// The address that a report goes to: what the environment says, or the default.
pub open spec fn endpoint(overridden: Option<Seq<char>>) -> Seq<char> {
    match overridden {
        Some(address) => address,
        None => ENDPOINT_DEFAULT@,
    }
}

fn elapsed_seconds(from: u64, to: u64) -> (seconds: u64)
    ensures
        seconds == seconds_between(from, to),
{
    if to < from {
        0
    } else {
        (to - from) / SECOND
    }
}

fn push_text(fields: &mut Vec<UploadField>, name: &'static str, text: &Option<String>)
    ensures
        fields_view(final(fields)@) == fields_view(old(fields)@) + text_field(
            name@,
            option_text(*text),
        ),
{
    match text {
        Some(value) => {
            fields.push(UploadField { name, value: FieldValue::Text(value.clone()) });
        },
        None => {},
    }
    assert(fields_view(fields@) =~= fields_view(old(fields)@) + text_field(
        name@,
        option_text(*text),
    ));
}

fn push_number(fields: &mut Vec<UploadField>, name: &'static str, number: Option<u64>)
    ensures
        fields_view(final(fields)@) == fields_view(old(fields)@) + number_field(name@, number),
{
    match number {
        Some(value) => {
            fields.push(UploadField { name, value: FieldValue::Number(value) });
        },
        None => {},
    }
    assert(fields_view(fields@) =~= fields_view(old(fields)@) + number_field(name@, number));
}

/// Encodes the log as it is sent.
fn log_to_send(raw: &Option<Vec<u8>>) -> (log: Option<String>)
    ensures
        option_text(log) == sent_log(
            match raw {
                Some(bytes) => Some(bytes@),
                None => None,
            },
        ),
        log matches Some(text) ==> (raw matches Some(bytes) && unpacked(text@) == Some(bytes@)),
{
    match raw {
        Some(bytes) => match read_and_gzip(bytes.as_slice()) {
            Ok(text) => Some(text),
            Err(_) => None,
        },
        None => None,
    }
}

/// The place of a field in a report, by its name.
pub open spec fn field_order(name: Seq<char>) -> int {
    if name == "installId"@ {
        0
    } else if name == "hwFingerprint"@ {
        1
    } else if name == "appVersion"@ {
        2
    } else if name == "osBuild"@ {
        3
    } else if name == "outcome"@ {
        4
    } else if name == "errorStep"@ {
        5
    } else if name == "errorMessage"@ {
        6
    } else if name == "durationSec"@ {
        7
    } else {
        8
    }
}

/// Whether fields come in the order of their names, each before the place
/// `below`.
pub open spec fn in_order(fields: Seq<(Seq<char>, ValueView)>, below: int) -> bool {
    &&& forall|i: int| 0 <= i < fields.len() ==> field_order(#[trigger] fields[i].0) < below
    &&& forall|i: int, j: int|
        0 <= i < j < fields.len() ==> field_order(#[trigger] fields[i].0) < field_order(
            #[trigger] fields[j].0,
        )
}

proof fn lemma_in_order(
    fields: Seq<(Seq<char>, ValueView)>,
    more: Seq<(Seq<char>, ValueView)>,
    below: int,
)
    requires
        in_order(fields, below),
        more.len() <= 1,
        more.len() == 1 ==> field_order(more[0].0) == below,
    ensures
        in_order(fields + more, below + 1),
{
    let all = fields + more;
    assert forall|i: int| 0 <= i < all.len() implies field_order(#[trigger] all[i].0) < below
        + 1 by {
        if i < fields.len() {
            assert(all[i] == fields[i]);
        } else {
            assert(all[i] == more[0]);
        }
    }
    assert forall|i: int, j: int| 0 <= i < j < all.len() implies field_order(#[trigger] all[i].0)
        < field_order(#[trigger] all[j].0) by {
        assert(all[i] == fields[i]);
        if j < fields.len() {
            assert(all[j] == fields[j]);
        } else {
            assert(all[j] == more[0]);
        }
    }
}

proof fn lemma_field_order()
    ensures
        field_order("installId"@) == 0,
        field_order("hwFingerprint"@) == 1,
        field_order("appVersion"@) == 2,
        field_order("osBuild"@) == 3,
        field_order("outcome"@) == 4,
        field_order("errorStep"@) == 5,
        field_order("errorMessage"@) == 6,
        field_order("durationSec"@) == 7,
        field_order("logGzipB64"@) == 8,
{
    reveal_strlit("installId");
    reveal_strlit("hwFingerprint");
    reveal_strlit("appVersion");
    reveal_strlit("osBuild");
    reveal_strlit("outcome");
    reveal_strlit("errorStep");
    reveal_strlit("errorMessage");
    reveal_strlit("durationSec");
    reveal_strlit("logGzipB64");
    assert("installId"@.len() == 9 && "hwFingerprint"@.len() == 13 && "appVersion"@.len() == 10);
    assert("osBuild"@.len() == 7 && "outcome"@.len() == 7 && "errorStep"@.len() == 9);
    assert("errorMessage"@.len() == 12 && "durationSec"@.len() == 11 && "logGzipB64"@.len() == 10);
    assert("installId"@[0] == 'i' && "errorStep"@[0] == 'e');
    assert("appVersion"@[0] == 'a' && "logGzipB64"@[0] == 'l');
    assert("osBuild"@[1] == 's' && "outcome"@[1] == 'u');
}

/// The fields of a report always come in the same order, so no name comes
/// twice.
pub proof fn law_payload_in_order(
    context: ContextView,
    report: ReportView,
    log: Option<Seq<char>>,
    now: u64,
)
    ensures
        in_order(payload(context, report, log, now), 9),
        forall|i: int, j: int|
            #![trigger payload(context, report, log, now)[i], payload(context, report, log, now)[j]]
            0 <= i < j < payload(context, report, log, now).len() ==> payload(
                context,
                report,
                log,
                now,
            )[i].0 != payload(context, report, log, now)[j].0,
{
    lemma_field_order();
    let f0 = text_field("installId"@, Some(context.install_id));
    let f1 = text_field("hwFingerprint"@, Some(context.hw_fingerprint));
    let f2 = text_field("appVersion"@, Some(context.app_version));
    let f3 = number_field("osBuild"@, build_number_of(context.os_build));
    let f4 = text_field("outcome"@, Some(report.outcome.label()));
    let f5 = text_field("errorStep"@, report.error_step);
    let f6 = text_field("errorMessage"@, report.error_message);
    let f7 = number_field("durationSec"@, Some(seconds_between(context.started_at, now)));
    let f8 = text_field("logGzipB64"@, log);
    assert(in_order(f0, 1));
    lemma_in_order(f0, f1, 1);
    lemma_in_order(f0 + f1, f2, 2);
    lemma_in_order(f0 + f1 + f2, f3, 3);
    lemma_in_order(f0 + f1 + f2 + f3, f4, 4);
    lemma_in_order(f0 + f1 + f2 + f3 + f4, f5, 5);
    lemma_in_order(f0 + f1 + f2 + f3 + f4 + f5, f6, 6);
    lemma_in_order(f0 + f1 + f2 + f3 + f4 + f5 + f6, f7, 7);
    lemma_in_order(f0 + f1 + f2 + f3 + f4 + f5 + f6 + f7, f8, 8);
}

/// Whether a report has a field of this name with this value.
pub open spec fn has_field(
    fields: Seq<(Seq<char>, ValueView)>,
    name: Seq<char>,
    value: ValueView,
) -> bool {
    exists|i: int| 0 <= i < fields.len() && #[trigger] fields[i] == (name, value)
}

/// Whether a report has no field of this name.
pub open spec fn lacks_field(fields: Seq<(Seq<char>, ValueView)>, name: Seq<char>) -> bool {
    forall|i: int| 0 <= i < fields.len() ==> (#[trigger] fields[i]).0 != name
}

/// A report holds the identifier, the fingerprint and the version as they are, the
/// word for the outcome, and the whole seconds since the beginning; and, where
/// there is one, and only there, the build, the step that failed, how it failed,
/// and the log, each as it is.
pub proof fn law_payload_fields(
    context: ContextView,
    report: ReportView,
    log: Option<Seq<char>>,
    now: u64,
)
    ensures
        ({
            let fields = payload(context, report, log, now);
            &&& has_field(fields, "installId"@, ValueView::Text(context.install_id))
            &&& has_field(fields, "hwFingerprint"@, ValueView::Text(context.hw_fingerprint))
            &&& has_field(fields, "appVersion"@, ValueView::Text(context.app_version))
            &&& has_field(
                fields,
                "outcome"@,
                ValueView::Text(
                    match report.outcome {
                        Outcome::InProgress => "in-progress"@,
                        Outcome::Success => "success"@,
                        Outcome::Error => "error"@,
                    },
                ),
            )
            &&& has_field(
                fields,
                "durationSec"@,
                ValueView::Number(
                    if now >= context.started_at {
                        ((now - context.started_at) / 1_000_000_000) as u64
                    } else {
                        0
                    },
                ),
            )
            &&& match context.os_build {
                Some(build) => has_field(fields, "osBuild"@, ValueView::Number(build as u64)),
                None => lacks_field(fields, "osBuild"@),
            }
            &&& match report.error_step {
                Some(step) => has_field(fields, "errorStep"@, ValueView::Text(step)),
                None => lacks_field(fields, "errorStep"@),
            }
            &&& match report.error_message {
                Some(message) => has_field(fields, "errorMessage"@, ValueView::Text(message)),
                None => lacks_field(fields, "errorMessage"@),
            }
            &&& match log {
                Some(text) => has_field(fields, "logGzipB64"@, ValueView::Text(text)),
                None => lacks_field(fields, "logGzipB64"@),
            }
            &&& fields.len() == 5 + (if context.os_build is Some {
                1int
            } else {
                0
            }) + (if report.error_step is Some {
                1int
            } else {
                0
            }) + (if report.error_message is Some {
                1int
            } else {
                0
            }) + (if log is Some {
                1int
            } else {
                0
            })
        }),
{
    lemma_field_order();
    let fields = payload(context, report, log, now);
    let f0 = text_field("installId"@, Some(context.install_id));
    let f1 = text_field("hwFingerprint"@, Some(context.hw_fingerprint));
    let f2 = text_field("appVersion"@, Some(context.app_version));
    let f3 = number_field("osBuild"@, build_number_of(context.os_build));
    let f4 = text_field("outcome"@, Some(report.outcome.label()));
    let f5 = text_field("errorStep"@, report.error_step);
    let f6 = text_field("errorMessage"@, report.error_message);
    let f7 = number_field("durationSec"@, Some(seconds_between(context.started_at, now)));
    let f8 = text_field("logGzipB64"@, log);
    assert(fields =~= f0 + f1 + f2 + f3 + f4 + f5 + f6 + f7 + f8);
    let b = 3 + f3.len() as int;
    let e = b + 1 + f5.len() + f6.len();
    assert(fields[0] == f0[0]);
    assert(fields[1] == f1[0]);
    assert(fields[2] == f2[0]);
    if f3.len() == 1 {
        assert(fields[3] == f3[0]);
    }
    assert(fields[b] == f4[0]);
    if f5.len() == 1 {
        assert(fields[b + 1] == f5[0]);
    }
    if f6.len() == 1 {
        assert(fields[b + 1 + f5.len()] == f6[0]);
    }
    assert(fields[e] == f7[0]);
    if f8.len() == 1 {
        assert(fields[e + 1] == f8[0]);
    }
    assert forall|i: int| 0 <= i < fields.len() implies ({
        let name = (#[trigger] fields[i]).0;
        &&& context.os_build is None ==> name != "osBuild"@
        &&& report.error_step is None ==> name != "errorStep"@
        &&& report.error_message is None ==> name != "errorMessage"@
        &&& log is None ==> name != "logGzipB64"@
    }) by {
        if i == 0 {
        } else if i == 1 {
        } else if i == 2 {
        } else if i < b {
        } else if i == b {
        } else if i < b + 1 + f5.len() {
        } else if i < e {
        } else if i == e {
        } else {
            assert(fields[i] == f8[0]);
        }
    }
}

/// A log that could be read is sent wherever it travels, however long it is, and
/// one that could not be read, or does not travel, is not.
pub proof fn law_read_log_is_sent(raw: Seq<u8>)
    ensures
        gzipped(raw) matches Some(compressed) ==> ((compressed.len() + 2) / 3 * 4 <= isize::MAX ==> (
        sent_log(Some(raw)) matches Some(text) && base64_decoded(text) == Some(compressed))),
        !(gzipped(raw) matches Some(compressed) && (compressed.len() + 2) / 3 * 4 <= isize::MAX)
            ==> sent_log(Some(raw)) is None,
        sent_log(None) is None,
{
    law_log_travels(gzipped(raw));
}

/// A report goes to the address that the environment gives, whatever it is, and to
/// the default where it gives none.
pub proof fn law_endpoint(address: Seq<char>)
    ensures
        endpoint(Some(address)) == address,
        endpoint(None) == "https://platform.octo-pos.net/install-logs"@,
{
}

/// Once what goes into a report was gathered, it is sent: to the address that was
/// found, with the fields of the report.
pub proof fn law_gathered_report_is_sent(
    context: ContextView,
    report: ReportView,
    log: Option<Seq<u8>>,
    now: u64,
    overridden: Option<Seq<char>>,
)
    ensures
        upload_next(
            context,
            report,
            UploadStage::Gathered,
            InputView::Gathered { log, now, endpoint: overridden },
        ) == (
            UploadTurnView::Send {
                request: RequestView {
                    endpoint: endpoint(overridden),
                    fields: payload(context, report, sent_log(log), now),
                },
            },
            context,
        ),
{
}

// When a report is sent.

/// How far sending a report has come.
#[derive(Debug, Clone, Copy, PartialEq, Eq, Structural)]
pub enum UploadStage {
    /// Nothing was asked yet.
    Begin,
    /// The time was asked for.
    Timed,
    /// What goes into the report was asked for.
    Gathered,
}

/// What sending a report is told.
#[derive(Debug)]
pub enum UploadInput {
    /// Nothing was asked yet.
    Nothing,
    /// The time, in nanoseconds.
    Clock { now: u64 },
    /// The bytes of the log, where it could be read; the time after that; and
    /// the address that the environment gives, where it gives one.
    Gathered { log: Option<Vec<u8>>, now: u64, endpoint: Option<String> },
}

/// What is to be done next.
#[derive(Debug)]
pub enum UploadTurn {
    /// Read the clock.
    ReadClock,
    /// Read the log, then the clock, and look up the address.
    Gather,
    /// Send the report, and be done. Whether it arrives is not waited for.
    Send { request: UploadRequest },
    /// Nothing: it is too soon for another report.
    Skip,
}

pub ghost enum InputView {
    Nothing,
    Clock { now: u64 },
    Gathered { log: Option<Seq<u8>>, now: u64, endpoint: Option<Seq<char>> },
}

pub ghost enum UploadTurnView {
    ReadClock,
    Gather,
    Send { request: RequestView },
    Skip,
}

impl View for UploadInput {
    type V = InputView;

    open spec fn view(&self) -> InputView {
        match self {
            UploadInput::Nothing => InputView::Nothing,
            UploadInput::Clock { now } => InputView::Clock { now: *now },
            UploadInput::Gathered { log, now, endpoint } => InputView::Gathered {
                log: match log {
                    Some(bytes) => Some(bytes@),
                    None => None,
                },
                now: *now,
                endpoint: option_text(*endpoint),
            },
        }
    }
}

impl View for UploadTurn {
    type V = UploadTurnView;

    open spec fn view(&self) -> UploadTurnView {
        match self {
            UploadTurn::ReadClock => UploadTurnView::ReadClock,
            UploadTurn::Gather => UploadTurnView::Gather,
            UploadTurn::Send { request } => UploadTurnView::Send { request: request@ },
            UploadTurn::Skip => UploadTurnView::Skip,
        }
    }
}

impl InputView {
    /// Whether this can come in a stage.
    pub open spec fn fits(self, stage: UploadStage) -> bool {
        match stage {
            UploadStage::Begin => self is Nothing,
            UploadStage::Timed => self is Clock,
            UploadStage::Gathered => self is Gathered,
        }
    }
}

impl UploadTurnView {
    /// The stage in which the answer comes, where there is one.
    pub open spec fn stage(self) -> Option<UploadStage> {
        match self {
            UploadTurnView::ReadClock => Some(UploadStage::Timed),
            UploadTurnView::Gather => Some(UploadStage::Gathered),
            UploadTurnView::Send { .. } => None,
            UploadTurnView::Skip => None,
        }
    }
}

impl UploadInput {
    /// Tells whether this can come in a stage.
    pub fn fits(&self, stage: UploadStage) -> (yes: bool)
        ensures
            yes == self@.fits(stage),
    {
        match (stage, self) {
            (UploadStage::Begin, UploadInput::Nothing) => true,
            (UploadStage::Timed, UploadInput::Clock { .. }) => true,
            (UploadStage::Gathered, UploadInput::Gathered { .. }) => true,
            _ => false,
        }
    }
}

impl UploadTurn {
    /// The stage in which the answer comes, where there is one.
    pub fn stage(&self) -> (stage: Option<UploadStage>)
        ensures
            stage == self@.stage(),
    {
        match self {
            UploadTurn::ReadClock => Some(UploadStage::Timed),
            UploadTurn::Gather => Some(UploadStage::Gathered),
            UploadTurn::Send { .. } => None,
            UploadTurn::Skip => None,
        }
    }
}

/// Whether a report that is not forced is let through at a moment, given when
/// the last one was.
pub open spec fn lets_through(last: Option<u64>, now: u64) -> bool {
    last matches Some(previous) ==> seconds_between(previous, now) >= MIN_UPLOAD_INTERVAL_SECS
}

/// What is to be done next, and the context after it.
pub open spec fn upload_next(
    context: ContextView,
    report: ReportView,
    stage: UploadStage,
    input: InputView,
) -> (UploadTurnView, ContextView) {
    match (stage, input) {
        (UploadStage::Timed, InputView::Clock { now }) => if lets_through(
            context.last_upload,
            now,
        ) {
            (UploadTurnView::Gather, ContextView { last_upload: Some(now), ..context })
        } else {
            (UploadTurnView::Skip, context)
        },
        (UploadStage::Gathered, InputView::Gathered { log, now, endpoint: overridden }) => (
            UploadTurnView::Send {
                request: RequestView {
                    endpoint: endpoint(overridden),
                    fields: payload(context, report, sent_log(log), now),
                },
            },
            context,
        ),
        _ => if report.force {
            (UploadTurnView::Gather, context)
        } else {
            (UploadTurnView::ReadClock, context)
        },
    }
}

impl TelemetryContext {
    /// Makes the context of an installation on a machine that answered so, by
    /// this version of the program, beginning now. Its identifier is made of the
    /// random bytes.
    pub fn new(
        random: [u8; 16],
        platform: Platform,
        replies: &MachineReplies,
        package_version: &str,
        started_at: u64,
    ) -> (context: TelemetryContext)
        ensures
            context@ == new_context(
                random@,
                platform,
                replies.guid@,
                replies.mac@,
                replies.digest@,
                replies.version@,
                package_version@,
                started_at,
            ),
    {
        TelemetryContext {
            install_id: install_id_of(random),
            hw_fingerprint: hw_fingerprint(platform, &replies.guid, &replies.mac, &replies.digest),
            app_version: failure("v", package_version),
            os_build: detect_os_build(platform, &replies.version),
            started_at,
            last_upload: None,
        }
    }

    /// Draws the random bytes and makes the context of an installation, or says
    /// that there were none to draw.
    pub fn draw(
        platform: Platform,
        replies: &MachineReplies,
        package_version: &str,
        started_at: u64,
    ) -> (context: Result<TelemetryContext, String>)
        ensures
            match context {
                Ok(made) => exists|random: Seq<u8>|
                    random.len() == 16 && made@ == #[trigger] new_context(
                        random,
                        platform,
                        replies.guid@,
                        replies.mac@,
                        replies.digest@,
                        replies.version@,
                        package_version@,
                        started_at,
                    ),
                Err(error) => "could not retrieve random bytes for uuid: "@.is_prefix_of(error@),
            },
    {
        let mut random: [u8; 16] = [0u8; 16];
        match fill_random(&mut random) {
            Ok(_) => Ok(
                TelemetryContext::new(random, platform, replies, package_version, started_at),
            ),
            Err(error) => {
                let prefix = "could not retrieve random bytes for uuid: ";
                let message = failure(prefix, error.as_str());
                assert(message@.subrange(0, prefix@.len() as int) =~= prefix@);
                Err(message)
            },
        }
    }

    /// Makes the fields of a report, given the log as it is sent.
    pub fn payload(&self, report: &Report, log: Option<String>, now: u64) -> (fields: Vec<
        UploadField,
    >)
        ensures
            fields_view(fields@) == payload(self@, report@, option_text(log), now),
    {
        let mut fields: Vec<UploadField> = Vec::new();
        assert(fields_view(fields@) =~= Seq::empty());
        push_text(&mut fields, "installId", &Some(self.install_id.clone()));
        push_text(&mut fields, "hwFingerprint", &Some(self.hw_fingerprint.clone()));
        push_text(&mut fields, "appVersion", &Some(self.app_version.clone()));
        let build: Option<u64> = match self.os_build {
            Some(number) => Some(number as u64),
            None => None,
        };
        push_number(&mut fields, "osBuild", build);
        push_text(&mut fields, "outcome", &Some(report.outcome.name().to_string()));
        push_text(&mut fields, "errorStep", &report.error_step);
        push_text(&mut fields, "errorMessage", &report.error_message);
        push_number(&mut fields, "durationSec", Some(elapsed_seconds(self.started_at, now)));
        push_text(&mut fields, "logGzipB64", &log);
        assert(fields_view(fields@) =~= payload(self@, report@, option_text(log), now));
        fields
    }

    /// Sends a report: one in thirty seconds at most, but for those that are
    /// forced, which are always sent and do not put off the others. Whoever
    /// receives it can unpack the log from it.
    pub fn upload(&mut self, report: &Report, stage: UploadStage, input: UploadInput) -> (turn:
        UploadTurn)
        requires
            input@.fits(stage),
        ensures
            (turn@, final(self)@) == upload_next(old(self)@, report@, stage, input@),
            stage is Gathered ==> (input@ matches InputView::Gathered { log, .. } ==> (sent_log(log)
                matches Some(text) ==> log is Some && unpacked(text) == log)),
            stage is Gathered ==> (input@ matches InputView::Gathered { log: Some(raw), .. } ==> (
            gzipped(raw) matches Some(compressed) ==> ((compressed.len() + 2) / 3 * 4 <= isize::MAX
                ==> (turn@ matches UploadTurnView::Send { request } && exists|i: int, text: Seq<char>|
                {
                    &&& 0 <= i < request.fields.len()
                    &&& #[trigger] request.fields[i] == ("logGzipB64"@, ValueView::Text(text))
                    &&& #[trigger] unpacked(text) == Some(raw)
                })))),
    {
        match (stage, input) {
            (UploadStage::Timed, UploadInput::Clock { now }) => {
                if let Some(previous) = self.last_upload {
                    if elapsed_seconds(previous, now) < MIN_UPLOAD_INTERVAL_SECS {
                        return UploadTurn::Skip;
                    }
                }
                self.last_upload = Some(now);
                UploadTurn::Gather
            },
            (UploadStage::Gathered, UploadInput::Gathered { log, now, endpoint: overridden }) => {
                let text = log_to_send(&log);
                proof {
                    if let InputView::Gathered { log: Some(raw), .. } = input@ {
                        law_payload_fields(self@, report@, sent_log(Some(raw)), now);
                        if let Some(compressed) = gzipped(raw) {
                            law_log_travels(Some(compressed));
                        }
                    }
                }
                let endpoint = match overridden {
                    Some(address) => address,
                    None => ENDPOINT_DEFAULT.to_string(),
                };
                let ghost sent = option_text(text);
                let fields = self.payload(report, text, now);
                let turn = UploadTurn::Send { request: UploadRequest { endpoint, fields } };
                proof {
                    if let Some(t) = sent {
                        let view = turn@->request.fields;
                        assert(has_field(view, "logGzipB64"@, ValueView::Text(t)));
                        let i = choose|i: int|
                            0 <= i < view.len() && #[trigger] view[i] == (
                                "logGzipB64"@,
                                ValueView::Text(t),
                            );
                        assert(turn@->request.fields[i] == ("logGzipB64"@, ValueView::Text(t)));
                        assert(unpacked(t) is Some);
                    }
                }
                turn
            },
            _ => {
                if report.force {
                    UploadTurn::Gather
                } else {
                    UploadTurn::ReadClock
                }
            },
        }
    }
}

/// A report is let through where it is forced, which leaves the context as it was,
/// and else where no other was let through that was not forced, or at least thirty
/// seconds lie between them; the moment is then kept, and nothing else changes. Any
/// other is held back, and changes nothing.
pub proof fn law_upload_steps(context: ContextView, report: ReportView, now: u64)
    ensures
        upload_next(context, report, UploadStage::Begin, InputView::Nothing) == (
            if report.force {
                UploadTurnView::Gather
            } else {
                UploadTurnView::ReadClock
            },
            context,
        ),
        upload_next(context, report, UploadStage::Timed, InputView::Clock { now }) == if (
        context.last_upload matches Some(last) ==> now >= last + 30_000_000_000) {
            (
                UploadTurnView::Gather,
                ContextView {
                    install_id: context.install_id,
                    hw_fingerprint: context.hw_fingerprint,
                    app_version: context.app_version,
                    os_build: context.os_build,
                    started_at: context.started_at,
                    last_upload: Some(now),
                },
            )
        } else {
            (UploadTurnView::Skip, context)
        },
{
}

/// Each stage is told one thing: the first nothing, the second the time, and the
/// third what was gathered; and a request leads to the stage that is told its
/// answer.
pub proof fn law_upload_inputs(input: InputView, stage: UploadStage, turn: UploadTurnView)
    ensures
        input.fits(stage) <==> match input {
            InputView::Nothing => stage is Begin,
            InputView::Clock { .. } => stage is Timed,
            InputView::Gathered { .. } => stage is Gathered,
        },
        turn.stage() == match turn {
            UploadTurnView::ReadClock => Some(UploadStage::Timed),
            UploadTurnView::Gather => Some(UploadStage::Gathered),
            _ => None,
        },
{
}

// A row of reports.

/// Whether a report is sent that is made at a moment, and the context after it.
pub open spec fn reported(context: ContextView, report: ReportView, now: u64) -> (
    bool,
    ContextView,
) {
    let (first, after) = upload_next(context, report, UploadStage::Begin, InputView::Nothing);
    match first {
        UploadTurnView::ReadClock => {
            let (second, end) = upload_next(
                after,
                report,
                UploadStage::Timed,
                InputView::Clock { now },
            );
            (second is Gather, end)
        },
        _ => (first is Gather, after),
    }
}

/// The context after a row of reports, each made at a moment.
pub open spec fn context_after(context: ContextView, reports: Seq<(ReportView, u64)>) -> ContextView
    decreases reports.len(),
{
    if reports.len() == 0 {
        context
    } else {
        reported(
            context_after(context, reports.drop_last()),
            reports.last().0,
            reports.last().1,
        ).1
    }
}

/// Whether the report at `i` in a row of them is sent.
pub open spec fn is_sent(context: ContextView, reports: Seq<(ReportView, u64)>, i: int) -> bool {
    reported(context_after(context, reports.take(i)), reports[i].0, reports[i].1).0
}

proof fn lemma_context_step(context: ContextView, reports: Seq<(ReportView, u64)>, i: int)
    requires
        0 <= i < reports.len(),
    ensures
        context_after(context, reports.take(i + 1)) == reported(
            context_after(context, reports.take(i)),
            reports[i].0,
            reports[i].1,
        ).1,
{
    assert(reports.take(i + 1).drop_last() =~= reports.take(i));
}

/// All reports on an installation carry its identifier, its fingerprint, its
/// version and its build, and count from its beginning.
pub proof fn law_context_kept(context: ContextView, reports: Seq<(ReportView, u64)>)
    ensures
        context_after(context, reports) == (ContextView {
            last_upload: context_after(context, reports).last_upload,
            ..context
        }),
    decreases reports.len(),
{
    if reports.len() > 0 {
        law_context_kept(context, reports.drop_last());
    }
}

/// Attempts on one machine share its fingerprint and its build, and have
/// different identifiers wherever the bytes that were drawn for them differ in
/// more than the marks. The first report of each is sent at once.
pub proof fn law_attempts_on_one_machine(
    first: Seq<u8>,
    second: Seq<u8>,
    platform: Platform,
    guid: EventView,
    mac: EventView,
    digest: EventView,
    version: EventView,
    package_version: Seq<char>,
    first_start: u64,
    second_start: u64,
    report: ReportView,
    now: u64,
)
    requires
        first.len() == 16,
        second.len() == 16,
    ensures
        ({
            let a = new_context(
                first,
                platform,
                guid,
                mac,
                digest,
                version,
                package_version,
                first_start,
            );
            let b = new_context(
                second,
                platform,
                guid,
                mac,
                digest,
                version,
                package_version,
                second_start,
            );
            &&& a.hw_fingerprint == b.hw_fingerprint
            &&& a.os_build == b.os_build
            &&& a.app_version == b.app_version
            &&& a.install_id == b.install_id <==> marked(first) == marked(second)
            &&& reported(a, report, now).0 && reported(b, report, now).0
        }),
{
    if install_id(first) == install_id(second) {
        law_uuid_text_injective(marked(first), marked(second));
    }
}

/// A forced report is always sent, and leaves the others as they were.
pub proof fn law_forced_is_sent(context: ContextView, report: ReportView, now: u64)
    requires
        report.force,
    ensures
        reported(context, report, now) == (true, context),
{
}

proof fn lemma_last_upload_from(
    context: ContextView,
    reports: Seq<(ReportView, u64)>,
    i: int,
    k: int,
)
    requires
        0 <= i < k <= reports.len(),
        !reports[i].0.force,
        is_sent(context, reports, i),
    ensures
        context_after(context, reports.take(k)).last_upload matches Some(last) && last
            >= reports[i].1,
    decreases k,
{
    lemma_context_step(context, reports, k - 1);
    if k > i + 1 {
        lemma_last_upload_from(context, reports, i, k - 1);
    }
}

/// Two reports that are not forced and are both sent lie at least thirty seconds
/// apart, whatever comes between them.
pub proof fn law_reports_are_spaced(
    context: ContextView,
    reports: Seq<(ReportView, u64)>,
    i: int,
    j: int,
)
    requires
        0 <= i < j < reports.len(),
        !reports[i].0.force,
        !reports[j].0.force,
        is_sent(context, reports, i),
        is_sent(context, reports, j),
    ensures
        reports[j].1 >= reports[i].1 + 30_000_000_000,
{
    lemma_last_upload_from(context, reports, i, j);
}

/// A report is held back only where another, not forced, was sent less than
/// thirty seconds before it, or after the moment that it was made at.
pub proof fn law_held_back_only_when_recent(
    context: ContextView,
    reports: Seq<(ReportView, u64)>,
    j: int,
) -> (i: int)
    requires
        context.last_upload is None,
        0 <= j < reports.len(),
        !is_sent(context, reports, j),
    ensures
        0 <= i < j,
        !reports[i].0.force,
        is_sent(context, reports, i),
        reports[j].1 < reports[i].1 + 30_000_000_000,
{
    lemma_last_upload_is_sent(context, reports, j)
}

proof fn lemma_last_upload_is_sent(
    context: ContextView,
    reports: Seq<(ReportView, u64)>,
    k: int,
) -> (i: int)
    requires
        context.last_upload is None,
        0 <= k <= reports.len(),
        context_after(context, reports.take(k)).last_upload is Some,
    ensures
        0 <= i < k,
        !reports[i].0.force,
        is_sent(context, reports, i),
        context_after(context, reports.take(k)).last_upload == Some(reports[i].1),
    decreases k,
{
    if k == 0 {
        assert(reports.take(0) =~= Seq::empty());
        0
    } else {
        lemma_context_step(context, reports, k - 1);
        if !reports[k - 1].0.force && is_sent(context, reports, k - 1) {
            k - 1
        } else {
            lemma_last_upload_is_sent(context, reports, k - 1)
        }
    }
}

/// A new context has the version behind a "v", the fingerprint and the build that
/// the machine's answers give, the moment it began, and no report behind it.
pub proof fn law_new_context(
    random: Seq<u8>,
    platform: Platform,
    guid: EventView,
    mac: EventView,
    digest: EventView,
    version: EventView,
    package_version: Seq<char>,
    started_at: u64,
)
    ensures
        ({
            let context = new_context(
                random,
                platform,
                guid,
                mac,
                digest,
                version,
                package_version,
                started_at,
            );
            &&& context.app_version == "v"@ + package_version
            &&& context.hw_fingerprint == fingerprint(platform, guid, mac, digest)
            &&& context.os_build == detected_build(platform, version)
            &&& context.started_at == started_at
            &&& context.last_upload is None
            &&& context.install_id == uuid_text(marked(random))
        }),
{
}

/// A context, a report, its fields and what is to be done with it are shown as they
/// are.
pub proof fn law_report_views(
    context: TelemetryContext,
    report: Report,
    fields: Seq<UploadField>,
    i: int,
)
    ensures
        context@ == (ContextView {
            install_id: context.install_id@,
            hw_fingerprint: context.hw_fingerprint@,
            app_version: context.app_version@,
            os_build: context.os_build,
            started_at: context.started_at,
            last_upload: context.last_upload,
        }),
        report@ == (ReportView {
            outcome: report.outcome,
            error_step: option_text(report.error_step),
            error_message: option_text(report.error_message),
            force: report.force,
        }),
        fields_view(fields).len() == fields.len(),
        0 <= i < fields.len() ==> fields_view(fields)[i].0 == fields[i].name@ && (
        match fields[i].value {
            FieldValue::Text(text) => fields_view(fields)[i].1 == ValueView::Text(text@),
            FieldValue::Number(number) => fields_view(fields)[i].1 == ValueView::Number(number),
        }),
{
}

/// So are what sending a report is told, and what it asks for.
pub proof fn law_upload_views(input: UploadInput, turn: UploadTurn)
    ensures
        match input {
            UploadInput::Nothing => input@ is Nothing,
            UploadInput::Clock { now } => input@ == (InputView::Clock { now }),
            UploadInput::Gathered { log, now, endpoint } => input@ == (InputView::Gathered {
                log: match log {
                    Some(bytes) => Some(bytes@),
                    None => None,
                },
                now,
                endpoint: option_text(endpoint),
            }),
        },
        match turn {
            UploadTurn::ReadClock => turn@ is ReadClock,
            UploadTurn::Gather => turn@ is Gather,
            UploadTurn::Send { request } => turn@ == (UploadTurnView::Send {
                request: RequestView {
                    endpoint: request.endpoint@,
                    fields: fields_view(request.fields@),
                },
            }),
            UploadTurn::Skip => turn@ is Skip,
        },
{
}

} // verus!
