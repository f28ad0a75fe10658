//! The fingerprint of the machine: a digest of its Windows identifier and the
//! address of its first network adapter, the same on every installation.
use vstd::prelude::*;
use vstd::slice::*;
use vstd::string::*;
use vstd::utf8::*;

use crate::effect::{
    CommandLine, Event, EventView, Platform, option_text, plain, plain_command, words,
};
use crate::handoff::{powershell, powershell_command};
use crate::number::{append_hex, hex, hex_value, is_hex, law_hex_value, lemma_hex, sixteens};
use crate::text::{
    append_quoted, chars_of, find_char, find_text, first_line, from_utf8_lossy, is_space,
    law_lines, law_quoted_read_back, law_trim, law_trim_start_char, lemma_find_char,
    lemma_find_char_is, lemma_find_text, lines, lossy_text, position_of_char, position_of_text,
    quoted, read_literal, string_of, trim, trim_end, trim_start_char, trimmed, without_leading,
};

verus! {

// The identifier of this Windows.

/// The identifier in what `reg query` prints: on the first line that names the
/// type `REG_SZ`, what follows that name.
pub open spec fn guid_of(lines: Seq<Seq<char>>) -> Option<Seq<char>>
    decreases lines.len(),
{
    if lines.len() == 0 {
        None
    } else {
        match find_text(lines[0], "REG_SZ"@) {
            Some(i) => Some(trim(lines[0].skip(i + "REG_SZ"@.len()))),
            None => guid_of(lines.skip(1)),
        }
    }
}

/// The command that prints the identifier.
pub fn machine_guid_query() -> (command: CommandLine)
    ensures
        command@ == plain(
            "reg"@,
            seq!["query"@, "HKLM\\SOFTWARE\\Microsoft\\Cryptography"@, "/v"@, "MachineGuid"@],
        ),
{
    let command = plain_command(
        "reg",
        &["query", "HKLM\\SOFTWARE\\Microsoft\\Cryptography", "/v", "MachineGuid"],
    );
    assert(command@.args =~= words(
        seq!["query"@, "HKLM\\SOFTWARE\\Microsoft\\Cryptography"@, "/v"@, "MachineGuid"@],
    ));
    command
}

/// Finds the identifier in what `reg query` prints.
pub fn machine_guid_in(text: &str) -> (guid: Option<String>)
    ensures
        option_text(guid) == guid_of(lines(text@)),
{
    let chars = chars_of(text);
    let name = chars_of("REG_SZ");
    let mut rest: &[char] = chars.as_slice();
    while rest.len() > 0
        invariant
            name@ == "REG_SZ"@,
            guid_of(lines(text@)) == guid_of(lines(rest@)),
        decreases rest@.len(),
    {
        let (line, more) = first_line(rest);
        assert(lines(rest@).skip(1) =~= lines(more@));
        let size: usize = line.len();
        match position_of_text(line, name.as_slice()) {
            Some(i) => {
                proof {
                    lemma_find_text(line@, name@);
                }
                let value = slice_subrange(line, i + name.len(), size);
                assert(value@ =~= line@.skip(i + name@.len()));
                return Some(string_of(trimmed(value)));
            },
            None => {},
        }
        rest = more;
    }
    None
}

/// The identifier, given the reply to `machine_guid_query`.
pub open spec fn machine_guid(reply: EventView) -> Option<Seq<char>> {
    match reply {
        EventView::Exited { stdout, .. } => guid_of(lines(lossy_text(stdout))),
        _ => None,
    }
}

/// Finds the identifier of this Windows.
pub fn read_machine_guid(reply: &Event) -> (guid: Option<String>)
    ensures
        option_text(guid) == machine_guid(reply@),
        reply@ matches EventView::Exited { stdout, .. } ==> (valid_utf8(stdout) ==> option_text(guid)
            == guid_of(lines(decode_utf8(stdout)))),
{
    match reply {
        Event::Exited { stdout, .. } => {
            let text = from_utf8_lossy(stdout.as_slice());
            machine_guid_in(text.as_str())
        },
        _ => None,
    }
}

// The address of the first network adapter.

/// The address on a line of what `getmac` prints: the first column, without its
/// quotes, where it looks like an address.
pub open spec fn mac_in_line(line: Seq<char>) -> Option<Seq<char>> {
    let cut = trim(line);
    if cut.len() == 0 || cut[0] == '#' {
        None
    } else {
        let column = trim_start_char(cut, '"');
        match find_char(column, '"') {
            Some(end) => {
                let mac = column.take(end);
                if find_char(mac, '-') is Some || find_char(mac, ':') is Some {
                    Some(mac)
                } else {
                    None
                }
            },
            None => None,
        }
    }
}

/// The address on the first line that has one.
pub open spec fn mac_of(lines: Seq<Seq<char>>) -> Option<Seq<char>>
    decreases lines.len(),
{
    if lines.len() == 0 {
        None
    } else {
        match mac_in_line(lines[0]) {
            Some(mac) => Some(mac),
            None => mac_of(lines.skip(1)),
        }
    }
}

/// The command that prints the addresses.
pub fn mac_query() -> (command: CommandLine)
    ensures
        command@ == plain("getmac"@, seq!["/fo"@, "csv"@, "/nh"@]),
{
    let command = plain_command("getmac", &["/fo", "csv", "/nh"]);
    assert(command@.args =~= words(seq!["/fo"@, "csv"@, "/nh"@]));
    command
}

/// Finds the address on a line.
fn line_mac(line: &[char]) -> (mac: Option<String>)
    ensures
        option_text(mac) == mac_in_line(line@),
{
    let cut = trimmed(line);
    if cut.len() == 0 || cut[0] == '#' {
        return None;
    }
    let column = without_leading(cut, '"');
    match position_of_char(column, '"') {
        Some(end) => {
            proof {
                lemma_find_char(column@, '"');
            }
            let mac = slice_subrange(column, 0, end);
            assert(mac@ =~= column@.take(end as int));
            if position_of_char(mac, '-').is_some() || position_of_char(mac, ':').is_some() {
                Some(string_of(mac))
            } else {
                None
            }
        },
        None => None,
    }
}

/// Finds the address in what `getmac` prints.
pub fn primary_mac_in(text: &str) -> (mac: Option<String>)
    ensures
        option_text(mac) == mac_of(lines(text@)),
{
    let chars = chars_of(text);
    let mut rest: &[char] = chars.as_slice();
    while rest.len() > 0
        invariant
            mac_of(lines(text@)) == mac_of(lines(rest@)),
        decreases rest@.len(),
    {
        let (line, more) = first_line(rest);
        assert(lines(rest@).skip(1) =~= lines(more@));
        assert(lines(rest@)[0] == line@);
        let mac = line_mac(line);
        if mac.is_some() {
            return mac;
        }
        rest = more;
    }
    None
}

/// The address, given the reply to `mac_query`.
pub open spec fn first_mac(reply: EventView) -> Option<Seq<char>> {
    match reply {
        EventView::Exited { stdout, .. } => mac_of(lines(lossy_text(stdout))),
        _ => None,
    }
}

/// Finds the address of the first network adapter.
pub fn primary_mac(reply: &Event) -> (mac: Option<String>)
    ensures
        option_text(mac) == first_mac(reply@),
        reply@ matches EventView::Exited { stdout, .. } ==> (valid_utf8(stdout) ==> option_text(mac)
            == mac_of(lines(decode_utf8(stdout)))),
{
    match reply {
        Event::Exited { stdout, .. } => {
            let text = from_utf8_lossy(stdout.as_slice());
            primary_mac_in(text.as_str())
        },
        _ => None,
    }
}

// The digest.

/// The script that prints the SHA-256 digest of a text in lower-case
/// hexadecimal digits.
pub open spec fn digest_script(text: Seq<char>) -> Seq<char> {
    "$h = [System.Security.Cryptography.SHA256]::Create(); $b = [System.Text.Encoding]::UTF8.GetBytes("@
        + quoted(text)
        + "); ($h.ComputeHash($b) | ForEach-Object { '{0:x2}' -f $_ }) -join ''"@
}

/// The command that prints the digest of bytes, taken for text.
pub fn digest_command(bytes: &[u8]) -> (command: CommandLine)
    ensures
        command@ == powershell(digest_script(lossy_text(bytes@))),
        valid_utf8(bytes@) ==> command@ == powershell(digest_script(decode_utf8(bytes@))),
{
    let text = from_utf8_lossy(bytes);
    let mut script =
        "$h = [System.Security.Cryptography.SHA256]::Create(); $b = [System.Text.Encoding]::UTF8.GetBytes(".to_string();
    append_quoted(&mut script, text.as_str());
    script.append("); ($h.ComputeHash($b) | ForEach-Object { '{0:x2}' -f $_ }) -join ''");
    powershell_command(script.as_str())
}

/// The literal in the script is read as the text to take the digest of, whatever
/// apostrophes are in it.
pub proof fn law_digest_script_well_formed(text: Seq<char>)
    ensures
        read_literal(
            digest_script(text).skip(
                "$h = [System.Security.Cryptography.SHA256]::Create(); $b = [System.Text.Encoding]::UTF8.GetBytes("@.len() as int
                    + 1,
            ),
        ) == Some((text, "); ($h.ComputeHash($b) | ForEach-Object { '{0:x2}' -f $_ }) -join ''"@)),
{
    let head =
        "$h = [System.Security.Cryptography.SHA256]::Create(); $b = [System.Text.Encoding]::UTF8.GetBytes("@;
    let tail = "); ($h.ComputeHash($b) | ForEach-Object { '{0:x2}' -f $_ }) -join ''"@;
    reveal_strlit("); ($h.ComputeHash($b) | ForEach-Object { '{0:x2}' -f $_ }) -join ''");
    assert(digest_script(text).skip(head.len() as int + 1) =~= (quoted(text) + tail).skip(1));
    law_quoted_read_back(text, tail);
}

/// The FNV-1a hash of a byte string, in 64 bits.
pub open spec fn fnv1a(bytes: Seq<u8>) -> u64
    decreases bytes.len(),
{
    if bytes.len() == 0 {
        0xcbf29ce484222325
    } else {
        ((fnv1a(bytes.drop_last()) ^ (bytes.last() as u64)) * 0x100000001b3 % 0x1_0000_0000_0000_0000) as u64
    }
}

/// The hash that follows another, around the end of the 64 bits.
pub open spec fn next_hash(hash: u64) -> u64 {
    if hash == u64::MAX {
        0
    } else {
        (hash + 1) as u64
    }
}

/// What stands for the digest where none can be had: the hash, its complement,
/// the hash that follows it, and the complement of that.
pub open spec fn stand_in(bytes: Seq<u8>) -> Seq<char> {
    let h = fnv1a(bytes);
    let n = next_hash(h);
    hex(h as nat, 16) + hex((u64::MAX - h) as nat, 16) + hex(n as nat, 16) + hex(
        (u64::MAX - n) as nat,
        16,
    )
}

/// Makes what stands for the digest.
pub fn stand_in_digest(bytes: &[u8]) -> (digest: String)
    ensures
        digest@ == stand_in(bytes@),
{
    let mut h: u64 = 0xcbf29ce484222325;
    for i in 0..bytes.len()
        invariant
            h == fnv1a(bytes@.take(i as int)),
    {
        let ghost next = bytes@.take(i + 1);
        assert(next.drop_last() =~= bytes@.take(i as int));
        h = (h ^ (bytes[i] as u64)).wrapping_mul(0x100000001b3);
    }
    assert(bytes@.take(bytes@.len() as int) =~= bytes@);
    let n: u64 = h.wrapping_add(1);
    let mut digest = String::new();
    append_hex(&mut digest, h, 16);
    append_hex(&mut digest, u64::MAX - h, 16);
    append_hex(&mut digest, n, 16);
    append_hex(&mut digest, u64::MAX - n, 16);
    assert(digest@ =~= stand_in(bytes@));
    digest
}

/// What stands for a digest has the shape of one: 64 lower-case hexadecimal
/// digits.
pub proof fn law_stand_in_shape(bytes: Seq<u8>)
    ensures
        stand_in(bytes).len() == 64,
        is_hex(stand_in(bytes)),
{
    let h = fnv1a(bytes);
    let n = next_hash(h);
    lemma_hex(h as nat, 16);
    lemma_hex((u64::MAX - h) as nat, 16);
    lemma_hex(n as nat, 16);
    lemma_hex((u64::MAX - n) as nat, 16);
}

/// The digest of bytes, given the reply to `digest_command`: what PowerShell
/// printed, or what stands for it where PowerShell could not be run. Off
/// Windows it is never asked.
pub open spec fn digest(platform: Platform, bytes: Seq<u8>, reply: EventView) -> Seq<char> {
    match (platform, reply) {
        (Platform::Windows, EventView::Exited { stdout, .. }) => trim(lossy_text(stdout)),
        _ => stand_in(bytes),
    }
}

/// Cuts the white space off a text.
pub fn trimmed_text(text: &str) -> (cut: String)
    ensures
        cut@ == trim(text@),
{
    let chars = chars_of(text);
    string_of(trimmed(chars.as_slice()))
}

/// Finds the digest of bytes.
pub fn sha256_hex(platform: Platform, bytes: &[u8], reply: &Event) -> (hex_digest: String)
    ensures
        hex_digest@ == digest(platform, bytes@, reply@),
        reply@ matches EventView::Exited { stdout, .. } ==> (platform is Windows && valid_utf8(
            stdout,
        ) ==> hex_digest@ == trim(decode_utf8(stdout))),
{
    match (platform, reply) {
        (Platform::Windows, Event::Exited { stdout, .. }) => {
            let text = from_utf8_lossy(stdout.as_slice());
            trimmed_text(text.as_str())
        },
        _ => stand_in_digest(bytes),
    }
}

// The fingerprint.

/// The text, or nothing where there is none.
pub open spec fn or_empty(text: Option<Seq<char>>) -> Seq<char> {
    match text {
        Some(t) => t,
        None => Seq::empty(),
    }
}

/// The text whose digest is the fingerprint: the identifier and the address,
/// with a bar between them. Off Windows it is a fixed text.
pub open spec fn fingerprint_source(
    platform: Platform,
    guid: Option<Seq<char>>,
    mac: Option<Seq<char>>,
) -> Seq<char> {
    match platform {
        Platform::Windows => or_empty(guid) + seq!['|'] + or_empty(mac),
        Platform::Other => "non-windows-dev-build"@,
    }
}

/// Makes the text whose digest is the fingerprint, given the replies to
/// `machine_guid_query` and `mac_query`.
pub fn source_text(platform: Platform, guid: &Event, mac: &Event) -> (source: String)
    ensures
        source@ == fingerprint_source(platform, machine_guid(guid@), first_mac(mac@)),
{
    match platform {
        Platform::Windows => {
            let mut source = match read_machine_guid(guid) {
                Some(text) => text,
                None => String::new(),
            };
            source.push('|');
            let ghost front = source@;
            match primary_mac(mac) {
                Some(text) => {
                    source.append(text.as_str());
                },
                None => {},
            }
            assert(source@ =~= front + or_empty(first_mac(mac@)));
            assert(source@ =~= fingerprint_source(platform, machine_guid(guid@), first_mac(mac@)));
            source
        },
        Platform::Other => "non-windows-dev-build".to_string(),
    }
}

/// The command that prints the fingerprint, given the replies to the two
/// queries.
pub fn fingerprint_query(platform: Platform, guid: &Event, mac: &Event) -> (command: CommandLine)
    ensures
        command@ == powershell(
            digest_script(fingerprint_source(platform, machine_guid(guid@), first_mac(mac@))),
        ),
{
    let source = source_text(platform, guid, mac);
    proof {
        encode_utf8_valid_utf8(source@);
        encode_utf8_decode_utf8(source@);
    }
    digest_command(source.as_str().as_bytes())
}

/// The fingerprint, given the replies to the two queries and to
/// `fingerprint_query`.
pub open spec fn fingerprint(
    platform: Platform,
    guid: EventView,
    mac: EventView,
    reply: EventView,
) -> Seq<char> {
    digest(
        platform,
        encode_utf8(fingerprint_source(platform, machine_guid(guid), first_mac(mac))),
        reply,
    )
}

/// Finds the fingerprint of the machine.
pub fn hw_fingerprint(platform: Platform, guid: &Event, mac: &Event, reply: &Event) -> (text: String)
    ensures
        text@ == fingerprint(platform, guid@, mac@, reply@),
{
    let source = source_text(platform, guid, mac);
    sha256_hex(platform, source.as_str().as_bytes(), reply)
}

/// Different machines have different texts to take the digest of: from the text
/// both the identifier and the address can be told, as long as there is no bar
/// in the identifier.
pub proof fn law_source_tells_machines(
    guid: Seq<char>,
    mac: Seq<char>,
    other_guid: Seq<char>,
    other_mac: Seq<char>,
)
    requires
        find_char(guid, '|') is None,
        find_char(other_guid, '|') is None,
        fingerprint_source(Platform::Windows, Some(guid), Some(mac)) == fingerprint_source(
            Platform::Windows,
            Some(other_guid),
            Some(other_mac),
        ),
    ensures
        guid == other_guid,
        mac == other_mac,
{
    let source = guid + seq!['|'] + mac;
    let other = other_guid + seq!['|'] + other_mac;
    lemma_find_char(guid, '|');
    lemma_find_char(other_guid, '|');
    if guid.len() < other_guid.len() {
        assert(source[guid.len() as int] == '|');
        assert(other[guid.len() as int] == other_guid[guid.len() as int]);
    }
    if other_guid.len() < guid.len() {
        assert(other[other_guid.len() as int] == '|');
        assert(source[other_guid.len() as int] == guid[other_guid.len() as int]);
    }
    assert(guid =~= source.take(guid.len() as int));
    assert(other_guid =~= other.take(guid.len() as int));
    assert(mac =~= source.skip(guid.len() as int + 1));
    assert(other_mac =~= other.skip(guid.len() as int + 1));
}

// What the parts of the fingerprint come to.

/// The identifier is what stands behind the first `REG_SZ` of the first line that
/// has one, without the white space around it.
pub proof fn law_guid(
    before: Seq<Seq<char>>,
    head: Seq<char>,
    front: Seq<char>,
    guid: Seq<char>,
    back: Seq<char>,
    after: Seq<Seq<char>>,
)
    requires
        forall|i: int| 0 <= i < before.len() ==> find_text(#[trigger] before[i], "REG_SZ"@) is None,
        find_text(head + "REG_SZ"@ + front + guid + back, "REG_SZ"@) == Some(head.len() as int),
        forall|i: int| 0 <= i < front.len() ==> is_space(#[trigger] front[i]),
        forall|i: int| 0 <= i < back.len() ==> is_space(#[trigger] back[i]),
        guid.len() > 0 ==> !is_space(guid[0]) && !is_space(guid.last()),
    ensures
        guid_of(before) is None,
        guid_of(before + seq![head + "REG_SZ"@ + front + guid + back] + after) == Some(guid),
    decreases before.len(),
{
    let line = head + "REG_SZ"@ + front + guid + back;
    let all = before + seq![line] + after;
    if before.len() == 0 {
        assert(all[0] == line);
        assert(line.skip((head.len() + "REG_SZ"@.len()) as int) =~= front + guid + back);
        law_trim(front, guid, back);
    } else {
        let rest = before.skip(1);
        assert forall|i: int| 0 <= i < rest.len() implies find_text(
            #[trigger] rest[i],
            "REG_SZ"@,
        ) is None by {
            assert(rest[i] == before[i + 1]);
        }
        law_guid(rest, head, front, guid, back, after);
        assert(all[0] == before[0]);
        assert(find_text(before[0], "REG_SZ"@) is None);
        assert(all.skip(1) =~= rest + seq![line] + after);
    }
}

proof fn lemma_trim_keeps_front(s: Seq<char>, n: int)
    requires
        0 < n <= s.len(),
        !is_space(s[0]),
        !is_space(s[n - 1]),
    ensures
        trim(s).len() >= n,
        trim(s).take(n) == s.take(n),
    decreases s.len(),
{
    assert(trim(s) == trim_end(s));
    if is_space(s.last()) {
        let front = s.drop_last();
        assert(n <= front.len());
        lemma_trim_keeps_front(front, n);
        assert(trim(front) == trim_end(front));
        assert(front.take(n) =~= s.take(n));
    }
}

/// The address of a line is what stands, behind the white space and the quotes that
/// it begins with, before the next quote, where that has a hyphen or a colon in it,
/// whatever follows. Where it has neither, the line has none.
pub proof fn law_mac_before_quote(
    blank: Seq<char>,
    quotes: Seq<char>,
    column: Seq<char>,
    rest: Seq<char>,
)
    requires
        forall|i: int| 0 <= i < blank.len() ==> is_space(#[trigger] blank[i]),
        forall|i: int| 0 <= i < quotes.len() ==> #[trigger] quotes[i] == '"',
        column.len() > 0,
        forall|i: int| 0 <= i < column.len() ==> #[trigger] column[i] != '"',
        quotes.len() == 0 ==> !is_space(column[0]) && column[0] != '#',
    ensures
        mac_in_line(blank + quotes + column + seq!['"'] + rest) == if exists|i: int|
            0 <= i < column.len() && (#[trigger] column[i] == '-' || column[i] == ':') {
            Some(column)
        } else {
            None
        },
{
    let shown = quotes + column + seq!['"'] + rest;
    assert(blank + quotes + column + seq!['"'] + rest =~= blank + shown);
    let q = quotes.len() as int;
    let n = q + column.len() + 1;
    let cut = trim(blank + shown);
    lemma_trim_front(blank, shown);
    assert(shown[n - 1] == '"');
    if q > 0 {
        assert(shown[0] == quotes[0]);
    } else {
        assert(shown[0] == column[0]);
    }
    // What is shown is kept up to the quote behind the column.
    lemma_trim_keeps_front(shown, n);
    assert forall|j: int| 0 <= j < n implies cut[j] == shown[j] by {
        assert(cut[j] == cut.take(n)[j]);
        assert(shown[j] == shown.take(n)[j]);
    }
    // The quotes are taken off the front, and the column ends at the next.
    law_trim_start_char(cut, '"');
    let i = choose|i: int|
        {
            &&& 0 <= i <= cut.len()
            &&& trim_start_char(cut, '"') == #[trigger] cut.skip(i)
            &&& forall|j: int| 0 <= j < i ==> cut[j] == '"'
            &&& i < cut.len() ==> cut[i] != '"'
        };
    assert(cut[q] == column[0]);
    if i < q {
        assert(cut[i] == quotes[i]);
    }
    assert(i == q);
    let tail = cut.skip(q);
    assert(tail[column.len() as int] == '"');
    assert forall|j: int| 0 <= j < column.len() implies tail[j] != '"' by {
        assert(tail[j] == cut[j + q]);
        assert(cut[j + q] == column[j]);
    }
    lemma_find_char_is(tail, '"', column.len() as int);
    assert(tail.take(column.len() as int) =~= column);
    lemma_find_char(column, '-');
    lemma_find_char(column, ':');
}

/// A first column in quotes that has a hyphen or a colon is the address of its
/// line, whatever stands in the columns behind it, and whatever white space stands
/// before it. One that has neither gives none.
pub proof fn law_mac_is_first_column(blank: Seq<char>, column: Seq<char>, rest: Seq<char>)
    requires
        forall|i: int| 0 <= i < blank.len() ==> is_space(#[trigger] blank[i]),
        column.len() > 0,
        forall|i: int| 0 <= i < column.len() ==> #[trigger] column[i] != '"',
    ensures
        mac_in_line(blank + seq!['"'] + column + seq!['"'] + rest) == if exists|i: int|
            0 <= i < column.len() && (#[trigger] column[i] == '-' || column[i] == ':') {
            Some(column)
        } else {
            None
        },
{
    law_mac_before_quote(blank, seq!['"'], column, rest);
}

proof fn lemma_trim_front(blank: Seq<char>, rest: Seq<char>)
    requires
        forall|i: int| 0 <= i < blank.len() ==> is_space(#[trigger] blank[i]),
    ensures
        trim(blank + rest) == trim(rest),
    decreases blank.len(),
{
    if blank.len() == 0 {
        assert(blank + rest =~= rest);
    } else {
        assert((blank + rest)[0] == blank[0]);
        assert((blank + rest).skip(1) =~= blank.skip(1) + rest);
        lemma_trim_front(blank.skip(1), rest);
    }
}

/// The address of a listing is that of its first line that has one.
pub proof fn law_mac_of_listing(before: Seq<Seq<char>>, line: Seq<char>, after: Seq<Seq<char>>)
    requires
        forall|i: int| 0 <= i < before.len() ==> mac_in_line(#[trigger] before[i]) is None,
    ensures
        mac_of(before) is None,
        mac_in_line(line) is Some ==> mac_of(before + seq![line] + after) == mac_in_line(line),
    decreases before.len(),
{
    let all = before + seq![line] + after;
    if before.len() == 0 {
        assert(all[0] == line);
    } else {
        let rest = before.skip(1);
        assert forall|i: int| 0 <= i < rest.len() implies mac_in_line(#[trigger] rest[i]) is None by {
            assert(rest[i] == before[i + 1]);
        }
        law_mac_of_listing(rest, line, after);
        assert(all[0] == before[0]);
        assert(mac_in_line(before[0]) is None);
        assert(all.skip(1) =~= rest + seq![line] + after);
    }
}

proof fn lemma_trim_end_is_front(s: Seq<char>)
    ensures
        trim_end(s).len() <= s.len(),
        forall|i: int| 0 <= i < trim_end(s).len() ==> #[trigger] trim_end(s)[i] == s[i],
    decreases s.len(),
{
    if s.len() > 0 && is_space(s.last()) {
        lemma_trim_end_is_front(s.drop_last());
    }
}

/// Blank lines, comments, and lines with no quote but those that they begin with
/// have no address.
pub proof fn law_lines_without_mac(blank: Seq<char>, quotes: Seq<char>, text: Seq<char>)
    requires
        forall|i: int| 0 <= i < blank.len() ==> is_space(#[trigger] blank[i]),
        forall|i: int| 0 <= i < quotes.len() ==> #[trigger] quotes[i] == '"',
    ensures
        mac_in_line(blank) is None,
        mac_in_line(blank + seq!['#'] + text) is None,
        (forall|i: int| 0 <= i < text.len() ==> #[trigger] text[i] != '"') ==> mac_in_line(
            blank + quotes + text,
        ) is None,
{
    law_trim(blank, Seq::empty(), Seq::empty());
    assert(blank + Seq::empty() + Seq::empty() =~= blank);
    let comment = seq!['#'] + text;
    assert(blank + seq!['#'] + text =~= blank + comment);
    lemma_trim_front(blank, comment);
    assert(comment[0] == '#');
    lemma_trim_keeps_front(comment, 1);
    assert(trim(comment)[0] == trim(comment).take(1)[0]);
    assert(comment[0] == comment.take(1)[0]);
    if forall|i: int| 0 <= i < text.len() ==> #[trigger] text[i] != '"' {
        let shown = quotes + text;
        let q = quotes.len() as int;
        assert(blank + quotes + text =~= blank + shown);
        lemma_trim_front(blank, shown);
        let cut = trim(shown);
        // Every quote in what is left of the line is one of those at its front.
        if q == 0 {
            assert(shown =~= text);
            lemma_trim_has_no_new(text, '"');
        } else {
            assert(shown[0] == quotes[0]);
            assert(cut == trim_end(shown));
            lemma_trim_end_is_front(shown);
            assert forall|j: int| q <= j < cut.len() implies cut[j] != '"' by {
                assert(shown[j] == text[j - q]);
            }
        }
        law_trim_start_char(cut, '"');
        let i = choose|i: int|
            {
                &&& 0 <= i <= cut.len()
                &&& trim_start_char(cut, '"') == #[trigger] cut.skip(i)
                &&& forall|j: int| 0 <= j < i ==> cut[j] == '"'
                &&& i < cut.len() ==> cut[i] != '"'
            };
        if i < cut.len() && i < q {
            assert(cut[i] == shown[i]);
            assert(shown[i] == quotes[i]);
        }
        let column = cut.skip(i);
        assert forall|j: int| 0 <= j < column.len() implies column[j] != '"' by {
            assert(column[j] == cut[j + i]);
        }
        lemma_find_char(column, '"');
    }
}

proof fn lemma_trim_has_no_new(text: Seq<char>, c: char)
    requires
        forall|i: int| 0 <= i < text.len() ==> #[trigger] text[i] != c,
    ensures
        forall|i: int| 0 <= i < trim(text).len() ==> #[trigger] trim(text)[i] != c,
    decreases text.len(),
{
    if text.len() > 0 && is_space(text[0]) {
        lemma_trim_has_no_new(text.skip(1), c);
        assert(trim(text) == trim(text.skip(1)));
    } else if text.len() > 0 && is_space(text.last()) {
        let front = text.drop_last();
        lemma_trim_has_no_new(front, c);
        assert(trim(text) == trim_end(front));
        assert(front[0] == text[0]);
        assert(trim(front) == trim_end(front));
    } else {
        assert(trim(text) == text);
    }
}

/// The columns behind the first make no difference to the address of a line, so
/// that a machine keeps its fingerprint when an adapter comes up or goes down.
pub proof fn law_mac_does_not_depend_on_the_rest(column: Seq<char>, rest: Seq<char>, other: Seq<char>)
    requires
        column.len() > 0,
        forall|i: int| 0 <= i < column.len() ==> #[trigger] column[i] != '"',
    ensures
        mac_in_line(seq!['"'] + column + seq!['"'] + rest) == mac_in_line(
            seq!['"'] + column + seq!['"'] + other,
        ),
{
    law_mac_is_first_column(Seq::empty(), column, rest);
    law_mac_is_first_column(Seq::empty(), column, other);
    assert(Seq::<char>::empty() + seq!['"'] + column + seq!['"'] + rest =~= seq!['"'] + column
        + seq!['"'] + rest);
    assert(Seq::<char>::empty() + seq!['"'] + column + seq!['"'] + other =~= seq!['"'] + column
        + seq!['"'] + other);
}

/// What the machine printed is searched whatever the exit code was, and a command
/// that did not run gives nothing.
pub proof fn law_queries_are_read(
    platform: Platform,
    bytes: Seq<u8>,
    code: Option<i32>,
    stdout: Seq<u8>,
    reply: EventView,
)
    ensures
        machine_guid(EventView::Exited { code, stdout }) == guid_of(lines(lossy_text(stdout))),
        !(reply is Exited) ==> machine_guid(reply) is None,
        first_mac(EventView::Exited { code, stdout }) == mac_of(lines(lossy_text(stdout))),
        !(reply is Exited) ==> first_mac(reply) is None,
        digest(Platform::Windows, bytes, EventView::Exited { code, stdout }) == trim(
            lossy_text(stdout),
        ),
        !(reply is Exited) ==> digest(platform, bytes, reply) == stand_in(bytes),
        digest(Platform::Other, bytes, reply) == stand_in(bytes),
{
}

/// The digest is asked of PowerShell for the text as it is, between apostrophes; and
/// the text is the identifier, a bar and the address, each empty where it is missing.
pub proof fn law_digest_is_asked_for(
    text: Seq<char>,
    guid: Option<Seq<char>>,
    mac: Option<Seq<char>>,
)
    ensures
        digest_script(text)
            == "$h = [System.Security.Cryptography.SHA256]::Create(); $b = [System.Text.Encoding]::UTF8.GetBytes("@
            + quoted(text)
            + "); ($h.ComputeHash($b) | ForEach-Object { '{0:x2}' -f $_ }) -join ''"@,
        fingerprint_source(Platform::Windows, guid, mac) == match guid {
            Some(g) => g,
            None => Seq::empty(),
        } + seq!['|'] + match mac {
            Some(m) => m,
            None => Seq::empty(),
        },
        fingerprint_source(Platform::Other, guid, mac) == "non-windows-dev-build"@,
{
}

/// The fingerprint of a Windows is what PowerShell printed for its identifier, a
/// bar and its address, without the white space around it and whatever the exit
/// code, or, where PowerShell did not run, what stands for that digest. An
/// identifier or address that is missing counts as empty. Elsewhere the
/// fingerprint is that of one fixed text.
pub proof fn law_fingerprint(
    guid: EventView,
    mac: EventView,
    front: Seq<char>,
    text: Seq<char>,
    back: Seq<char>,
    code: Option<i32>,
    stdout: Seq<u8>,
    error: Seq<char>,
    reply: EventView,
)
    requires
        forall|i: int| 0 <= i < front.len() ==> is_space(#[trigger] front[i]),
        forall|i: int| 0 <= i < back.len() ==> is_space(#[trigger] back[i]),
        text.len() > 0 ==> !is_space(text[0]) && !is_space(text.last()),
        lossy_text(stdout) == front + text + back,
    ensures
        fingerprint(Platform::Windows, guid, mac, EventView::Exited { code, stdout }) == text,
        fingerprint(Platform::Windows, guid, mac, EventView::Failed { error }) == stand_in(
            encode_utf8(
                match machine_guid(guid) {
                    Some(g) => g,
                    None => Seq::empty(),
                } + seq!['|'] + match first_mac(mac) {
                    Some(m) => m,
                    None => Seq::empty(),
                },
            ),
        ),
        fingerprint(Platform::Other, guid, mac, reply) == stand_in(
            encode_utf8("non-windows-dev-build"@),
        ),
{
    law_trim(front, text, back);
}

/// The hash of a byte string is that of the bytes before the last, mixed with the
/// last and multiplied by the prime of the FNV-1a hash, in 64 bits.
pub proof fn law_fnv1a(bytes: Seq<u8>, last: u8)
    ensures
        fnv1a(Seq::empty()) == 0xcbf29ce484222325u64,
        fnv1a(bytes.push(last)) == ((fnv1a(bytes) ^ (last as u64)) as int * 0x100000001b3)
            % 0x1_0000_0000_0000_0000,
{
    assert(bytes.push(last).drop_last() =~= bytes);
}

/// What stands for a digest are four numbers of sixteen digits: the hash, the next
/// one in 64 bits, and, behind each, what is missing from it to the largest.
pub proof fn law_stand_in(bytes: Seq<u8>)
    ensures
        ({
            let text = stand_in(bytes);
            let h = fnv1a(bytes) as int;
            let n = (h + 1) % 0x1_0000_0000_0000_0000;
            &&& text.len() == 64
            &&& hex_value(text.subrange(0, 16)) == h
            &&& hex_value(text.subrange(16, 32)) == 0xffff_ffff_ffff_ffff - h
            &&& hex_value(text.subrange(32, 48)) == n
            &&& hex_value(text.subrange(48, 64)) == 0xffff_ffff_ffff_ffff - n
        }),
{
    let text = stand_in(bytes);
    let h = fnv1a(bytes);
    let n = next_hash(h);
    lemma_hex16(h);
    lemma_hex16((u64::MAX - h) as u64);
    lemma_hex16(n);
    lemma_hex16((u64::MAX - n) as u64);
    assert(text.subrange(0, 16) =~= hex(h as nat, 16));
    assert(text.subrange(16, 32) =~= hex((u64::MAX - h) as nat, 16));
    assert(text.subrange(32, 48) =~= hex(n as nat, 16));
    assert(text.subrange(48, 64) =~= hex((u64::MAX - n) as nat, 16));
}

proof fn lemma_hex16(n: u64)
    ensures
        hex(n as nat, 16).len() == 16,
        hex_value(hex(n as nat, 16)) == n,
{
    lemma_hex(n as nat, 16);
    law_hex_value(n as nat, 16);
    reveal_with_fuel(sixteens, 17);
    assert(sixteens(16) == 0x1_0000_0000_0000_0000);
}

/// A listing that begins with a line whose first column, in quotes, has a hyphen or
/// a colon has that column for its address, whatever follows in that line and in
/// the others.
pub proof fn law_first_listed_mac(column: Seq<char>, rest: Seq<char>, more: Seq<char>)
    requires
        forall|i: int|
            0 <= i < column.len() ==> #[trigger] column[i] != '"' && column[i] != '\n',
        exists|i: int| 0 <= i < column.len() && (#[trigger] column[i] == '-' || column[i] == ':'),
        forall|i: int| 0 <= i < rest.len() ==> #[trigger] rest[i] != '\n',
    ensures
        mac_of(lines(seq!['"'] + column + seq!['"'] + rest + seq!['\r', '\n'] + more)) == Some(
            column,
        ),
        mac_of(lines(seq!['"'] + column + seq!['"'] + rest)) == Some(column),
{
    let line = seq!['"'] + column + seq!['"'] + rest;
    assert forall|i: int| 0 <= i < line.len() implies #[trigger] line[i] != '\n' by {
        if 0 < i <= column.len() {
            assert(line[i] == column[i - 1]);
        } else if i > column.len() + 1 {
            assert(line[i] == rest[i - column.len() - 2]);
        }
    }
    law_lines(line, more);
    law_mac_is_first_column(Seq::empty(), column, rest);
    assert(Seq::<char>::empty() + seq!['"'] + column + seq!['"'] + rest =~= line);
    law_mac_of_listing(Seq::empty(), line, lines(more));
    assert(Seq::<Seq<char>>::empty() + seq![line] + lines(more) =~= seq![line] + lines(more));
    law_mac_of_listing(Seq::empty(), line, Seq::empty());
    assert(Seq::<Seq<char>>::empty() + seq![line] + Seq::<Seq<char>>::empty() =~= seq![line]);
}

} // verus!
