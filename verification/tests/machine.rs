use octopos_bootstrapper::effect::{CommandLine, Event, Platform, Word};
use octopos_bootstrapper::fingerprint::{
    digest_command, fingerprint_query, hw_fingerprint, mac_query, machine_guid_in,
    machine_guid_query, primary_mac, primary_mac_in, read_machine_guid, sha256_hex, source_text,
    stand_in_digest, trimmed_text,
};
use octopos_bootstrapper::system::{
    autostart_command, build_number, check_build, detect_os_build, elevation_query, is_elevated,
    pre_check_system, register_wsl_autostart, version_query,
};

fn exited(code: i32, stdout: &str) -> Event {
    Event::Exited { code: Some(code), stdout: stdout.as_bytes().to_vec() }
}

fn failed(error: &str) -> Event {
    Event::Failed { error: error.to_string() }
}

fn spell(command: &CommandLine) -> Vec<String> {
    let mut all = Vec::new();
    for word in std::iter::once(&command.program).chain(command.args.iter()) {
        match word {
            Word::Text(text) => all.push(text.clone()),
            other => all.push(format!("{:?}", other)),
        }
    }
    all
}

const VERSION: &str = "\r\nMicrosoft Windows [Version 10.0.19045.4291]\r\n";

#[test]
fn build_is_the_third_part_of_the_version() {
    assert_eq!(build_number(VERSION), Some(19045));
    assert_eq!(build_number("[Version 10.0.22631]"), Some(22631));
    assert_eq!(build_number("[Version 10.0]"), None);
    assert_eq!(build_number(""), None);
    assert_eq!(build_number("a.b.c"), None);
    assert_eq!(build_number("a.b.+7]"), Some(7));
    assert_eq!(build_number("a.b.4294967296"), None);
}

#[test]
fn version_is_asked_of_the_shell() {
    assert_eq!(spell(&version_query()), ["cmd", "/c", "ver"]);
}

#[test]
fn build_for_reports_is_known_on_windows_only() {
    assert_eq!(detect_os_build(Platform::Windows, &exited(0, VERSION)), Some(19045));
    assert_eq!(detect_os_build(Platform::Windows, &failed("gone")), None);
    assert_eq!(detect_os_build(Platform::Other, &exited(0, VERSION)), None);
}

#[test]
fn build_19041_is_the_oldest_accepted() {
    assert_eq!(check_build(Some(19041)), Ok(()));
    assert_eq!(check_build(Some(u32::MAX)), Ok(()));
    assert_eq!(
        check_build(Some(19040)),
        Err("Windows 10 build 19041+ requerido (encontrado 19040)".to_string())
    );
    assert_eq!(
        check_build(None),
        Err("Windows 10 build 19041+ requerido (encontrado 0)".to_string())
    );
}

#[test]
fn system_is_checked_by_its_version() {
    assert_eq!(pre_check_system(&exited(0, VERSION)), Ok(()));
    assert_eq!(
        pre_check_system(&exited(0, "Microsoft Windows [Version 10.0.17763.1]")),
        Err("Windows 10 build 19041+ requerido (encontrado 17763)".to_string())
    );
    assert_eq!(pre_check_system(&failed("not found")), Err("ver: not found".to_string()));
    // The exit code makes no difference.
    assert_eq!(pre_check_system(&exited(9, VERSION)), Ok(()));
}

#[test]
fn bytes_that_are_not_text_are_replaced() {
    let mut stdout = vec![0xff, 0xfe];
    stdout.extend_from_slice(VERSION.as_bytes());
    let reply = Event::Exited { code: Some(0), stdout };
    assert_eq!(detect_os_build(Platform::Windows, &reply), Some(19045));
    let broken = Event::Exited { code: Some(0), stdout: b"a.b.\xff1]".to_vec() };
    assert_eq!(detect_os_build(Platform::Windows, &broken), None);
}

#[test]
fn rights_are_probed_with_net_session() {
    assert_eq!(spell(&elevation_query()), ["net", "session"]);
    assert!(is_elevated(&exited(0, "")));
    assert!(!is_elevated(&exited(2, "")));
    assert!(!is_elevated(&Event::Exited { code: None, stdout: Vec::new() }));
    assert!(!is_elevated(&failed("no net")));
}

#[test]
fn autostart_task_runs_as_the_system() {
    assert_eq!(
        spell(&autostart_command()),
        [
            "schtasks",
            "/create",
            "/tn",
            "OctoPOS WSL Autostart",
            "/tr",
            "wsl -d Ubuntu-22.04 --exec /bin/true",
            "/sc",
            "onstart",
            "/ru",
            "SYSTEM",
            "/rl",
            "HIGHEST",
            "/f",
        ]
    );
}

#[test]
fn autostart_registration_has_two_failures() {
    assert_eq!(register_wsl_autostart(&exited(0, "")), Ok(()));
    assert_eq!(
        register_wsl_autostart(&exited(5, "")),
        Err("schtasks /create fallo con codigo 5".to_string())
    );
    assert_eq!(
        register_wsl_autostart(&Event::Exited { code: None, stdout: Vec::new() }),
        Err("schtasks /create fallo con codigo -1".to_string())
    );
    assert_eq!(
        register_wsl_autostart(&failed("denied")),
        Err("schtasks spawn: denied".to_string())
    );
}

const GUID: &str = "\r\nHKEY_LOCAL_MACHINE\\SOFTWARE\\Microsoft\\Cryptography\r\n    MachineGuid    REG_SZ    0123-abcd\r\n\r\n";

#[test]
fn machine_guid_follows_its_type() {
    assert_eq!(
        spell(&machine_guid_query()),
        ["reg", "query", "HKLM\\SOFTWARE\\Microsoft\\Cryptography", "/v", "MachineGuid"]
    );
    assert_eq!(machine_guid_in(GUID), Some("0123-abcd".to_string()));
    assert_eq!(machine_guid_in("REG_SZ"), Some(String::new()));
    assert_eq!(machine_guid_in("x REG_SZ REG_SZ y"), Some("REG_SZ y".to_string()));
    assert_eq!(machine_guid_in("nothing"), None);
    assert_eq!(read_machine_guid(&exited(0, GUID)), Some("0123-abcd".to_string()));
    assert_eq!(read_machine_guid(&failed("x")), None);
}

#[test]
fn mac_is_the_first_that_looks_like_one() {
    assert_eq!(spell(&mac_query()), ["getmac", "/fo", "csv", "/nh"]);
    let listing = "\r\n# comment\r\n\"N/A\",\"Media disconnected\"\r\n\"AA-BB-CC-DD-EE-FF\",\"\\Device\\Tcpip_{1}\"\r\n\"11-22-33-44-55-66\",\"x\"\r\n";
    assert_eq!(primary_mac_in(listing), Some("AA-BB-CC-DD-EE-FF".to_string()));
    assert_eq!(primary_mac_in("\"aa:bb\",x"), Some("aa:bb".to_string()));
    assert_eq!(primary_mac_in("aa:bb\"rest"), Some("aa:bb".to_string()));
    assert_eq!(primary_mac_in("aa:bb"), None);
    assert_eq!(primary_mac_in("#\"aa:bb\""), None);
    assert_eq!(primary_mac_in(""), None);
    assert_eq!(primary_mac(&exited(1, listing)), Some("AA-BB-CC-DD-EE-FF".to_string()));
    assert_eq!(primary_mac(&failed("x")), None);
}

#[test]
fn digest_script_quotes_its_text() {
    let words = spell(&digest_command(b"it's"));
    assert_eq!(words[..3], ["powershell", "-NoProfile", "-Command"]);
    assert_eq!(
        words[3],
        "$h = [System.Security.Cryptography.SHA256]::Create(); \
         $b = [System.Text.Encoding]::UTF8.GetBytes('it''s'); \
         ($h.ComputeHash($b) | ForEach-Object { '{0:x2}' -f $_ }) -join ''"
    );
}

fn fnv(bytes: &[u8]) -> String {
    let mut h: u64 = 0xcbf29ce484222325;
    for &b in bytes {
        h ^= b as u64;
        h = h.wrapping_mul(0x100000001b3);
    }
    format!("{:016x}{:016x}{:016x}{:016x}", h, !h, h.wrapping_add(1), !h.wrapping_add(1))
}

#[test]
fn stand_in_has_the_shape_of_a_digest() {
    assert_eq!(
        stand_in_digest(b""),
        "cbf29ce484222325340d631b7bdddcdacbf29ce484222326340d631b7bdddcd9"
    );
    for sample in [&b"a"[..], b"foobar", b"non-windows-dev-build", &[0, 255, 128]] {
        let text = stand_in_digest(sample);
        assert_eq!(text, fnv(sample));
        assert_eq!(text.len(), 64);
        assert!(text.chars().all(|c| c.is_ascii_hexdigit() && !c.is_ascii_uppercase()));
    }
    assert!(stand_in_digest(b"foobar").starts_with("85944171f73967e8"));
}

#[test]
fn digest_is_what_powershell_printed() {
    assert_eq!(sha256_hex(Platform::Windows, b"x", &exited(0, " abc123 \r\n")), "abc123");
    assert_eq!(sha256_hex(Platform::Windows, b"x", &exited(1, "")), "");
    assert_eq!(sha256_hex(Platform::Windows, b"x", &failed("gone")), fnv(b"x"));
    assert_eq!(sha256_hex(Platform::Other, b"x", &exited(0, "abc")), fnv(b"x"));
    assert_eq!(trimmed_text("\t x y \n"), "x y");
}

#[test]
fn fingerprint_is_of_guid_and_mac() {
    let guid = exited(0, GUID);
    let mac = exited(0, "\"AA-BB\",\"x\"");
    assert_eq!(source_text(Platform::Windows, &guid, &mac), "0123-abcd|AA-BB");
    assert_eq!(source_text(Platform::Windows, &failed("a"), &failed("b")), "|");
    assert_eq!(source_text(Platform::Other, &guid, &mac), "non-windows-dev-build");
    let words = spell(&fingerprint_query(Platform::Windows, &guid, &mac));
    assert!(words[3].contains("GetBytes('0123-abcd|AA-BB')"));
    assert_eq!(hw_fingerprint(Platform::Windows, &guid, &mac, &exited(0, "f00d\r\n")), "f00d");
    assert_eq!(
        hw_fingerprint(Platform::Windows, &guid, &mac, &failed("no powershell")),
        fnv(b"0123-abcd|AA-BB")
    );
    assert_eq!(
        hw_fingerprint(Platform::Other, &guid, &mac, &exited(0, "f00d")),
        fnv(b"non-windows-dev-build")
    );
}

#[test]
fn source_tells_machines_apart() {
    let one = source_text(Platform::Windows, &exited(0, "REG_SZ a"), &exited(0, "\"b-c\""));
    let other = source_text(Platform::Windows, &exited(0, "REG_SZ ab"), &exited(0, "\"-c\""));
    assert_ne!(one, other);
}
