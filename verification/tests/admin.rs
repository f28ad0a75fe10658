use octopos_bootstrapper::effect::{Action, Event, Root, RunMode, Turn, Word};
use octopos_bootstrapper::release::{
    choose_download, find_download, install_admin_msi, installs_admin, AdminDownload, MsiStage,
    ReleaseAsset,
};

fn asset(name: Option<&str>, url: Option<&str>) -> ReleaseAsset {
    ReleaseAsset {
        name: name.map(|s| s.to_string()),
        download_url: url.map(|s| s.to_string()),
    }
}

fn pair(found: Result<AdminDownload, String>) -> Result<(String, String), String> {
    found.map(|d| (d.name, d.url))
}

fn ok(name: &str, url: &str) -> Result<(String, String), String> {
    Ok((name.to_string(), url.to_string()))
}

fn err(text: &str) -> Result<(String, String), String> {
    Err(text.to_string())
}

fn exited(code: Option<i32>, stdout: &str) -> Event {
    Event::Exited { code, stdout: stdout.as_bytes().to_vec() }
}

fn failed(error: &str) -> Event {
    Event::Failed { error: error.to_string() }
}

const RELEASE: &str = r#"{
    "tag_name": "v1.2.3",
    "assets": [
        {"name": "OctoPOS-Setup-v1.2.3.exe", "browser_download_url": "https://x/boot"},
        {"name": "OctoPOS.Admin_1.2.3_x64_en-US.msi", "browser_download_url": "https://x/msi"},
        {"name": "OctoPOS.Admin_1.2.3_x64-setup.exe", "browser_download_url": "https://x/admin"},
        {"name": "Other.Admin_9_x64-setup.exe", "browser_download_url": "https://x/other"}
    ]
}"#;

#[test]
fn admin_setup_is_recognised_in_every_version() {
    for version in ["", "0.1.0", "1.2.3", "10.20.30"] {
        assert!(installs_admin(&format!("OctoPOS.Admin_{}_x64-setup.exe", version)));
    }
}

#[test]
fn own_setup_is_not_recognised() {
    for version in ["", "0.1.0", "1.2.3", "10.20.30"] {
        assert!(!installs_admin(&format!("OctoPOS-Setup-v{}.exe", version)));
    }
    assert!(!installs_admin("OctoPOS.Admin_1.2.3_x64_en-US.msi"));
    assert!(!installs_admin(""));
}

#[test]
fn case_makes_no_difference() {
    assert!(installs_admin("OCTOPOS.ADMIN-SETUP.EXE"));
    assert!(installs_admin("AdminSetup.Exe"));
    // The lower case of the Kelvin sign is an ASCII letter, and that of a capital
    // I with a dot is two characters.
    assert!(installs_admin("\u{212a}-admin-setup.exe"));
    assert!(!installs_admin("ADM\u{130}N-setup.exe"));
    assert_eq!(
        installs_admin("ADM\u{130}N-setup.exe"),
        "ADM\u{130}N-setup.exe".to_lowercase().contains("admin")
    );
}

#[test]
fn first_match_is_chosen() {
    let list = vec![
        asset(None, Some("u0")),
        asset(Some("readme.txt"), Some("u1")),
        asset(Some("admin-setup.exe"), Some("u2")),
        asset(Some("second-admin-setup.exe"), Some("u3")),
    ];
    assert_eq!(pair(choose_download(Some(list))), ok("admin-setup.exe", "u2"));
}

#[test]
fn choice_has_three_failures() {
    assert_eq!(pair(choose_download(None)), err("Respuesta de GitHub sin 'assets'."));
    assert_eq!(
        pair(choose_download(Some(Vec::new()))),
        err("El ultimo release no tiene un -setup.exe del admin.")
    );
    let list = vec![
        asset(Some("admin-setup.exe"), None),
        asset(Some("other-admin-setup.exe"), Some("u")),
    ];
    assert_eq!(
        pair(choose_download(Some(list))),
        err("Asset -setup.exe sin browser_download_url.")
    );
}

#[test]
fn release_document_is_read() {
    assert_eq!(
        pair(find_download(RELEASE.as_bytes())),
        ok("OctoPOS.Admin_1.2.3_x64-setup.exe", "https://x/admin")
    );
    let no_assets = err("Respuesta de GitHub sin 'assets'.");
    for document in ["{}", "[]", "3", "\"assets\"", "null", r#"{"assets": 3}"#, r#"{"assets": {}}"#]
    {
        assert_eq!(pair(find_download(document.as_bytes())), no_assets, "{}", document);
    }
    let none = err("El ultimo release no tiene un -setup.exe del admin.");
    for document in [
        r#"{"assets": []}"#,
        r#"{"assets": [1, "admin-setup.exe", null]}"#,
        r#"{"assets": [{"name": 7, "browser_download_url": "u"}]}"#,
        r#"{"assets": [{"browser_download_url": "admin-setup.exe"}]}"#,
    ] {
        assert_eq!(pair(find_download(document.as_bytes())), none, "{}", document);
    }
    assert_eq!(
        pair(find_download(br#"{"assets": [{"name": "admin-setup.exe", "browser_download_url": 1}]}"#)),
        err("Asset -setup.exe sin browser_download_url.")
    );
}

#[test]
fn escapes_in_a_release_document_are_resolved() {
    let document = r#"{"assets": [{"name": "\u0061dmin\tsetup.exe", "browser_download_url": "a\/b"}]}"#;
    assert_eq!(pair(find_download(document.as_bytes())), ok("admin\tsetup.exe", "a/b"));
}

#[test]
fn broken_release_document_is_reported() {
    let expected = serde_json::from_slice::<serde_json::Value>(b"{oops").unwrap_err().to_string();
    match find_download(b"{oops") {
        Err(message) => assert_eq!(message, format!("parse releases JSON: {}", expected)),
        Ok(_) => panic!("a broken document was read"),
    }
    assert!(find_download(b"").is_err());
}

fn run_of(turn: Turn<MsiStage, ()>) -> (Vec<String>, RunMode, MsiStage) {
    match turn {
        Turn::Ask { action: Action::Run { command, mode }, stage } => {
            let mut all = Vec::new();
            for word in std::iter::once(&command.program).chain(command.args.iter()) {
                all.push(match word {
                    Word::Text(text) => text.clone(),
                    Word::Path(place) => format!("<{:?}/{}>", place.root, place.tail.join("/")),
                    Word::Native(place) => format!("({:?}/{})", place.root, place.tail.join("/")),
                });
            }
            (all, mode, stage)
        }
        other => panic!("not a command: {:?}", other),
    }
}

fn end_of(turn: Turn<MsiStage, ()>) -> Result<(), String> {
    match turn {
        Turn::Finish { result } => result,
        other => panic!("not an end: {:?}", other),
    }
}

#[test]
fn admin_is_fetched_run_and_removed() {
    let mut name = String::new();
    let turn = install_admin_msi(MsiStage::Begin, &mut name, &Event::Begin);
    let (words, mode, stage) = run_of(turn);
    assert_eq!(
        words,
        [
            "curl",
            "-fsSL",
            "-H",
            "Accept: application/vnd.github+json",
            "-H",
            "User-Agent: OctoPOS-Setup",
            "https://api.github.com/repos/aarratia25/octoPOS-releases/releases/latest",
        ]
    );
    assert_eq!(mode, RunMode::Output);
    assert_eq!(stage, MsiStage::Metadata);

    let (words, mode, stage) = run_of(install_admin_msi(stage, &mut name, &exited(Some(0), RELEASE)));
    assert_eq!(
        words,
        [
            "curl",
            "-fsSL",
            "-H",
            "User-Agent: OctoPOS-Setup",
            "-o",
            "<Temp/OctoPOS.Admin_1.2.3_x64-setup.exe>",
            "https://x/admin",
        ]
    );
    assert_eq!(mode, RunMode::Status);
    assert_eq!(stage, MsiStage::Download);
    assert_eq!(name, "OctoPOS.Admin_1.2.3_x64-setup.exe");

    let (words, mode, stage) = run_of(install_admin_msi(stage, &mut name, &exited(Some(0), "")));
    assert_eq!(words, ["<Temp/OctoPOS.Admin_1.2.3_x64-setup.exe>", "/S"]);
    assert_eq!(mode, RunMode::Status);
    assert_eq!(stage, MsiStage::Install);

    match install_admin_msi(stage, &mut name, &exited(Some(0), "")) {
        Turn::Ask { action: Action::Remove { place }, stage } => {
            assert_eq!(place.root, Root::Temp);
            assert_eq!(place.tail, ["OctoPOS.Admin_1.2.3_x64-setup.exe"]);
            assert_eq!(end_of(install_admin_msi(stage, &mut name, &Event::Done)), Ok(()));
            assert_eq!(end_of(install_admin_msi(stage, &mut name, &failed("busy"))), Ok(()));
        }
        other => panic!("not a removal: {:?}", other),
    }
}

#[test]
fn failures_of_the_admin_end_its_installation() {
    let cases = [
        (MsiStage::Metadata, failed("no curl"), "curl spawn: no curl"),
        (
            MsiStage::Metadata,
            exited(Some(22), RELEASE),
            "No se pudo consultar releases de GitHub (codigo 22).",
        ),
        (
            MsiStage::Metadata,
            exited(None, RELEASE),
            "No se pudo consultar releases de GitHub (codigo -1).",
        ),
        (MsiStage::Metadata, exited(Some(0), "{}"), "Respuesta de GitHub sin 'assets'."),
        (MsiStage::Download, failed("no curl"), "curl download: no curl"),
        (MsiStage::Download, exited(Some(6), ""), "Descarga del .exe fallo (codigo 6)."),
        (MsiStage::Install, failed("denied"), "admin installer spawn: denied"),
        (MsiStage::Install, exited(Some(2), ""), "Admin installer termino con codigo 2"),
        (MsiStage::Install, exited(None, ""), "Admin installer termino con codigo -1"),
    ];
    for (stage, event, message) in cases {
        let mut name = String::from("kept.exe");
        assert_eq!(
            end_of(install_admin_msi(stage, &mut name, &event)),
            Err(message.to_string())
        );
        assert_eq!(name, "kept.exe");
    }
}
