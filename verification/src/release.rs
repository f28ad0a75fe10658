//! The OctoPOS Admin: which file of the latest release installs it, and how
//! that file is fetched and run.
use vstd::prelude::*;
use vstd::string::*;
use vstd::utf8::is_ascii_chars;

use crate::effect::{
    Action, ActionView, Awaited, CommandLine, CommandView, Event, EventView, PlaceView, Root,
    RunMode, Turn, TurnView, Word, WordView, below, code_message, failure, option_text, place,
    plain, plain_command, text_words, words,
};
use crate::json::{
    Json, json_contents, json_document, json_list, json_member, json_text, parse_json,
};
use crate::number::decimal_signed;
use crate::text::{chars_of, contains_text, ends_with, has_text, law_contains_text, lemma_find_text};

verus! {

/// What is read of one file of a release.
#[derive(Debug)]
pub struct ReleaseAsset {
    pub name: Option<String>,
    pub download_url: Option<String>,
}

/// The file that installs the admin.
#[derive(Debug)]
pub struct AdminDownload {
    pub url: String,
    pub name: String,
}

pub ghost struct AssetView {
    pub name: Option<Seq<char>>,
    pub download_url: Option<Seq<char>>,
}

pub ghost struct DownloadView {
    pub url: Seq<char>,
    pub name: Seq<char>,
}

impl View for ReleaseAsset {
    type V = AssetView;

    open spec fn view(&self) -> AssetView {
        AssetView {
            name: match self.name {
                Some(text) => Some(text@),
                None => None,
            },
            download_url: match self.download_url {
                Some(text) => Some(text@),
                None => None,
            },
        }
    }
}

impl View for AdminDownload {
    type V = DownloadView;

    open spec fn view(&self) -> DownloadView {
        DownloadView { url: self.url@, name: self.name@ }
    }
}

// Lower case.

/// A text in lower case, as `str::to_lowercase` gives it.
pub uninterp spec fn lowercase(text: Seq<char>) -> Seq<char>;

/// The lower-case form of an ASCII letter; any other character as it is.
pub open spec fn ascii_lower(c: char) -> char {
    if 'A' <= c <= 'Z' {
        (c as u32 + 32) as char
    } else {
        c
    }
}

/// `str::to_lowercase`. Its result depends on the text alone. Of a text that is
/// all ASCII it is that text with each ASCII letter in lower case; of other
/// texts, whose lower case is a matter of Unicode's tables, nothing more is
/// said.
#[verifier::external_body]
fn to_lowercase(text: &str) -> (lower: String)
    ensures
        lower@ == lowercase(text@),
        is_ascii_chars(text@) ==> lower@ == ascii_lowercase(text@),
{
    text.to_lowercase()
}

// Choosing the file.

/// Whether a name, in lower case, is one of a file that installs the admin.
pub open spec fn names_admin_installer(lower: Seq<char>) -> bool {
    &&& contains_text(lower, "admin"@)
    &&& "setup.exe"@.is_suffix_of(lower)
}

/// Whether a file of this name installs the admin.
pub open spec fn is_admin_installer(name: Seq<char>) -> bool {
    names_admin_installer(lowercase(name))
}

/// A text of ASCII characters in lower case.
pub open spec fn ascii_lowercase(text: Seq<char>) -> Seq<char> {
    text.map_values(|c: char| ascii_lower(c))
}

/// The first file with a name that installs the admin.
pub open spec fn chosen(assets: Seq<AssetView>) -> Option<AssetView>
    decreases assets.len(),
{
    if assets.len() == 0 {
        None
    } else if assets[0].name matches Some(name) && is_admin_installer(name) {
        Some(assets[0])
    } else {
        chosen(assets.skip(1))
    }
}

/// The file to fetch, or why there is none. `None` stands for a release whose
/// files are not listed.
pub open spec fn admin_download(assets: Option<Seq<AssetView>>) -> Result<
    DownloadView,
    Seq<char>,
> {
    match assets {
        None => Err("Respuesta de GitHub sin 'assets'."@),
        Some(list) => match chosen(list) {
            None => Err("El ultimo release no tiene un -setup.exe del admin."@),
            Some(AssetView { name, download_url: Some(url) }) => Ok(
                DownloadView { url, name: name->0 },
            ),
            Some(_) => Err("Asset -setup.exe sin browser_download_url."@),
        },
    }
}

/// The text under `key`, where there is one.
pub open spec fn text_member(value: Json, key: Seq<char>) -> Option<Seq<char>> {
    match value.member(key) {
        Some(Json::Text(text)) => Some(text),
        _ => None,
    }
}

/// What is read of one file of a release document.
pub open spec fn asset_of(value: Json) -> AssetView {
    AssetView {
        name: text_member(value, "name"@),
        download_url: text_member(value, "browser_download_url"@),
    }
}

/// The files that a release document lists.
pub open spec fn listed_assets(document: Json) -> Option<Seq<AssetView>> {
    match document.member("assets"@) {
        Some(Json::List(items)) => Some(items.map_values(|item: Json| asset_of(item))),
        _ => None,
    }
}

/// The file to fetch, given what the release document was parsed into, or the
/// text of the error that stopped the parser.
pub open spec fn download_from(document: Result<Json, Seq<char>>) -> Result<
    DownloadView,
    Seq<char>,
> {
    match document {
        Err(error) => Err("parse releases JSON: "@ + error),
        Ok(value) => admin_download(listed_assets(value)),
    }
}

/// The views of a list of files.
pub open spec fn asset_views(assets: Option<Vec<ReleaseAsset>>) -> Option<Seq<AssetView>> {
    match assets {
        Some(list) => Some(list@.map_values(|asset: ReleaseAsset| asset@)),
        None => None,
    }
}

/// The view of a download, or the text of the error.
pub open spec fn download_view(download: Result<AdminDownload, String>) -> Result<
    DownloadView,
    Seq<char>,
> {
    match download {
        Ok(found) => Ok(found@),
        Err(text) => Err(text@),
    }
}

/// Tells whether a file of this name installs the admin.
pub fn installs_admin(name: &str) -> (yes: bool)
    ensures
        yes == is_admin_installer(name@),
        is_ascii_chars(name@) ==> yes == names_admin_installer(ascii_lowercase(name@)),
{
    let lower = to_lowercase(name);
    let ending = chars_of("setup.exe");
    let chars = chars_of(lower.as_str());
    has_text(lower.as_str(), "admin") && ends_with(chars.as_slice(), ending.as_slice())
}

/// Chooses the file to fetch among those of a release.
pub fn choose_download(assets: Option<Vec<ReleaseAsset>>) -> (download: Result<
    AdminDownload,
    String,
>)
    ensures
        download_view(download) == admin_download(asset_views(assets)),
{
    let list = match assets {
        Some(list) => list,
        None => {
            return Err("Respuesta de GitHub sin 'assets'.".to_string());
        },
    };
    let ghost all = list@.map_values(|asset: ReleaseAsset| asset@);
    let mut i: usize = 0;
    assert(all.skip(0) =~= all);
    while i < list.len()
        invariant
            i <= list@.len(),
            all == list@.map_values(|asset: ReleaseAsset| asset@),
            chosen(all) == chosen(all.skip(i as int)),
            asset_views(assets) == Some(all),
        decreases list@.len() - i,
    {
        let asset = &list[i];
        assert(all.skip(i as int)[0] == asset@);
        assert(all.skip(i as int).skip(1) =~= all.skip(i + 1));
        match &asset.name {
            Some(name) => {
                if installs_admin(name.as_str()) {
                    return match &asset.download_url {
                        Some(url) => Ok(AdminDownload { url: url.clone(), name: name.clone() }),
                        None => Err("Asset -setup.exe sin browser_download_url.".to_string()),
                    };
                }
            },
            None => {},
        }
        i += 1;
    }
    Err("El ultimo release no tiene un -setup.exe del admin.".to_string())
}

/// Reads the text under `key`.
fn member_text(value: &serde_json::Value, key: &str) -> (text: Option<String>)
    ensures
        (match text {
            Some(t) => Some(t@),
            None => None,
        }) == text_member(json_contents(*value), key@),
{
    match json_member(value, key) {
        Some(member) => match json_text(member) {
            Some(text) => Some(text.to_string()),
            None => None,
        },
        None => None,
    }
}

/// Reads the files that a parsed release document lists.
pub fn read_assets(document: &serde_json::Value) -> (assets: Option<Vec<ReleaseAsset>>)
    ensures
        asset_views(assets) == listed_assets(json_contents(*document)),
{
    let member = match json_member(document, "assets") {
        Some(member) => member,
        None => {
            return None;
        },
    };
    let items = match json_list(member) {
        Some(items) => items,
        None => {
            return None;
        },
    };
    let mut assets: Vec<ReleaseAsset> = Vec::new();
    for i in 0..items.len()
        invariant
            assets@.len() == i,
            forall|j: int|
                0 <= j < i ==> (#[trigger] assets@[j])@ == asset_of(json_contents(items@[j])),
    {
        let item = &items[i];
        assets.push(
            ReleaseAsset {
                name: member_text(item, "name"),
                download_url: member_text(item, "browser_download_url"),
            },
        );
    }
    proof {
        let contents = items@.map_values(|item: serde_json::Value| json_contents(item));
        assert(json_contents(*member) == Json::List(contents));
        assert(assets@.map_values(|asset: ReleaseAsset| asset@) =~= contents.map_values(
            |item: Json| asset_of(item),
        ));
    }
    Some(assets)
}

/// Chooses the file to fetch from the bytes of a release document.
pub fn find_download(bytes: &[u8]) -> (download: Result<AdminDownload, String>)
    ensures
        download_view(download) == download_from(json_document(bytes@)),
        download matches Ok(found) ==> (json_document(bytes@) matches Ok(document)
            && document.member("assets"@) matches Some(Json::List(items)) && exists|i: int|
            {
                &&& 0 <= i < items.len()
                &&& (#[trigger] items[i]).member("name"@) == Some(Json::Text(found.name@))
                &&& items[i].member("browser_download_url"@) == Some(Json::Text(found.url@))
            }),
{
    match parse_json(bytes) {
        Ok(document) => {
            proof {
                law_download_of_document(json_contents(document));
            }
            choose_download(read_assets(&document))
        },
        Err(error) => Err(failure("parse releases JSON: ", error.as_str())),
    }
}

/// A name, in lower case, is one of a file that installs the admin where, and only
/// where, it has the word "admin" in it, anywhere, and ends in "setup.exe".
pub proof fn law_names_admin_installer(name: Seq<char>)
    ensures
        is_admin_installer(name) <==> {
            let lower = lowercase(name);
            &&& exists|i: int| 0 <= i <= lower.len() && "admin"@.is_prefix_of(#[trigger] lower.skip(i))
            &&& "setup.exe"@.is_suffix_of(lower)
        },
        forall|lower: Seq<char>| #[trigger]
            names_admin_installer(lower) <==> {
                &&& exists|i: int|
                    0 <= i <= lower.len() && "admin"@.is_prefix_of(#[trigger] lower.skip(i))
                &&& "setup.exe"@.is_suffix_of(lower)
            },
{
    law_contains_text(lowercase(name), "admin"@);
    assert forall|lower: Seq<char>| #[trigger]
        names_admin_installer(lower) <==> {
            &&& exists|i: int|
                0 <= i <= lower.len() && "admin"@.is_prefix_of(#[trigger] lower.skip(i))
            &&& "setup.exe"@.is_suffix_of(lower)
        } by {
        law_contains_text(lower, "admin"@);
    }
}

/// The file to fetch is the first item of the document's list of assets whose name
/// is one of a file that installs the admin: its address is the text under
/// "browser_download_url" and its name that under "name", whatever else the item
/// has. Where there is no such list, no such item, or no such address, that is
/// the error.
pub proof fn law_download_of_document(document: Json)
    ensures
        match document.member("assets"@) {
            Some(Json::List(items)) => match download_from(Ok(document)) {
                Ok(found) => exists|i: int|
                    {
                        &&& 0 <= i < items.len()
                        &&& (#[trigger] items[i]).member("name"@) == Some(Json::Text(found.name))
                        &&& items[i].member("browser_download_url"@) == Some(Json::Text(found.url))
                        &&& is_admin_installer(found.name)
                        &&& forall|j: int|
                            0 <= j < i ==> !((#[trigger] items[j]).member("name"@) matches Some(
                                Json::Text(name),
                            ) && is_admin_installer(name))
                    },
                Err(error) => {
                    ||| error == "El ultimo release no tiene un -setup.exe del admin."@ && forall|
                        j: int,
                    |
                        0 <= j < items.len() ==> !((#[trigger] items[j]).member("name"@) matches Some(
                            Json::Text(name),
                        ) && is_admin_installer(name))
                    ||| error == "Asset -setup.exe sin browser_download_url."@ && exists|i: int|
                        {
                            &&& 0 <= i < items.len()
                            &&& ((#[trigger] items[i]).member("name"@) matches Some(Json::Text(name))
                                && is_admin_installer(name))
                            &&& !(items[i].member("browser_download_url"@) matches Some(
                                Json::Text(_),
                            ))
                            &&& forall|j: int|
                                0 <= j < i ==> !((#[trigger] items[j]).member("name"@) matches Some(
                                    Json::Text(name),
                                ) && is_admin_installer(name))
                        }
                },
            },
            _ => download_from(Ok(document)) == Err::<DownloadView, Seq<char>>(
                "Respuesta de GitHub sin 'assets'."@,
            ),
        },
{
    if let Some(Json::List(items)) = document.member("assets"@) {
        let assets = items.map_values(|item: Json| asset_of(item));
        law_first_is_chosen(assets);
        assert forall|j: int| 0 <= j < items.len() implies (#[trigger] assets[j]) == asset_of(
            items[j],
        ) by {}
        assert forall|j: int| 0 <= j < items.len() implies (((#[trigger] items[j]).member("name"@)
            matches Some(Json::Text(name)) && is_admin_installer(name)) <==> (
        assets[j].name is Some && is_admin_installer(assets[j].name->0))) by {
            assert(assets[j] == asset_of(items[j]));
        }
        if chosen(assets) is Some {
            let asset = chosen(assets)->0;
            let i = choose|i: int|
                {
                    &&& 0 <= i < assets.len()
                    &&& asset == #[trigger] assets[i]
                    &&& asset.name is Some && is_admin_installer(asset.name->0)
                    &&& forall|j: int|
                        0 <= j < i ==> !((#[trigger] assets[j]).name is Some && is_admin_installer(
                            assets[j].name->0,
                        ))
                };
            assert(items[i].member("name"@) == Some(Json::Text(asset.name->0)));
            assert forall|j: int| 0 <= j < i implies !((#[trigger] items[j]).member("name"@)
                matches Some(Json::Text(name)) && is_admin_installer(name)) by {
                assert(!(assets[j].name is Some && is_admin_installer(assets[j].name->0)));
            }
        } else {
            assert forall|j: int| 0 <= j < items.len() implies !((#[trigger] items[j]).member(
                "name"@,
            ) matches Some(Json::Text(name)) && is_admin_installer(name)) by {
                assert(!(assets[j].name is Some && is_admin_installer(assets[j].name->0)));
            }
        }
    }
}

/// Whether a text is made of digits and dots, as versions are.
pub open spec fn is_version(text: Seq<char>) -> bool {
    forall|i: int| 0 <= i < text.len() ==> ('0' <= #[trigger] text[i] <= '9' || text[i] == '.')
}

/// The setup file of the admin is one that installs it, in every version.
pub proof fn law_admin_setup_is_recognised(version: Seq<char>)
    requires
        is_version(version),
    ensures
        is_ascii_chars("OctoPOS.Admin_"@ + version + "_x64-setup.exe"@),
        names_admin_installer(ascii_lowercase("OctoPOS.Admin_"@ + version + "_x64-setup.exe"@)),
{
    reveal_strlit("OctoPOS.Admin_");
    reveal_strlit("_x64-setup.exe");
    reveal_strlit("admin");
    reveal_strlit("setup.exe");
    let name = "OctoPOS.Admin_"@ + version + "_x64-setup.exe"@;
    let lower = ascii_lowercase(name);
    assert forall|i: int| 0 <= i < name.len() implies '\0' <= #[trigger] name[i] <= '\u{7f}' by {
        if 14 <= i < 14 + version.len() {
            assert(name[i] == version[i - 14]);
        } else if i >= 14 + version.len() {
            assert(name[i] == "_x64-setup.exe"@[i - 14 - version.len()]);
        }
    }
    assert(lower.skip(8).subrange(0, 5) =~= "admin"@);
    assert("admin"@.is_prefix_of(lower.skip(8)));
    lemma_find_text(lower, "admin"@);
    assert(lower.subrange(lower.len() - 9, lower.len() as int) =~= "setup.exe"@);
}

/// The setup file of this program, which is in the same release, is not.
pub proof fn law_own_setup_is_not_recognised(version: Seq<char>)
    requires
        is_version(version),
    ensures
        is_ascii_chars("OctoPOS-Setup-v"@ + version + ".exe"@),
        !names_admin_installer(ascii_lowercase("OctoPOS-Setup-v"@ + version + ".exe"@)),
{
    reveal_strlit("OctoPOS-Setup-v");
    reveal_strlit(".exe");
    reveal_strlit("setup.exe");
    let name = "OctoPOS-Setup-v"@ + version + ".exe"@;
    let lower = ascii_lowercase(name);
    assert forall|i: int| 0 <= i < name.len() implies '\0' <= #[trigger] name[i] <= '\u{7f}' by {
        if 15 <= i < 15 + version.len() {
            assert(name[i] == version[i - 15]);
        } else if i >= 15 + version.len() {
            assert(name[i] == ".exe"@[i - 15 - version.len()]);
        }
    }
    let before = lower.len() - 5;
    if version.len() > 0 {
        assert(name[before] == version[version.len() - 1]);
    } else {
        assert(name[before] == 'v');
    }
    assert(lower[before] != 'p');
    assert(lower.subrange(lower.len() - 9, lower.len() as int)[4] == lower[before]);
}

/// The file that is chosen is the first that installs the admin, and none is
/// only where no file does.
pub proof fn law_first_is_chosen(assets: Seq<AssetView>)
    ensures
        match chosen(assets) {
            Some(asset) => exists|i: int|
                {
                    &&& 0 <= i < assets.len()
                    &&& asset == #[trigger] assets[i]
                    &&& asset.name is Some && is_admin_installer(asset.name->0)
                    &&& forall|j: int|
                        0 <= j < i ==> !((#[trigger] assets[j]).name is Some && is_admin_installer(
                            assets[j].name->0,
                        ))
                },
            None => forall|j: int|
                0 <= j < assets.len() ==> !((#[trigger] assets[j]).name is Some
                    && is_admin_installer(assets[j].name->0)),
        },
    decreases assets.len(),
{
    if assets.len() > 0 && !(assets[0].name is Some && is_admin_installer(assets[0].name->0)) {
        let rest = assets.skip(1);
        law_first_is_chosen(rest);
        if chosen(rest) is Some {
            let i = choose|i: int|
                {
                    &&& 0 <= i < rest.len()
                    &&& chosen(rest)->0 == #[trigger] rest[i]
                    &&& forall|j: int|
                        0 <= j < i ==> !((#[trigger] rest[j]).name is Some && is_admin_installer(
                            rest[j].name->0,
                        ))
                };
            assert(assets[i + 1] == rest[i]);
            assert forall|j: int| 0 <= j < i + 1 implies !((#[trigger] assets[j]).name is Some
                && is_admin_installer(assets[j].name->0)) by {
                if j > 0 {
                    assert(assets[j] == rest[j - 1]);
                }
            }
        } else {
            assert forall|j: int| 0 <= j < assets.len() implies !((#[trigger] assets[j]).name is Some
                && is_admin_installer(assets[j].name->0)) by {
                if j > 0 {
                    assert(assets[j] == rest[j - 1]);
                }
            }
        }
    }
}

// Fetching and running it.

/// How far the installation of the admin has come.
#[derive(Debug, Clone, Copy, PartialEq, Eq, Structural)]
pub enum MsiStage {
    /// Nothing was asked yet.
    Begin,
    /// The release document was asked for.
    Metadata,
    /// The download was started.
    Download,
    /// The downloaded file is running.
    Install,
    /// The downloaded file is being removed.
    Cleanup,
}

impl MsiStage {
    /// The events that can come in this stage.
    pub open spec fn awaits(self) -> Awaited {
        match self {
            MsiStage::Begin => Awaited::Begin,
            MsiStage::Metadata | MsiStage::Download | MsiStage::Install => Awaited::Reply,
            MsiStage::Cleanup => Awaited::Completion,
        }
    }
}

/// The words of the command that fetches the release document.
pub open spec fn metadata_words() -> Seq<Seq<char>> {
    seq![
        "-fsSL"@,
        "-H"@,
        "Accept: application/vnd.github+json"@,
        "-H"@,
        "User-Agent: OctoPOS-Setup"@,
        "https://api.github.com/repos/aarratia25/octoPOS-releases/releases/latest"@,
    ]
}

/// The place that a file of this name is downloaded to.
pub open spec fn download_place(name: Seq<char>) -> PlaceView {
    below(Root::Temp, name)
}

/// The command that downloads a file.
pub open spec fn download_command(download: DownloadView) -> CommandView {
    CommandView {
        program: WordView::Text("curl"@),
        args: words(seq!["-fsSL"@, "-H"@, "User-Agent: OctoPOS-Setup"@, "-o"@]).push(
            WordView::Path(download_place(download.name)),
        ).push(WordView::Text(download.url)),
        env: Seq::empty(),
    }
}

/// The command that runs the downloaded file without asking anything.
pub open spec fn silent_setup_command(name: Seq<char>) -> CommandView {
    CommandView {
        program: WordView::Path(download_place(name)),
        args: words(seq!["/S"@]),
        env: Seq::empty(),
    }
}

/// The step that follows an event, and the name of the downloaded file.
pub open spec fn msi_next(stage: MsiStage, admin_exe: Seq<char>, event: EventView) -> (
    TurnView<MsiStage, ()>,
    Seq<char>,
) {
    match (stage, event) {
        (MsiStage::Begin, _) => (
            TurnView::Ask {
                action: ActionView::Run {
                    command: plain("curl"@, metadata_words()),
                    mode: RunMode::Output,
                },
                stage: MsiStage::Metadata,
            },
            admin_exe,
        ),
        (MsiStage::Metadata, EventView::Failed { error }) => (
            TurnView::Finish { result: Err("curl spawn: "@ + error) },
            admin_exe,
        ),
        (MsiStage::Metadata, EventView::Exited { stdout, .. }) => if !event.succeeded() {
            (
                TurnView::Finish {
                    result: Err(
                        "No se pudo consultar releases de GitHub (codigo "@ + decimal_signed(
                            event.shown_code(),
                        ) + ")."@,
                    ),
                },
                admin_exe,
            )
        } else {
            match download_from(json_document(stdout)) {
                Err(error) => (TurnView::Finish { result: Err(error) }, admin_exe),
                Ok(download) => (
                    TurnView::Ask {
                        action: ActionView::Run {
                            command: download_command(download),
                            mode: RunMode::Status,
                        },
                        stage: MsiStage::Download,
                    },
                    download.name,
                ),
            }
        },
        (MsiStage::Download, EventView::Failed { error }) => (
            TurnView::Finish { result: Err("curl download: "@ + error) },
            admin_exe,
        ),
        (MsiStage::Download, _) => if !event.succeeded() {
            (
                TurnView::Finish {
                    result: Err(
                        "Descarga del .exe fallo (codigo "@ + decimal_signed(event.shown_code())
                            + ")."@,
                    ),
                },
                admin_exe,
            )
        } else {
            (
                TurnView::Ask {
                    action: ActionView::Run {
                        command: silent_setup_command(admin_exe),
                        mode: RunMode::Status,
                    },
                    stage: MsiStage::Install,
                },
                admin_exe,
            )
        },
        (MsiStage::Install, EventView::Failed { error }) => (
            TurnView::Finish { result: Err("admin installer spawn: "@ + error) },
            admin_exe,
        ),
        (MsiStage::Install, _) => if !event.succeeded() {
            (
                TurnView::Finish {
                    result: Err(
                        "Admin installer termino con codigo "@ + decimal_signed(event.shown_code()),
                    ),
                },
                admin_exe,
            )
        } else {
            (
                TurnView::Ask {
                    action: ActionView::Remove { place: download_place(admin_exe) },
                    stage: MsiStage::Cleanup,
                },
                admin_exe,
            )
        },
        _ => (TurnView::Finish { result: Ok(()) }, admin_exe),
    }
}

fn download_of(download: &AdminDownload) -> (command: CommandLine)
    ensures
        command@ == download_command(download@),
{
    let mut args = text_words(&["-fsSL", "-H", "User-Agent: OctoPOS-Setup", "-o"]);
    assert(args@.map_values(|w: Word| w@) =~= words(
        seq!["-fsSL"@, "-H"@, "User-Agent: OctoPOS-Setup"@, "-o"@],
    ));
    args.push(Word::Path(place(Root::Temp, download.name.as_str())));
    args.push(Word::Text(download.url.clone()));
    let command = CommandLine { program: Word::Text("curl".to_string()), args, env: Vec::new() };
    assert(command@.args =~= download_command(download@).args);
    assert(command@.env =~= Seq::empty());
    command
}

fn silent_setup(name: &str) -> (command: CommandLine)
    ensures
        command@ == silent_setup_command(name@),
{
    let args = text_words(&["/S"]);
    assert(args@.map_values(|w: Word| w@) =~= words(seq!["/S"@]));
    let command = CommandLine {
        program: Word::Path(place(Root::Temp, name)),
        args,
        env: Vec::new(),
    };
    assert(command@.env =~= Seq::empty());
    command
}

fn metadata_query() -> (command: CommandLine)
    ensures
        command@ == plain("curl"@, metadata_words()),
{
    let command = plain_command(
        "curl",
        &[
            "-fsSL",
            "-H",
            "Accept: application/vnd.github+json",
            "-H",
            "User-Agent: OctoPOS-Setup",
            "https://api.github.com/repos/aarratia25/octoPOS-releases/releases/latest",
        ],
    );
    assert(command@.args =~= words(metadata_words()));
    command
}

/// A message with an exit code before its closing bracket.
fn bracket_message(before: &str, code: i32) -> (message: String)
    ensures
        message@ == before@ + decimal_signed(code as int) + ")."@,
{
    let mut message = code_message(before, code);
    message.append(").");
    message
}

/// Installs the latest published admin: finds its setup file in the release,
/// downloads it, runs it silently and removes it. `admin_exe` keeps the name of
/// the file from one step to the next.
pub fn install_admin_msi(stage: MsiStage, admin_exe: &mut String, event: &Event) -> (turn: Turn<
    MsiStage,
    (),
>)
    requires
        event@.answers(stage.awaits()),
    ensures
        (turn@, final(admin_exe)@) == msi_next(stage, old(admin_exe)@, event@),
        turn@ matches TurnView::Ask { action, stage: next } ==> action.awaited() == next.awaits(),
{
    match (stage, event) {
        (MsiStage::Begin, _) => Turn::Ask {
            action: Action::Run { command: metadata_query(), mode: RunMode::Output },
            stage: MsiStage::Metadata,
        },
        (MsiStage::Metadata, Event::Failed { error }) => Turn::Finish {
            result: Err(failure("curl spawn: ", error.as_str())),
        },
        (MsiStage::Metadata, Event::Exited { stdout, .. }) => {
            if !event.succeeded() {
                return Turn::Finish {
                    result: Err(
                        bracket_message(
                            "No se pudo consultar releases de GitHub (codigo ",
                            event.shown_code(),
                        ),
                    ),
                };
            }
            match find_download(stdout.as_slice()) {
                Err(error) => Turn::Finish { result: Err(error) },
                Ok(download) => {
                    let command = download_of(&download);
                    *admin_exe = download.name;
                    Turn::Ask {
                        action: Action::Run { command, mode: RunMode::Status },
                        stage: MsiStage::Download,
                    }
                },
            }
        },
        (MsiStage::Download, Event::Failed { error }) => Turn::Finish {
            result: Err(failure("curl download: ", error.as_str())),
        },
        (MsiStage::Download, _) => {
            if !event.succeeded() {
                return Turn::Finish {
                    result: Err(
                        bracket_message("Descarga del .exe fallo (codigo ", event.shown_code()),
                    ),
                };
            }
            Turn::Ask {
                action: Action::Run {
                    command: silent_setup(admin_exe.as_str()),
                    mode: RunMode::Status,
                },
                stage: MsiStage::Install,
            }
        },
        (MsiStage::Install, Event::Failed { error }) => Turn::Finish {
            result: Err(failure("admin installer spawn: ", error.as_str())),
        },
        (MsiStage::Install, _) => {
            if !event.succeeded() {
                return Turn::Finish {
                    result: Err(
                        code_message("Admin installer termino con codigo ", event.shown_code()),
                    ),
                };
            }
            Turn::Ask {
                action: Action::Remove { place: place(Root::Temp, admin_exe.as_str()) },
                stage: MsiStage::Cleanup,
            }
        },
        _ => Turn::Finish { result: Ok(()) },
    }
}

/// The file that is run is the one that was fetched, and the one that is removed
/// afterwards.
pub proof fn law_fetched_file_is_run(
    before: Seq<char>,
    metadata: EventView,
    fetched: EventView,
    installed: EventView,
)
    requires
        metadata.answers(MsiStage::Metadata.awaits()),
        msi_next(MsiStage::Metadata, before, metadata).0 is Ask,
        fetched.succeeded(),
        installed.succeeded(),
    ensures
        ({
            let (first, name) = msi_next(MsiStage::Metadata, before, metadata);
            let (second, kept) = msi_next(MsiStage::Download, name, fetched);
            let (third, _) = msi_next(MsiStage::Install, kept, installed);
            &&& first->action->command.args[4] == WordView::Path(download_place(name))
            &&& second->action->command.program == WordView::Path(download_place(name))
            &&& third->action == (ActionView::Remove { place: download_place(name) })
        }),
{
}

/// Nothing is run that was not fetched, and nothing counts as installed that
/// did not end with code zero: any other reply ends the installation of the
/// admin with an error.
pub proof fn law_failed_fetch_is_not_run(stage: MsiStage, admin_exe: Seq<char>, event: EventView)
    requires
        event.answers(stage.awaits()),
        stage is Metadata || stage is Download || stage is Install,
        !event.succeeded(),
    ensures
        msi_next(stage, admin_exe, event).0 matches TurnView::Finish { result } && result is Err,
{
}

/// A downloaded file that cannot be removed is no failure.
pub proof fn law_leftover_is_let_go(admin_exe: Seq<char>, event: EventView)
    ensures
        msi_next(MsiStage::Cleanup, admin_exe, event) == (
            TurnView::Finish::<MsiStage, ()> { result: Ok(()) },
            admin_exe,
        ),
{
}

/// The document of the latest release is what is asked for first.
pub proof fn law_latest_release_is_asked_for(admin_exe: Seq<char>, event: EventView)
    ensures
        msi_next(MsiStage::Begin, admin_exe, event) == (
            TurnView::Ask::<MsiStage, ()> {
                action: ActionView::Run {
                    command: plain(
                        "curl"@,
                        seq![
                            "-fsSL"@,
                            "-H"@,
                            "Accept: application/vnd.github+json"@,
                            "-H"@,
                            "User-Agent: OctoPOS-Setup"@,
                            "https://api.github.com/repos/aarratia25/octoPOS-releases/releases/latest"@,
                        ],
                    ),
                    mode: RunMode::Output,
                },
                stage: MsiStage::Metadata,
            },
            admin_exe,
        ),
{
}

/// A release document that was fetched and names a file has that file fetched:
/// from the address, and to the name, that the document gives. A document that
/// cannot be read, or names none, ends it with that error.
pub proof fn law_named_file_is_fetched(before: Seq<char>, stdout: Seq<u8>)
    ensures
        ({
            let (turn, name) = msi_next(
                MsiStage::Metadata,
                before,
                EventView::Exited { code: Some(0i32), stdout },
            );
            match json_document(stdout) {
                Ok(document) => match download_from(Ok(document)) {
                    Ok(found) => {
                        &&& name == found.name
                        &&& turn matches TurnView::Ask {
                            action: ActionView::Run { command, mode },
                            stage,
                        } && stage is Download && mode is Status && command.program == WordView::Text(
                            "curl"@,
                        ) && command.env.len() == 0 && command.args == seq![
                            WordView::Text("-fsSL"@),
                            WordView::Text("-H"@),
                            WordView::Text("User-Agent: OctoPOS-Setup"@),
                            WordView::Text("-o"@),
                            WordView::Path(PlaceView { root: Root::Temp, tail: seq![found.name] }),
                            WordView::Text(found.url),
                        ]
                    },
                    Err(error) => turn == (TurnView::Finish::<MsiStage, ()> { result: Err(error) }),
                },
                Err(error) => turn == (TurnView::Finish::<MsiStage, ()> {
                    result: Err("parse releases JSON: "@ + error),
                }),
            }
        }),
{
    if let Ok(document) = json_document(stdout) {
        if let Ok(found) = download_from(Ok(document)) {
            assert(download_command(found).args =~= seq![
                WordView::Text("-fsSL"@),
                WordView::Text("-H"@),
                WordView::Text("User-Agent: OctoPOS-Setup"@),
                WordView::Text("-o"@),
                WordView::Path(PlaceView { root: Root::Temp, tail: seq![found.name] }),
                WordView::Text(found.url),
            ]);
        }
    }
}

/// A step goes on to the next where, and only where, its command ran and ended
/// with code zero. Any other reply ends the installation of the admin with a
/// message that says which command it was, and its code or the system's text.
/// The file that is run, and removed after that, is the one of the name that was
/// kept, which is kept on.
pub proof fn law_admin_replies(admin_exe: Seq<char>, event: EventView)
    requires
        event.answers(Awaited::Reply),
    ensures
        msi_next(MsiStage::Download, admin_exe, event).1 == admin_exe,
        msi_next(MsiStage::Install, admin_exe, event).1 == admin_exe,
        !(event matches EventView::Exited { code, .. } && code == Some(0i32)) ==> msi_next(
            MsiStage::Metadata,
            admin_exe,
            event,
        ).1 == admin_exe,
        event matches EventView::Exited { code, .. } ==> (code == Some(0i32) ==> {
            let file = PlaceView { root: Root::Temp, tail: seq![admin_exe] };
            &&& msi_next(MsiStage::Download, admin_exe, event).0 == (TurnView::Ask::<MsiStage, ()> {
                action: ActionView::Run {
                    command: CommandView {
                        program: WordView::Path(file),
                        args: words(seq!["/S"@]),
                        env: Seq::empty(),
                    },
                    mode: RunMode::Status,
                },
                stage: MsiStage::Install,
            })
            &&& msi_next(MsiStage::Install, admin_exe, event).0 == (TurnView::Ask::<MsiStage, ()> {
                action: ActionView::Remove { place: file },
                stage: MsiStage::Cleanup,
            })
        }),
        event matches EventView::Failed { error } ==> {
            &&& msi_next(MsiStage::Metadata, admin_exe, event).0 == (TurnView::Finish::<
                MsiStage,
                (),
            > { result: Err("curl spawn: "@ + error) })
            &&& msi_next(MsiStage::Download, admin_exe, event).0 == (TurnView::Finish::<
                MsiStage,
                (),
            > { result: Err("curl download: "@ + error) })
            &&& msi_next(MsiStage::Install, admin_exe, event).0 == (TurnView::Finish::<
                MsiStage,
                (),
            > { result: Err("admin installer spawn: "@ + error) })
        },
        event matches EventView::Exited { code, .. } ==> (code != Some(0i32) ==> {
            let shown = decimal_signed(
                match code {
                    Some(c) => c as int,
                    None => -1,
                },
            );
            &&& msi_next(MsiStage::Metadata, admin_exe, event).0 == (TurnView::Finish::<
                MsiStage,
                (),
            > {
                result: Err("No se pudo consultar releases de GitHub (codigo "@ + shown + ")."@),
            })
            &&& msi_next(MsiStage::Download, admin_exe, event).0 == (TurnView::Finish::<
                MsiStage,
                (),
            > { result: Err("Descarga del .exe fallo (codigo "@ + shown + ")."@) })
            &&& msi_next(MsiStage::Install, admin_exe, event).0 == (TurnView::Finish::<
                MsiStage,
                (),
            > { result: Err("Admin installer termino con codigo "@ + shown) })
        }),
{
}

/// Every item of the document's list of assets is read, in its order, whatever else
/// it has: its name is the text under "name" and its address that under
/// "browser_download_url", each where there is one. A document without such a list
/// has none.
pub proof fn law_listed_assets(document: Json, i: int, text: Seq<char>)
    ensures
        document.member("assets"@) matches Some(Json::List(items)) ==> {
            &&& listed_assets(document) matches Some(assets) && assets.len() == items.len() && (0 <= i
                < items.len() ==> {
                &&& assets[i].name == Some(text) <==> items[i].member("name"@) == Some(
                    Json::Text(text),
                )
                &&& assets[i].download_url == Some(text) <==> items[i].member(
                    "browser_download_url"@,
                ) == Some(Json::Text(text))
            })
        },
        !(document.member("assets"@) matches Some(Json::List(_))) ==> listed_assets(document)
            is None,
{
    if let Some(Json::List(items)) = document.member("assets"@) {
        let assets = items.map_values(|item: Json| asset_of(item));
        if 0 <= i < items.len() {
            assert(assets[i] == asset_of(items[i]));
        }
    }
}

/// In lower case the ASCII letters A to Z are the letters a to z, and every other
/// character is as it was.
pub proof fn law_ascii_lowercase(text: Seq<char>, i: int)
    requires
        0 <= i < text.len(),
    ensures
        ascii_lowercase(text).len() == text.len(),
        65 <= text[i] as int <= 90 ==> ascii_lowercase(text)[i] as int == text[i] as int + 32,
        !(65 <= text[i] as int <= 90) ==> ascii_lowercase(text)[i] == text[i],
{
}

/// A download, and the files of a release, are shown as they are.
pub proof fn law_release_views(
    download: Result<AdminDownload, String>,
    assets: Option<Vec<ReleaseAsset>>,
    i: int,
)
    ensures
        match download {
            Ok(found) => download_view(download) == Ok::<DownloadView, Seq<char>>(
                DownloadView { url: found.url@, name: found.name@ },
            ),
            Err(error) => download_view(download) == Err::<DownloadView, Seq<char>>(error@),
        },
        match assets {
            Some(list) => asset_views(assets) matches Some(views) && views.len() == list@.len() && (0
                <= i < list@.len() ==> {
                &&& views[i].name == option_text(list@[i].name)
                &&& views[i].download_url == option_text(list@[i].download_url)
            }),
            None => asset_views(assets) is None,
        },
{
}

} // verus!
