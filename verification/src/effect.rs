//! What the installer asks of the machine, and what it is told in return.
//!
//! Every procedure of this library is a transition function: it takes the
//! stage it is in and the event that answers its last request, and either
//! makes the next request or ends with a result. Nothing here touches the
//! machine; the caller carries the requests out.
use vstd::prelude::*;
use vstd::string::*;

use crate::number::{append_signed, decimal_signed};
use crate::telemetry::{Report, ReportView};

verus! {

/// The system that the program was built for.
#[derive(Debug, Clone, Copy, PartialEq, Eq, Structural)]
pub enum Platform {
    Windows,
    Other,
}

/// Where a path starts.
#[derive(Debug, Clone, Copy, PartialEq, Eq, Structural)]
pub enum Root {
    /// The directory that the environment variable `ProgramData` names.
    ProgramData,
    /// The directory of the installed programs: see `program_files_dir`.
    ProgramFiles,
    /// The directory for temporary files.
    Temp,
    /// The directory of the resources that the program was packed with.
    Resources,
    /// The file that this process runs from.
    CurrentExe,
    /// Nowhere: the first part of the tail is a path by itself.
    Literal,
}

/// A path, given by its root and what is joined to it, part by part.
#[derive(Debug)]
pub struct Place {
    pub root: Root,
    pub tail: Vec<String>,
}

/// A word of a command line.
#[derive(Debug)]
pub enum Word {
    /// The text itself.
    Text(String),
    /// The text of a path, or nothing where the path is not Unicode.
    Path(Place),
    /// A path as it is, Unicode or not.
    Native(Place),
}

/// A program with its arguments and what is added to its environment.
#[derive(Debug)]
pub struct CommandLine {
    pub program: Word,
    pub args: Vec<Word>,
    pub env: Vec<(String, String)>,
}

/// How a command is run. None of them opens a console window.
#[derive(Debug, Clone, Copy, PartialEq, Eq, Structural)]
pub enum RunMode {
    /// Wait for its end.
    Status,
    /// Wait for its end and keep what it writes to its standard output.
    Output,
    /// Start it and go on.
    Spawn,
    /// Wait for its end while its output goes to the window and the log.
    Stream,
    /// Wait for its end, with all three standard streams shut off.
    Quiet,
}

/// The process creation flag that keeps a child from opening a console window.
pub const CREATE_NO_WINDOW: u32 = 0x0800_0000;

/// A request to the machine.
#[derive(Debug)]
pub enum Action {
    /// Run a command.
    Run { command: CommandLine, mode: RunMode },
    /// Look whether there is something at a path.
    Probe { place: Place },
    /// Create a directory and those above it.
    MakeDirs { place: Place },
    /// Copy a file.
    Copy { from: Place, to: Place },
    /// Write a file anew.
    Write { place: Place, contents: String },
    /// Create a file, or empty it, and hold it open.
    Create { place: Place },
    /// Write to the file that is held open, and close it.
    Fill { contents: String },
    /// Remove a file.
    Remove { place: Place },
    /// Wait.
    Pause { millis: u64 },
    /// Read the clock.
    ReadClock,
    /// Find out which file this process runs from.
    LocateSelf,
    /// Find out where the packed resources are.
    LocateResources,
    /// Put a path into readable form.
    Render { place: Place },
    /// Report progress.
    Report { percent: u8, message: String },
    /// Tell the window that the installation is complete.
    Announce,
    /// Tell the window that the installation failed.
    ShowError { message: String },
    /// Ask the machine about itself, for the reports on the installation.
    BeginReports,
    /// Send a report on the installation, unless it is too soon for one.
    SendReport { report: Report },
    /// End this process.
    Exit { code: i32 },
}

/// The answer to a request.
#[derive(Debug)]
pub enum Event {
    /// Nothing was asked yet.
    Begin,
    /// It was done.
    Done,
    /// It could not be done; the text is the system's own.
    Failed { error: String },
    /// The command ended, with an exit code unless it was cut short.
    Exited { code: Option<i32>, stdout: Vec<u8> },
    /// There is something at the path.
    Found,
    /// There is nothing at the path, given in readable and in quoted form.
    Missing { display: String, debug: String },
    /// The time, in nanoseconds since some moment before the first reading.
    Clock { now: u64 },
    /// A path in readable form.
    Rendered { text: String },
}

/// The events that can answer a request.
#[derive(Debug, Clone, Copy, PartialEq, Eq, Structural)]
pub enum Awaited {
    /// `Begin`.
    Begin,
    /// `Done` or `Failed`.
    Completion,
    /// `Exited` or `Failed`.
    Reply,
    /// `Found` or `Missing`.
    Presence,
    /// `Clock`.
    Clock,
    /// `Rendered`.
    Text,
    /// `Rendered` or `Failed`.
    Location,
}

/// One step of a procedure: a request, with the stage in which the answer is
/// awaited, or the end.
#[derive(Debug)]
pub enum Turn<S, T> {
    Ask { action: Action, stage: S },
    Finish { result: Result<T, String> },
}

// The same with sequences of characters in place of strings.

pub ghost struct PlaceView {
    pub root: Root,
    pub tail: Seq<Seq<char>>,
}

pub ghost enum WordView {
    Text(Seq<char>),
    Path(PlaceView),
    Native(PlaceView),
}

pub ghost struct CommandView {
    pub program: WordView,
    pub args: Seq<WordView>,
    pub env: Seq<(Seq<char>, Seq<char>)>,
}

pub ghost enum ActionView {
    Run { command: CommandView, mode: RunMode },
    Probe { place: PlaceView },
    MakeDirs { place: PlaceView },
    Copy { from: PlaceView, to: PlaceView },
    Write { place: PlaceView, contents: Seq<char> },
    Create { place: PlaceView },
    Fill { contents: Seq<char> },
    Remove { place: PlaceView },
    Pause { millis: u64 },
    ReadClock,
    LocateSelf,
    LocateResources,
    Render { place: PlaceView },
    Report { percent: u8, message: Seq<char> },
    Announce,
    ShowError { message: Seq<char> },
    BeginReports,
    SendReport { report: ReportView },
    Exit { code: i32 },
}

pub ghost enum EventView {
    Begin,
    Done,
    Failed { error: Seq<char> },
    Exited { code: Option<i32>, stdout: Seq<u8> },
    Found,
    Missing { display: Seq<char>, debug: Seq<char> },
    Clock { now: u64 },
    Rendered { text: Seq<char> },
}

pub ghost enum TurnView<S, T> {
    Ask { action: ActionView, stage: S },
    Finish { result: Result<T, Seq<char>> },
}

/// The texts of a row of strings.
pub open spec fn texts(list: Seq<String>) -> Seq<Seq<char>> {
    list.map_values(|s: String| s@)
}

/// The texts of a row of string slices.
pub open spec fn strs(list: Seq<&str>) -> Seq<Seq<char>> {
    list.map_values(|s: &str| s@)
}

impl View for Place {
    type V = PlaceView;

    open spec fn view(&self) -> PlaceView {
        PlaceView { root: self.root, tail: texts(self.tail@) }
    }
}

impl View for Word {
    type V = WordView;

    open spec fn view(&self) -> WordView {
        match self {
            Word::Text(text) => WordView::Text(text@),
            Word::Path(place) => WordView::Path(place@),
            Word::Native(place) => WordView::Native(place@),
        }
    }
}

impl View for CommandLine {
    type V = CommandView;

    open spec fn view(&self) -> CommandView {
        CommandView {
            program: self.program@,
            args: self.args@.map_values(|w: Word| w@),
            env: self.env@.map_values(|pair: (String, String)| (pair.0@, pair.1@)),
        }
    }
}

impl View for Action {
    type V = ActionView;

    open spec fn view(&self) -> ActionView {
        match self {
            Action::Run { command, mode } => ActionView::Run { command: command@, mode: *mode },
            Action::Probe { place } => ActionView::Probe { place: place@ },
            Action::MakeDirs { place } => ActionView::MakeDirs { place: place@ },
            Action::Copy { from, to } => ActionView::Copy { from: from@, to: to@ },
            Action::Write { place, contents } => ActionView::Write {
                place: place@,
                contents: contents@,
            },
            Action::Create { place } => ActionView::Create { place: place@ },
            Action::Fill { contents } => ActionView::Fill { contents: contents@ },
            Action::Remove { place } => ActionView::Remove { place: place@ },
            Action::Pause { millis } => ActionView::Pause { millis: *millis },
            Action::ReadClock => ActionView::ReadClock,
            Action::LocateSelf => ActionView::LocateSelf,
            Action::LocateResources => ActionView::LocateResources,
            Action::Render { place } => ActionView::Render { place: place@ },
            Action::Report { percent, message } => ActionView::Report {
                percent: *percent,
                message: message@,
            },
            Action::Announce => ActionView::Announce,
            Action::ShowError { message } => ActionView::ShowError { message: message@ },
            Action::BeginReports => ActionView::BeginReports,
            Action::SendReport { report } => ActionView::SendReport { report: report@ },
            Action::Exit { code } => ActionView::Exit { code: *code },
        }
    }
}

impl View for Event {
    type V = EventView;

    open spec fn view(&self) -> EventView {
        match self {
            Event::Begin => EventView::Begin,
            Event::Done => EventView::Done,
            Event::Failed { error } => EventView::Failed { error: error@ },
            Event::Exited { code, stdout } => EventView::Exited { code: *code, stdout: stdout@ },
            Event::Found => EventView::Found,
            Event::Missing { display, debug } => EventView::Missing {
                display: display@,
                debug: debug@,
            },
            Event::Clock { now } => EventView::Clock { now: *now },
            Event::Rendered { text } => EventView::Rendered { text: text@ },
        }
    }
}

/// The text of a failure, where there is one.
pub open spec fn result_text<T>(result: Result<T, String>) -> Result<T, Seq<char>> {
    match result {
        Ok(value) => Ok(value),
        Err(text) => Err(text@),
    }
}

/// The text of a string, where there is one.
pub open spec fn option_text(text: Option<String>) -> Option<Seq<char>> {
    match text {
        Some(t) => Some(t@),
        None => None,
    }
}

impl<S, T> View for Turn<S, T> {
    type V = TurnView<S, T>;

    open spec fn view(&self) -> TurnView<S, T> {
        match self {
            Turn::Ask { action, stage } => TurnView::Ask { action: action@, stage: *stage },
            Turn::Finish { result } => TurnView::Finish { result: result_text(*result) },
        }
    }
}

impl EventView {
    /// Whether this is one of the events awaited.
    pub open spec fn answers(self, awaited: Awaited) -> bool {
        match awaited {
            Awaited::Begin => self is Begin,
            Awaited::Completion => self is Done || self is Failed,
            Awaited::Reply => self is Exited || self is Failed,
            Awaited::Presence => self is Found || self is Missing,
            Awaited::Clock => self is Clock,
            Awaited::Text => self is Rendered,
            Awaited::Location => self is Rendered || self is Failed,
        }
    }

    /// Whether a command ran and exited with code zero.
    pub open spec fn succeeded(self) -> bool {
        self matches EventView::Exited { code, .. } && code == Some(0i32)
    }

    /// The exit code that messages show: minus one where there is none.
    pub open spec fn shown_code(self) -> int {
        match self {
            EventView::Exited { code: Some(code), .. } => code as int,
            _ => -1,
        }
    }
}

impl ActionView {
    /// The events that can answer this request.
    pub open spec fn awaited(self) -> Awaited {
        match self {
            ActionView::Run { mode: RunMode::Spawn, .. } => Awaited::Completion,
            ActionView::Run { .. } => Awaited::Reply,
            ActionView::Probe { .. } => Awaited::Presence,
            ActionView::ReadClock => Awaited::Clock,
            ActionView::LocateSelf => Awaited::Location,
            ActionView::Render { .. } => Awaited::Text,
            _ => Awaited::Completion,
        }
    }
}

impl Event {
    /// Tells whether this is one of the events awaited.
    pub fn answers(&self, awaited: Awaited) -> (yes: bool)
        ensures
            yes == self@.answers(awaited),
    {
        match (awaited, self) {
            (Awaited::Begin, Event::Begin) => true,
            (Awaited::Completion, Event::Done) => true,
            (Awaited::Completion, Event::Failed { .. }) => true,
            (Awaited::Reply, Event::Exited { .. }) => true,
            (Awaited::Reply, Event::Failed { .. }) => true,
            (Awaited::Presence, Event::Found) => true,
            (Awaited::Presence, Event::Missing { .. }) => true,
            (Awaited::Clock, Event::Clock { .. }) => true,
            (Awaited::Text, Event::Rendered { .. }) => true,
            (Awaited::Location, Event::Rendered { .. }) => true,
            (Awaited::Location, Event::Failed { .. }) => true,
            _ => false,
        }
    }

    /// Tells whether a command ran and exited with code zero.
    pub fn succeeded(&self) -> (yes: bool)
        ensures
            yes == self@.succeeded(),
    {
        match self {
            Event::Exited { code: Some(code), .. } => *code == 0,
            _ => false,
        }
    }

    /// The exit code that messages show.
    pub fn shown_code(&self) -> (code: i32)
        ensures
            code == self@.shown_code(),
    {
        match self {
            Event::Exited { code: Some(code), .. } => *code,
            _ => -1,
        }
    }
}

impl Action {
    /// The events that can answer this request.
    pub fn awaited(&self) -> (awaited: Awaited)
        ensures
            awaited == self@.awaited(),
    {
        match self {
            Action::Run { mode: RunMode::Spawn, .. } => Awaited::Completion,
            Action::Run { .. } => Awaited::Reply,
            Action::Probe { .. } => Awaited::Presence,
            Action::ReadClock => Awaited::Clock,
            Action::LocateSelf => Awaited::Location,
            Action::Render { .. } => Awaited::Text,
            _ => Awaited::Completion,
        }
    }
}

// Commands and places.

/// A row of words that are texts.
pub open spec fn words(list: Seq<Seq<char>>) -> Seq<WordView> {
    list.map_values(|s: Seq<char>| WordView::Text(s))
}

/// A command whose words are all texts, in the environment as it is.
pub open spec fn plain(program: Seq<char>, args: Seq<Seq<char>>) -> CommandView {
    CommandView { program: WordView::Text(program), args: words(args), env: Seq::empty() }
}

/// A path of one part below a root.
pub open spec fn below(root: Root, name: Seq<char>) -> PlaceView {
    PlaceView { root, tail: seq![name] }
}

/// A path of two parts below a root.
pub open spec fn below2(root: Root, first: Seq<char>, second: Seq<char>) -> PlaceView {
    PlaceView { root, tail: seq![first, second] }
}

/// Turns texts into words.
pub fn text_words(list: &[&str]) -> (made: Vec<Word>)
    ensures
        made@.map_values(|w: Word| w@) == words(strs(list@)),
{
    let mut made: Vec<Word> = Vec::new();
    for i in 0..list.len()
        invariant
            made@.len() == i,
            forall|j: int| 0 <= j < i ==> (#[trigger] made@[j])@ == WordView::Text(list@[j]@),
    {
        made.push(Word::Text(list[i].to_string()));
    }
    assert(made@.map_values(|w: Word| w@) =~= words(strs(list@)));
    made
}

/// Makes a command whose words are all texts.
pub fn plain_command(program: &str, args: &[&str]) -> (command: CommandLine)
    ensures
        command@ == plain(program@, strs(args@)),
{
    let command = CommandLine {
        program: Word::Text(program.to_string()),
        args: text_words(args),
        env: Vec::new(),
    };
    assert(command@.env =~= Seq::empty());
    command
}

/// Makes a path of one part below a root.
pub fn place(root: Root, name: &str) -> (made: Place)
    ensures
        made@ == below(root, name@),
{
    let mut tail: Vec<String> = Vec::new();
    tail.push(name.to_string());
    let made = Place { root, tail };
    assert(made@.tail =~= seq![name@]);
    made
}

/// Makes a path of two parts below a root.
pub fn place2(root: Root, first: &str, second: &str) -> (made: Place)
    ensures
        made@ == below2(root, first@, second@),
{
    let mut tail: Vec<String> = Vec::new();
    tail.push(first.to_string());
    tail.push(second.to_string());
    let made = Place { root, tail };
    assert(made@.tail =~= seq![first@, second@]);
    made
}

// Messages.

/// What failed, and the system's own text.
pub fn failure(what: &str, error: &str) -> (message: String)
    ensures
        message@ == what@ + error@,
{
    let mut message = what.to_string();
    message.append(error);
    message
}

/// A message that ends in an exit code.
pub fn code_message(before: &str, code: i32) -> (message: String)
    ensures
        message@ == before@ + decimal_signed(code as int),
{
    let mut message = before.to_string();
    append_signed(&mut message, code);
    message
}

/// A command succeeded where, and only where, it ran and its exit code was zero.
pub proof fn law_succeeded(event: EventView)
    ensures
        event.succeeded() <==> (event matches EventView::Exited { code: Some(code), .. } && code
            == 0),
{
}

/// Messages show the exit code of a command that has one, and minus one for one
/// that was cut short or never ran.
pub proof fn law_shown_code(event: EventView)
    ensures
        event matches EventView::Exited { code: Some(code), .. } ==> event.shown_code() == code,
        !(event matches EventView::Exited { code: Some(_), .. }) ==> event.shown_code() == -1,
{
}

/// Each kind of request is answered by events of its own: a command that is waited
/// for by its end or a failure, a search by what it found, the clock by the time,
/// and whatever is just done by that or a failure.
pub proof fn law_answers(action: ActionView, event: EventView)
    ensures
        (action matches ActionView::Run { mode, .. } && mode != RunMode::Spawn) ==> (event.answers(
            action.awaited(),
        ) <==> event is Exited || event is Failed),
        (action matches ActionView::Run { mode, .. } && mode == RunMode::Spawn) ==> (event.answers(
            action.awaited(),
        ) <==> event is Done || event is Failed),
        action is Probe ==> (event.answers(action.awaited()) <==> event is Found
            || event is Missing),
        action is ReadClock ==> (event.answers(action.awaited()) <==> event is Clock),
        action is LocateSelf ==> (event.answers(action.awaited()) <==> event is Rendered
            || event is Failed),
        action is Render ==> (event.answers(action.awaited()) <==> event is Rendered),
        !(action is Run || action is Probe || action is ReadClock || action is LocateSelf
            || action is Render) ==> (event.answers(action.awaited()) <==> event is Done
            || event is Failed),
{
}

/// The words of a command are the texts that it is given, all of them, as they are
/// and in their order.
pub proof fn law_words(program: Seq<char>, list: Seq<Seq<char>>)
    ensures
        words(list).len() == list.len(),
        forall|i: int| 0 <= i < list.len() ==> #[trigger] words(list)[i] == WordView::Text(list[i]),
        plain(program, list) == (CommandView {
            program: WordView::Text(program),
            args: words(list),
            env: Seq::empty(),
        }),
{
}

/// A path has the parts that it is given, in their order, below its root.
pub proof fn law_places(root: Root, first: Seq<char>, second: Seq<char>)
    ensures
        below(root, first) == (PlaceView { root, tail: seq![first] }),
        below2(root, first, second) == (PlaceView { root, tail: seq![first, second] }),
{
}

/// A row of strings is viewed as the row of their texts.
pub proof fn law_texts(strings: Seq<String>, slices: Seq<&str>)
    ensures
        texts(strings).len() == strings.len(),
        forall|i: int| 0 <= i < strings.len() ==> #[trigger] texts(strings)[i] == strings[i]@,
        strs(slices).len() == slices.len(),
        forall|i: int| 0 <= i < slices.len() ==> #[trigger] strs(slices)[i] == slices[i]@,
{
}

/// A view shows all there is of a path, a word and a command, as it is.
pub proof fn law_command_view(place: Place, word: Word, command: CommandLine, i: int)
    ensures
        place@.root == place.root,
        place@.tail == texts(place.tail@),
        word@ == match word {
            Word::Text(text) => WordView::Text(text@),
            Word::Path(path) => WordView::Path(path@),
            Word::Native(path) => WordView::Native(path@),
        },
        command@.program == command.program@,
        command@.args.len() == command.args@.len(),
        0 <= i < command.args@.len() ==> command@.args[i] == command.args@[i]@,
        command@.env.len() == command.env@.len(),
        0 <= i < command.env@.len() ==> command@.env[i] == (
            command.env@[i].0@,
            command.env@[i].1@,
        ),
{
}

/// And of a request.
pub proof fn law_action_view(action: Action)
    ensures
        match action {
            Action::Run { command, mode } => action@ == (ActionView::Run {
                command: command@,
                mode,
            }),
            Action::Probe { place } => action@ == (ActionView::Probe { place: place@ }),
            Action::MakeDirs { place } => action@ == (ActionView::MakeDirs { place: place@ }),
            Action::Copy { from, to } => action@ == (ActionView::Copy { from: from@, to: to@ }),
            Action::Write { place, contents } => action@ == (ActionView::Write {
                place: place@,
                contents: contents@,
            }),
            Action::Create { place } => action@ == (ActionView::Create { place: place@ }),
            Action::Fill { contents } => action@ == (ActionView::Fill { contents: contents@ }),
            Action::Remove { place } => action@ == (ActionView::Remove { place: place@ }),
            Action::Pause { millis } => action@ == (ActionView::Pause { millis }),
            Action::ReadClock => action@ is ReadClock,
            Action::LocateSelf => action@ is LocateSelf,
            Action::LocateResources => action@ is LocateResources,
            Action::Render { place } => action@ == (ActionView::Render { place: place@ }),
            Action::Report { percent, message } => action@ == (ActionView::Report {
                percent,
                message: message@,
            }),
            Action::Announce => action@ is Announce,
            Action::ShowError { message } => action@ == (ActionView::ShowError {
                message: message@,
            }),
            Action::BeginReports => action@ is BeginReports,
            Action::SendReport { report } => action@ == (ActionView::SendReport {
                report: report@,
            }),
            Action::Exit { code } => action@ == (ActionView::Exit { code }),
        },
{
}

/// And of an event.
pub proof fn law_event_view(event: Event)
    ensures
        match event {
            Event::Begin => event@ is Begin,
            Event::Done => event@ is Done,
            Event::Failed { error } => event@ == (EventView::Failed { error: error@ }),
            Event::Exited { code, stdout } => event@ == (EventView::Exited {
                code,
                stdout: stdout@,
            }),
            Event::Found => event@ is Found,
            Event::Missing { display, debug } => event@ == (EventView::Missing {
                display: display@,
                debug: debug@,
            }),
            Event::Clock { now } => event@ == (EventView::Clock { now }),
            Event::Rendered { text } => event@ == (EventView::Rendered { text: text@ }),
        },
{
}

/// And of a step, a result and an optional text.
pub proof fn law_turn_view<S, T>(turn: Turn<S, T>, result: Result<T, String>, text: Option<String>)
    ensures
        match turn {
            Turn::Ask { action, stage } => turn@ == (TurnView::Ask::<S, T> {
                action: action@,
                stage,
            }),
            Turn::Finish { result } => turn@ == (TurnView::Finish::<S, T> {
                result: result_text(result),
            }),
        },
        match result {
            Ok(value) => result_text(result) == Ok::<T, Seq<char>>(value),
            Err(error) => result_text(result) == Err::<T, Seq<char>>(error@),
        },
        match text {
            Some(t) => option_text(text) == Some(t@),
            None => option_text(text) is None,
        },
{
}

} // verus!
