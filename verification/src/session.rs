//! The session: one run of the program as a sequence of decisions.
//!
//! The session never touches the host. At every step it hands out the text to
//! print and one request; the caller prints the text, carries the request
//! out and comes back with the event that tells how it went.

use vstd::prelude::*;

use crate::identity::{
    config_dir, config_dir_text, config_path, config_path_text, UserData, UserDataView,
};
use crate::render::{
    greeting_text, render_greeting, render_report, render_saved, render_welcome, report_text,
    saved_text, welcome_text,
};
use crate::selection::{Flags, FlagsView, Selection};
use crate::snapshot::{text_of, Snapshot, SnapshotView};
use crate::style::{Theme, ThemeView};

verus! {

/// Why a run ends without success.
#[derive(Clone, Copy, Debug, PartialEq, Eq, Structural)]
pub enum Failure {
    /// The user's home directory cannot be told.
    HomeUnknown,
    /// The record could not be turned into text.
    Unencodable,
    /// The file of the record could not be written.
    Unwritable,
    /// The file of the record is there and could not be read.
    Unreadable,
    /// The file of the record does not hold a record.
    Malformed,
    /// An event came that answers no request of the session.
    OutOfTurn,
}

/// What the caller is asked to do next.
#[derive(Clone, Debug, PartialEq, Eq)]
pub enum Request {
    /// Find the user's home directory.
    FindHome,
    /// Create the directory if it is missing.
    EnsureDirectory { path: String },
    /// Turn the record into the text to be stored.
    Encode { user: UserData },
    /// Replace the contents of the file.
    Write { path: String, contents: String },
    /// Tell whether the file exists.
    Probe { path: String },
    /// Read the file as text.
    Read { path: String },
    /// Turn stored text back into a record.
    Decode { contents: String },
    /// Take one snapshot of the host, after one refresh.
    Sample,
    /// End the run with success.
    Finish,
    /// End the run without success, with a diagnostic.
    Fail { failure: Failure },
}

/// How the last request went.
#[derive(Clone, Debug, PartialEq, Eq)]
pub enum Event {
    /// Nothing was requested yet: the run begins.
    Start,
    /// The home directory, if there is one.
    Home(Option<String>),
    /// The directory was there or was created, or could not be created: the
    /// write that follows tells.
    DirectoryEnsured,
    /// The text of the record, if it could be encoded.
    Encoded(Option<String>),
    /// Whether the file was written.
    Written(bool),
    /// Whether the file exists.
    Probed(bool),
    /// The text of the file, if it could be read.
    Contents(Option<String>),
    /// The record, if the text holds one.
    Decoded(Option<UserData>),
    /// The snapshot.
    Sampled(Snapshot),
}

/// Where a run stands.
#[derive(Clone, Debug, PartialEq, Eq)]
pub enum Phase {
    Start,
    AwaitHome,
    AwaitDirectory { path: String, name: String },
    AwaitRecord { path: String, name: String },
    AwaitWrite { name: String },
    AwaitProbe { path: String },
    AwaitContents,
    AwaitUser,
    AwaitSnapshot,
    Done,
}

/// One step of a run: the text to print now, and what to do next.
#[derive(Clone, Debug, PartialEq, Eq)]
pub struct Step {
    pub output: String,
    pub request: Request,
}

/// One run of the program.
#[derive(Clone, Debug, PartialEq, Eq)]
pub struct Session {
    pub flags: Flags,
    pub theme: Theme,
    pub phase: Phase,
}

/// Mathematical model of a [`Request`].
pub ghost enum RequestView {
    FindHome,
    EnsureDirectory { path: Seq<char> },
    Encode { user: UserDataView },
    Write { path: Seq<char>, contents: Seq<char> },
    Probe { path: Seq<char> },
    Read { path: Seq<char> },
    Decode { contents: Seq<char> },
    Sample,
    Finish,
    Fail { failure: Failure },
}

/// Mathematical model of an [`Event`].
pub ghost enum EventView {
    Start,
    Home(Option<Seq<char>>),
    DirectoryEnsured,
    Encoded(Option<Seq<char>>),
    Written(bool),
    Probed(bool),
    Contents(Option<Seq<char>>),
    Decoded(Option<UserDataView>),
    Sampled(SnapshotView),
}

/// Mathematical model of a [`Phase`].
pub ghost enum PhaseView {
    Start,
    AwaitHome,
    AwaitDirectory { path: Seq<char>, name: Seq<char> },
    AwaitRecord { path: Seq<char>, name: Seq<char> },
    AwaitWrite { name: Seq<char> },
    AwaitProbe { path: Seq<char> },
    AwaitContents,
    AwaitUser,
    AwaitSnapshot,
    Done,
}

/// Mathematical model of a [`Step`].
pub ghost struct StepView {
    pub output: Seq<char>,
    pub request: RequestView,
}

/// Mathematical model of a [`Session`].
pub ghost struct SessionView {
    pub flags: FlagsView,
    pub theme: ThemeView,
    pub phase: PhaseView,
}

impl View for Request {
    type V = RequestView;

    open spec fn view(&self) -> RequestView {
        match *self {
            Request::FindHome => RequestView::FindHome,
            Request::EnsureDirectory { path } => RequestView::EnsureDirectory { path: path@ },
            Request::Encode { user } => RequestView::Encode { user: user@ },
            Request::Write { path, contents } => RequestView::Write {
                path: path@,
                contents: contents@,
            },
            Request::Probe { path } => RequestView::Probe { path: path@ },
            Request::Read { path } => RequestView::Read { path: path@ },
            Request::Decode { contents } => RequestView::Decode { contents: contents@ },
            Request::Sample => RequestView::Sample,
            Request::Finish => RequestView::Finish,
            Request::Fail { failure } => RequestView::Fail { failure },
        }
    }
}

/// The model of an optional record.
pub open spec fn user_of(user: Option<UserData>) -> Option<UserDataView> {
    match user {
        Some(u) => Some(u@),
        None => None,
    }
}

impl View for Event {
    type V = EventView;

    open spec fn view(&self) -> EventView {
        match *self {
            Event::Start => EventView::Start,
            Event::Home(home) => EventView::Home(text_of(home)),
            Event::DirectoryEnsured => EventView::DirectoryEnsured,
            Event::Encoded(text) => EventView::Encoded(text_of(text)),
            Event::Written(done) => EventView::Written(done),
            Event::Probed(found) => EventView::Probed(found),
            Event::Contents(text) => EventView::Contents(text_of(text)),
            Event::Decoded(user) => EventView::Decoded(user_of(user)),
            Event::Sampled(snapshot) => EventView::Sampled(snapshot@),
        }
    }
}

impl View for Phase {
    type V = PhaseView;

    open spec fn view(&self) -> PhaseView {
        match *self {
            Phase::Start => PhaseView::Start,
            Phase::AwaitHome => PhaseView::AwaitHome,
            Phase::AwaitDirectory { path, name } => PhaseView::AwaitDirectory {
                path: path@,
                name: name@,
            },
            Phase::AwaitRecord { path, name } => PhaseView::AwaitRecord {
                path: path@,
                name: name@,
            },
            Phase::AwaitWrite { name } => PhaseView::AwaitWrite { name: name@ },
            Phase::AwaitProbe { path } => PhaseView::AwaitProbe { path: path@ },
            Phase::AwaitContents => PhaseView::AwaitContents,
            Phase::AwaitUser => PhaseView::AwaitUser,
            Phase::AwaitSnapshot => PhaseView::AwaitSnapshot,
            Phase::Done => PhaseView::Done,
        }
    }
}

impl View for Step {
    type V = StepView;

    open spec fn view(&self) -> StepView {
        StepView { output: self.output@, request: self.request@ }
    }
}

impl View for Session {
    type V = SessionView;

    open spec fn view(&self) -> SessionView {
        SessionView { flags: self.flags@, theme: self.theme@, phase: self.phase@ }
    }
}

impl RequestView {
    /// Whether the request ends the run.
    pub open spec fn is_final(self) -> bool {
        self is Finish || self is Fail
    }
}

impl SessionView {
    /// The session of a run that has not begun.
    pub open spec fn new(flags: FlagsView, theme: ThemeView) -> SessionView {
        SessionView { flags, theme, phase: PhaseView::Start }
    }

    /// The session in another phase.
    pub open spec fn at(self, phase: PhaseView) -> SessionView {
        SessionView { phase, ..self }
    }

    /// A step that prints nothing.
    pub open spec fn ask(self, phase: PhaseView, request: RequestView) -> (SessionView, StepView) {
        (self.at(phase), StepView { output: Seq::empty(), request })
    }

    /// A step that prints `output`.
    pub open spec fn say(
        self,
        phase: PhaseView,
        output: Seq<char>,
        request: RequestView,
    ) -> (SessionView, StepView) {
        (self.at(phase), StepView { output, request })
    }

    /// The step that ends the run without success. Nothing is printed.
    pub open spec fn fail(self, failure: Failure) -> (SessionView, StepView) {
        self.ask(PhaseView::Done, RequestView::Fail { failure })
    }

    /// The decision taken on `event`.
    ///
    /// With a name to remember, the run ensures the directory, has the record
    /// encoded, writes it and says so; nothing else is printed. Without one,
    /// it looks for the record, greets the user by the name in it or, where
    /// there is no record, welcomes them, then takes the snapshot and prints
    /// the report. A record that is there and cannot be read or understood
    /// ends the run before anything is printed.
    pub open spec fn step(self, event: EventView) -> (SessionView, StepView) {
        match self.phase {
            PhaseView::Start => match event {
                EventView::Start => self.ask(PhaseView::AwaitHome, RequestView::FindHome),
                _ => self.fail(Failure::OutOfTurn),
            },
            PhaseView::AwaitHome => match event {
                EventView::Home(Some(home)) => match self.flags.name {
                    Some(name) => self.ask(
                        PhaseView::AwaitDirectory { path: config_path_text(home), name },
                        RequestView::EnsureDirectory { path: config_dir_text(home) },
                    ),
                    None => self.ask(
                        PhaseView::AwaitProbe { path: config_path_text(home) },
                        RequestView::Probe { path: config_path_text(home) },
                    ),
                },
                EventView::Home(None) => self.fail(Failure::HomeUnknown),
                _ => self.fail(Failure::OutOfTurn),
            },
            PhaseView::AwaitDirectory { path, name } => match event {
                EventView::DirectoryEnsured => self.ask(
                    PhaseView::AwaitRecord { path, name },
                    RequestView::Encode { user: UserDataView { name } },
                ),
                _ => self.fail(Failure::OutOfTurn),
            },
            PhaseView::AwaitRecord { path, name } => match event {
                EventView::Encoded(Some(contents)) => self.ask(
                    PhaseView::AwaitWrite { name },
                    RequestView::Write { path, contents },
                ),
                EventView::Encoded(None) => self.fail(Failure::Unencodable),
                _ => self.fail(Failure::OutOfTurn),
            },
            PhaseView::AwaitWrite { name } => match event {
                EventView::Written(true) => self.say(
                    PhaseView::Done,
                    saved_text(name),
                    RequestView::Finish,
                ),
                EventView::Written(false) => self.fail(Failure::Unwritable),
                _ => self.fail(Failure::OutOfTurn),
            },
            PhaseView::AwaitProbe { path } => match event {
                EventView::Probed(true) => self.ask(
                    PhaseView::AwaitContents,
                    RequestView::Read { path },
                ),
                EventView::Probed(false) => self.say(
                    PhaseView::AwaitSnapshot,
                    welcome_text(),
                    RequestView::Sample,
                ),
                _ => self.fail(Failure::OutOfTurn),
            },
            PhaseView::AwaitContents => match event {
                EventView::Contents(Some(contents)) => self.ask(
                    PhaseView::AwaitUser,
                    RequestView::Decode { contents },
                ),
                EventView::Contents(None) => self.fail(Failure::Unreadable),
                _ => self.fail(Failure::OutOfTurn),
            },
            PhaseView::AwaitUser => match event {
                EventView::Decoded(Some(user)) => self.say(
                    PhaseView::AwaitSnapshot,
                    greeting_text(user.name, self.theme),
                    RequestView::Sample,
                ),
                EventView::Decoded(None) => self.fail(Failure::Malformed),
                _ => self.fail(Failure::OutOfTurn),
            },
            PhaseView::AwaitSnapshot => match event {
                EventView::Sampled(snapshot) => self.say(
                    PhaseView::Done,
                    report_text(Selection::spec_from_flags(self.flags), snapshot, self.theme),
                    RequestView::Finish,
                ),
                _ => self.fail(Failure::OutOfTurn),
            },
            PhaseView::Done => self.fail(Failure::OutOfTurn),
        }
    }
}

impl Failure {
    /// The diagnostic of the failure.
    pub open spec fn spec_message(self) -> Seq<char> {
        match self {
            Failure::HomeUnknown => "Unable to find the home directory"@,
            Failure::Unencodable => "Unable to encode the name"@,
            Failure::Unwritable => "Unable to write file"@,
            Failure::Unreadable => "Unable to read file"@,
            Failure::Malformed => "Unable to parse JSON"@,
            Failure::OutOfTurn => "Unexpected event"@,
        }
    }

    /// The diagnostic of the failure.
    pub fn message(&self) -> (text: &'static str)
        ensures
            text@ == self.spec_message(),
    {
        match self {
            Failure::HomeUnknown => "Unable to find the home directory",
            Failure::Unencodable => "Unable to encode the name",
            Failure::Unwritable => "Unable to write file",
            Failure::Unreadable => "Unable to read file",
            Failure::Malformed => "Unable to parse JSON",
            Failure::OutOfTurn => "Unexpected event",
        }
    }
}

impl Request {
    /// Whether the request ends the run.
    pub fn is_final(&self) -> (done: bool)
        ensures
            done == self@.is_final(),
    {
        match self {
            Request::Finish => true,
            Request::Fail { .. } => true,
            _ => false,
        }
    }
}

impl Session {
    /// The session of a run that has not begun.
    pub fn new(flags: Flags, theme: Theme) -> (session: Session)
        ensures
            session@ == SessionView::new(flags@, theme@),
            session.flags == flags,
            session.theme == theme,
    {
        Session { flags, theme, phase: Phase::Start }
    }

    /// Whether the run has ended.
    pub fn is_done(&self) -> (done: bool)
        ensures
            done == (self@.phase is Done),
    {
        match self.phase {
            Phase::Done => true,
            _ => false,
        }
    }

    /// Takes the decision on `event`: the session in its next phase, and the
    /// step for the caller to carry out.
    pub fn advance(self, event: Event) -> (next: (Session, Step))
        ensures
            (next.0@, next.1@) == self@.step(event@),
    {
        let Session { flags, theme, phase } = self;
        match phase {
            Phase::Start => match event {
                Event::Start => ask(flags, theme, Phase::AwaitHome, Request::FindHome),
                _ => fail(flags, theme, Failure::OutOfTurn),
            },
            Phase::AwaitHome => match event {
                Event::Home(Some(home)) => {
                    let path = config_path(home.as_str());
                    match &flags.name {
                        Some(name) => {
                            let name = name.clone();
                            let directory = config_dir(home.as_str());
                            ask(
                                flags,
                                theme,
                                Phase::AwaitDirectory { path, name },
                                Request::EnsureDirectory { path: directory },
                            )
                        },
                        None => {
                            let probed = path.clone();
                            ask(
                                flags,
                                theme,
                                Phase::AwaitProbe { path },
                                Request::Probe { path: probed },
                            )
                        },
                    }
                },
                Event::Home(None) => fail(flags, theme, Failure::HomeUnknown),
                _ => fail(flags, theme, Failure::OutOfTurn),
            },
            Phase::AwaitDirectory { path, name } => match event {
                Event::DirectoryEnsured => {
                    let user = UserData::new(name.clone());
                    ask(flags, theme, Phase::AwaitRecord { path, name }, Request::Encode { user })
                },
                _ => fail(flags, theme, Failure::OutOfTurn),
            },
            Phase::AwaitRecord { path, name } => match event {
                Event::Encoded(Some(contents)) => ask(
                    flags,
                    theme,
                    Phase::AwaitWrite { name },
                    Request::Write { path, contents },
                ),
                Event::Encoded(None) => fail(flags, theme, Failure::Unencodable),
                _ => fail(flags, theme, Failure::OutOfTurn),
            },
            Phase::AwaitWrite { name } => match event {
                Event::Written(true) => {
                    let output = render_saved(name.as_str());
                    say(flags, theme, Phase::Done, output, Request::Finish)
                },
                Event::Written(false) => fail(flags, theme, Failure::Unwritable),
                _ => fail(flags, theme, Failure::OutOfTurn),
            },
            Phase::AwaitProbe { path } => match event {
                Event::Probed(true) => ask(
                    flags,
                    theme,
                    Phase::AwaitContents,
                    Request::Read { path },
                ),
                Event::Probed(false) => {
                    let output = render_welcome();
                    say(flags, theme, Phase::AwaitSnapshot, output, Request::Sample)
                },
                _ => fail(flags, theme, Failure::OutOfTurn),
            },
            Phase::AwaitContents => match event {
                Event::Contents(Some(contents)) => ask(
                    flags,
                    theme,
                    Phase::AwaitUser,
                    Request::Decode { contents },
                ),
                Event::Contents(None) => fail(flags, theme, Failure::Unreadable),
                _ => fail(flags, theme, Failure::OutOfTurn),
            },
            Phase::AwaitUser => match event {
                Event::Decoded(Some(user)) => {
                    let output = render_greeting(user.name.as_str(), &theme);
                    say(flags, theme, Phase::AwaitSnapshot, output, Request::Sample)
                },
                Event::Decoded(None) => fail(flags, theme, Failure::Malformed),
                _ => fail(flags, theme, Failure::OutOfTurn),
            },
            Phase::AwaitSnapshot => match event {
                Event::Sampled(snapshot) => {
                    let selection = Selection::from_flags(&flags);
                    let output = render_report(&selection, &snapshot, &theme);
                    say(flags, theme, Phase::Done, output, Request::Finish)
                },
                _ => fail(flags, theme, Failure::OutOfTurn),
            },
            Phase::Done => fail(flags, theme, Failure::OutOfTurn),
        }
    }
}

/// The step into `phase` that prints `output` and makes `request`.
fn say(flags: Flags, theme: Theme, phase: Phase, output: String, request: Request) -> (next: (
    Session,
    Step,
))
    ensures
        next.0@ == (SessionView { flags: flags@, theme: theme@, phase: phase@ }),
        next.1@ == (StepView { output: output@, request: request@ }),
{
    (Session { flags, theme, phase }, Step { output, request })
}

/// The step into `phase` that prints nothing and makes `request`.
fn ask(flags: Flags, theme: Theme, phase: Phase, request: Request) -> (next: (Session, Step))
    ensures
        next.0@ == (SessionView { flags: flags@, theme: theme@, phase: phase@ }),
        next.1@ == (StepView { output: Seq::empty(), request: request@ }),
{
    say(flags, theme, phase, String::new(), request)
}

/// The step that ends the run without success.
fn fail(flags: Flags, theme: Theme, failure: Failure) -> (next: (Session, Step))
    ensures
        next.0@ == (SessionView { flags: flags@, theme: theme@, phase: PhaseView::Done }),
        next.1@ == (StepView {
            output: Seq::empty(),
            request: RequestView::Fail { failure },
        }),
{
    ask(flags, theme, Phase::Done, Request::Fail { failure })
}

} // verus!
