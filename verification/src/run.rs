//! Whole runs: a model of the host that answers the requests of a session,
//! and what a run prints, asks and leaves behind on such a host.
//!
//! The model holds what a run can observe: the home directory, the files by
//! path, whether files can be written, the snapshot that sampling yields, and
//! the codec that turns a name into the stored text and back.

use vstd::prelude::*;

use crate::identity::{config_dir_text, config_path_text, UserDataView};
use crate::layout::{
    ends_with_one_blank_line, identity_ends_in_text, lemma_one_trailing_blank_line,
};
use crate::render::{
    greeting_text, prelude_text, report_text, saved_text, welcome_text, LINE_BREAK,
};
use crate::selection::{FlagsView, Selection};
use crate::session::{EventView, Failure, RequestView, SessionView};
use crate::snapshot::SnapshotView;
use crate::style::ThemeView;

verus! {

/// A file as a run finds it.
pub ghost enum FileView {
    /// The file is there and cannot be read.
    Unreadable,
    /// The file is there and holds this text.
    Text(Seq<char>),
}

/// The host as a run observes it.
pub ghost struct Host {
    /// The user's home directory, if it can be told.
    pub home: Option<Seq<char>>,
    /// The files that exist, by path.
    pub files: Map<Seq<char>, FileView>,
    /// Whether files can be written.
    pub writable: bool,
    /// What sampling yields.
    pub snapshot: SnapshotView,
    /// The text that the codec stores for a name, if it can encode it.
    pub encode: spec_fn(Seq<char>) -> Option<Seq<char>>,
    /// The name that the codec finds in a stored text, if it holds one.
    pub decode: spec_fn(Seq<char>) -> Option<Seq<char>>,
}

/// What became of a run.
pub ghost struct Run {
    /// Everything that was printed, in order.
    pub output: Seq<char>,
    /// Every request that was made, in order.
    pub requests: Seq<RequestView>,
    /// The request that ended the run, if it ended.
    pub end: Option<RequestView>,
    /// The host as the run left it.
    pub host: Host,
}

impl Host {
    /// The host after `request` was carried out, and the event that answers
    /// it; no event answers a request that ends the run.
    pub open spec fn respond(self, request: RequestView) -> (Host, Option<EventView>) {
        match request {
            RequestView::FindHome => (self, Some(EventView::Home(self.home))),
            RequestView::EnsureDirectory { path } => (self, Some(EventView::DirectoryEnsured)),
            RequestView::Encode { user } => (
                self,
                Some(EventView::Encoded((self.encode)(user.name))),
            ),
            RequestView::Write { path, contents } => if self.writable {
                (
                    Host { files: self.files.insert(path, FileView::Text(contents)), ..self },
                    Some(EventView::Written(true)),
                )
            } else {
                (self, Some(EventView::Written(false)))
            },
            RequestView::Probe { path } => (
                self,
                Some(EventView::Probed(self.files.contains_key(path))),
            ),
            RequestView::Read { path } => (
                self,
                Some(
                    EventView::Contents(
                        if self.files.contains_key(path) {
                            match self.files[path] {
                                FileView::Text(contents) => Some(contents),
                                FileView::Unreadable => None,
                            }
                        } else {
                            None
                        },
                    ),
                ),
            ),
            RequestView::Decode { contents } => (
                self,
                Some(
                    EventView::Decoded(
                        match (self.decode)(contents) {
                            Some(name) => Some(UserDataView { name }),
                            None => None,
                        },
                    ),
                ),
            ),
            RequestView::Sample => (self, Some(EventView::Sampled(self.snapshot))),
            RequestView::Finish => (self, None),
            RequestView::Fail { failure } => (self, None),
        }
    }

    /// The file of the record on this host, if the home directory is known.
    pub open spec fn record_path(self) -> Seq<char> {
        config_path_text(self.home->0)
    }

    /// Whether the codec reads back `name` from the text it stores for it.
    pub open spec fn reads_back(self, name: Seq<char>) -> bool {
        (self.encode)(name) matches Some(text) && (self.decode)(text) == Some(name)
    }
}

/// The run from `event` on: the session decides, the host answers, until a
/// request ends the run or `budget` further steps are used up.
pub open spec fn drive(session: SessionView, event: EventView, host: Host, budget: nat) -> Run
    decreases budget,
{
    let (next, step) = session.step(event);
    let (host_after, answer) = host.respond(step.request);
    match answer {
        None => Run {
            output: step.output,
            requests: seq![step.request],
            end: Some(step.request),
            host: host_after,
        },
        Some(reply) => if budget == 0 {
            Run { output: step.output, requests: seq![step.request], end: None, host: host_after }
        } else {
            let rest = drive(next, reply, host_after, (budget - 1) as nat);
            Run {
                output: step.output + rest.output,
                requests: seq![step.request] + rest.requests,
                end: rest.end,
                host: rest.host,
            }
        },
    }
}

/// More steps than any run takes.
pub open spec fn enough() -> nat {
    8
}

/// The run of the program with `flags` on `host`.
pub open spec fn run(flags: FlagsView, theme: ThemeView, host: Host) -> Run {
    drive(SessionView::new(flags, theme), EventView::Start, host, enough())
}

/// Without a home directory a run fails at once and prints nothing.
pub proof fn lemma_run_without_home(flags: FlagsView, theme: ThemeView, host: Host)
    requires
        host.home is None,
    ensures
        run(flags, theme, host).end == Some(RequestView::Fail { failure: Failure::HomeUnknown }),
        run(flags, theme, host).output == Seq::<char>::empty(),
        run(flags, theme, host).host == host,
{
    reveal_with_fuel(drive, 3);
    assert(run(flags, theme, host).output =~= Seq::<char>::empty());
}

/// A run with a name to remember ensures the directory, has the name
/// encoded, replaces the file of the record by that text, and prints that
/// the name was taken and nothing else: it takes no snapshot and renders no
/// section, whatever else is flagged.
pub proof fn lemma_run_with_name(flags: FlagsView, theme: ThemeView, host: Host)
    requires
        flags.name is Some,
        host.home is Some,
        (host.encode)(flags.name->0) is Some,
        host.writable,
    ensures
        ({
            let name = flags.name->0;
            let home = host.home->0;
            let text = (host.encode)(name)->0;
            let done = run(flags, theme, host);
            &&& done.end == Some(RequestView::Finish)
            &&& done.output == saved_text(name)
            &&& done.requests == seq![
                RequestView::FindHome,
                RequestView::EnsureDirectory { path: config_dir_text(home) },
                RequestView::Encode { user: UserDataView { name } },
                RequestView::Write { path: config_path_text(home), contents: text },
                RequestView::Finish,
            ]
            &&& done.host == Host {
                files: host.files.insert(config_path_text(home), FileView::Text(text)),
                ..host
            }
        }),
{
    reveal_with_fuel(drive, 6);
    let name = flags.name->0;
    let home = host.home->0;
    let text = (host.encode)(name)->0;
    let done = run(flags, theme, host);
    assert(done.output =~= saved_text(name));
    assert(done.requests =~= seq![
        RequestView::FindHome,
        RequestView::EnsureDirectory { path: config_dir_text(home) },
        RequestView::Encode { user: UserDataView { name } },
        RequestView::Write { path: config_path_text(home), contents: text },
        RequestView::Finish,
    ]);
}

/// A run with a name to remember that cannot write the file fails, prints
/// nothing and leaves the host as it was.
pub proof fn lemma_run_with_name_unwritable(flags: FlagsView, theme: ThemeView, host: Host)
    requires
        flags.name is Some,
        host.home is Some,
        (host.encode)(flags.name->0) is Some,
        !host.writable,
    ensures
        run(flags, theme, host).end == Some(RequestView::Fail { failure: Failure::Unwritable }),
        run(flags, theme, host).output == Seq::<char>::empty(),
        run(flags, theme, host).host == host,
{
    reveal_with_fuel(drive, 6);
    assert(run(flags, theme, host).output =~= Seq::<char>::empty());
}

/// A run with a name that the codec cannot encode fails, prints nothing and
/// leaves the host as it was.
pub proof fn lemma_run_with_name_unencodable(flags: FlagsView, theme: ThemeView, host: Host)
    requires
        flags.name is Some,
        host.home is Some,
        (host.encode)(flags.name->0) is None,
    ensures
        run(flags, theme, host).end == Some(RequestView::Fail { failure: Failure::Unencodable }),
        run(flags, theme, host).output == Seq::<char>::empty(),
        run(flags, theme, host).host == host,
{
    reveal_with_fuel(drive, 6);
    assert(run(flags, theme, host).output =~= Seq::<char>::empty());
}

/// A run without a name on a host that holds no record welcomes the user,
/// then takes one snapshot and prints the report of the selected sections.
pub proof fn lemma_run_without_record(flags: FlagsView, theme: ThemeView, host: Host)
    requires
        flags.name is None,
        host.home is Some,
        !host.files.contains_key(host.record_path()),
    ensures
        ({
            let done = run(flags, theme, host);
            &&& done.end == Some(RequestView::Finish)
            &&& done.output == welcome_text() + report_text(
                Selection::spec_from_flags(flags),
                host.snapshot,
                theme,
            )
            &&& done.requests == seq![
                RequestView::FindHome,
                RequestView::Probe { path: host.record_path() },
                RequestView::Sample,
                RequestView::Finish,
            ]
            &&& done.host == host
        }),
{
    reveal_with_fuel(drive, 6);
    let done = run(flags, theme, host);
    assert(done.output =~= welcome_text() + report_text(
        Selection::spec_from_flags(flags),
        host.snapshot,
        theme,
    ));
    assert(done.requests =~= seq![
        RequestView::FindHome,
        RequestView::Probe { path: host.record_path() },
        RequestView::Sample,
        RequestView::Finish,
    ]);
}

/// A run without a name on a host whose record holds a name greets the user
/// by that name, then takes one snapshot and prints the report of the
/// selected sections. The record is read before anything is printed, and the
/// snapshot is taken once, after the greeting.
pub proof fn lemma_run_with_record(flags: FlagsView, theme: ThemeView, host: Host)
    requires
        flags.name is None,
        host.home is Some,
        host.files.contains_key(host.record_path()),
        host.files[host.record_path()] is Text,
        (host.decode)(host.files[host.record_path()]->Text_0) is Some,
    ensures
        ({
            let contents = host.files[host.record_path()]->Text_0;
            let name = (host.decode)(contents)->0;
            let done = run(flags, theme, host);
            &&& done.end == Some(RequestView::Finish)
            &&& done.output == greeting_text(name, theme) + report_text(
                Selection::spec_from_flags(flags),
                host.snapshot,
                theme,
            )
            &&& done.requests == seq![
                RequestView::FindHome,
                RequestView::Probe { path: host.record_path() },
                RequestView::Read { path: host.record_path() },
                RequestView::Decode { contents },
                RequestView::Sample,
                RequestView::Finish,
            ]
            &&& done.host == host
        }),
{
    reveal_with_fuel(drive, 7);
    let contents = host.files[host.record_path()]->Text_0;
    let name = (host.decode)(contents)->0;
    let done = run(flags, theme, host);
    assert(done.output =~= greeting_text(name, theme) + report_text(
        Selection::spec_from_flags(flags),
        host.snapshot,
        theme,
    ));
    assert(done.requests =~= seq![
        RequestView::FindHome,
        RequestView::Probe { path: host.record_path() },
        RequestView::Read { path: host.record_path() },
        RequestView::Decode { contents },
        RequestView::Sample,
        RequestView::Finish,
    ]);
}

/// A run without a name on a host whose record does not hold a name fails
/// and prints nothing: no banner, no section.
pub proof fn lemma_run_with_malformed_record(flags: FlagsView, theme: ThemeView, host: Host)
    requires
        flags.name is None,
        host.home is Some,
        host.files.contains_key(host.record_path()),
        host.files[host.record_path()] is Text,
        (host.decode)(host.files[host.record_path()]->Text_0) is None,
    ensures
        run(flags, theme, host).end == Some(RequestView::Fail { failure: Failure::Malformed }),
        run(flags, theme, host).output == Seq::<char>::empty(),
        run(flags, theme, host).host == host,
{
    reveal_with_fuel(drive, 7);
    assert(run(flags, theme, host).output =~= Seq::<char>::empty());
}

/// A run without a name on a host whose record cannot be read fails and
/// prints nothing; it does not go on as if there were no record.
pub proof fn lemma_run_with_unreadable_record(flags: FlagsView, theme: ThemeView, host: Host)
    requires
        flags.name is None,
        host.home is Some,
        host.files.contains_key(host.record_path()),
        host.files[host.record_path()] is Unreadable,
    ensures
        run(flags, theme, host).end == Some(RequestView::Fail { failure: Failure::Unreadable }),
        run(flags, theme, host).output == Seq::<char>::empty(),
        run(flags, theme, host).host == host,
{
    reveal_with_fuel(drive, 7);
    assert(run(flags, theme, host).output =~= Seq::<char>::empty());
}

/// Every run ends, and one that fails has printed nothing.
pub proof fn lemma_run_ends(flags: FlagsView, theme: ThemeView, host: Host)
    ensures
        run(flags, theme, host).end is Some,
        run(flags, theme, host).end->0.is_final(),
        run(flags, theme, host).end->0 is Fail ==> run(flags, theme, host).output == Seq::<
            char,
        >::empty(),
{
    if host.home is None {
        lemma_run_without_home(flags, theme, host);
    } else if flags.name is Some {
        if (host.encode)(flags.name->0) is None {
            lemma_run_with_name_unencodable(flags, theme, host);
        } else if host.writable {
            lemma_run_with_name(flags, theme, host);
        } else {
            lemma_run_with_name_unwritable(flags, theme, host);
        }
    } else if !host.files.contains_key(host.record_path()) {
        lemma_run_without_record(flags, theme, host);
    } else if host.files[host.record_path()] is Unreadable {
        lemma_run_with_unreadable_record(flags, theme, host);
    } else if (host.decode)(host.files[host.record_path()]->Text_0) is None {
        lemma_run_with_malformed_record(flags, theme, host);
    } else {
        lemma_run_with_record(flags, theme, host);
    }
}

/// What a run without a name prints where it does not fail: what greets the
/// user, then the report.
pub proof fn lemma_run_prints_prelude_and_report(flags: FlagsView, theme: ThemeView, host: Host)
    requires
        flags.name is None,
        run(flags, theme, host).end == Some(RequestView::Finish),
    ensures
        exists|name: Option<Seq<char>>|
            #![trigger prelude_text(name, theme)]
            run(flags, theme, host).output == prelude_text(name, theme) + report_text(
                Selection::spec_from_flags(flags),
                host.snapshot,
                theme,
            ),
{
    lemma_run_ends(flags, theme, host);
    if host.home is None {
        lemma_run_without_home(flags, theme, host);
    } else if !host.files.contains_key(host.record_path()) {
        lemma_run_without_record(flags, theme, host);
        assert(prelude_text(None, theme) == welcome_text());
    } else if host.files[host.record_path()] is Unreadable {
        lemma_run_with_unreadable_record(flags, theme, host);
    } else if (host.decode)(host.files[host.record_path()]->Text_0) is None {
        lemma_run_with_malformed_record(flags, theme, host);
    } else {
        lemma_run_with_record(flags, theme, host);
        let name = (host.decode)(host.files[host.record_path()]->Text_0)->0;
        assert(prelude_text(Some(name), theme) == greeting_text(name, theme));
    }
}

/// With no section flag, no show-all and no name, a run that does not fail
/// prints what greets the user and one line break, and nothing else.
pub proof fn lemma_run_without_flags(flags: FlagsView, theme: ThemeView, host: Host)
    requires
        flags.name is None,
        !flags.showall,
        !flags.sysinfo,
        !flags.cpu,
        !flags.memory,
        !flags.disk,
        !flags.network,
        run(flags, theme, host).end == Some(RequestView::Finish),
    ensures
        exists|name: Option<Seq<char>>|
            #![trigger prelude_text(name, theme)]
            run(flags, theme, host).output == prelude_text(name, theme) + LINE_BREAK@,
{
    lemma_run_prints_prelude_and_report(flags, theme, host);
    let name = choose|name: Option<Seq<char>>|
        #![trigger prelude_text(name, theme)]
        run(flags, theme, host).output == prelude_text(name, theme) + report_text(
            Selection::spec_from_flags(flags),
            host.snapshot,
            theme,
        );
    assert(report_text(Selection::spec_from_flags(flags), host.snapshot, theme) =~= LINE_BREAK@);
    assert(run(flags, theme, host).output == prelude_text(name, theme) + LINE_BREAK@);
}

/// What a run without a name prints, where it does not fail, ends with
/// exactly one blank line, whichever sections were selected.
///
/// The one input left out is an identity value that ends with a line break
/// and is rendered last in its section.
pub proof fn lemma_run_ends_with_one_blank_line(flags: FlagsView, theme: ThemeView, host: Host)
    requires
        theme.well_formed(),
        flags.name is None,
        run(flags, theme, host).end == Some(RequestView::Finish),
        Selection::spec_from_flags(flags).sysinfo ==> identity_ends_in_text(host.snapshot),
    ensures
        ends_with_one_blank_line(run(flags, theme, host).output),
{
    lemma_run_prints_prelude_and_report(flags, theme, host);
    let name = choose|name: Option<Seq<char>>|
        #![trigger prelude_text(name, theme)]
        run(flags, theme, host).output == prelude_text(name, theme) + report_text(
            Selection::spec_from_flags(flags),
            host.snapshot,
            theme,
        );
    lemma_one_trailing_blank_line(name, Selection::spec_from_flags(flags), host.snapshot, theme);
}

/// A run under the show-all shortcut prints exactly what a run with the five
/// section flags prints on the same host, and ends as it does.
pub proof fn lemma_run_showall(flags: FlagsView, theme: ThemeView, host: Host)
    requires
        flags.name is None,
        flags.showall,
    ensures
        ({
            let spelled = FlagsView {
                showall: false,
                sysinfo: true,
                cpu: true,
                memory: true,
                disk: true,
                network: true,
                ..flags
            };
            &&& run(flags, theme, host).output == run(spelled, theme, host).output
            &&& run(flags, theme, host).end == run(spelled, theme, host).end
        }),
{
    let spelled = FlagsView {
        showall: false,
        sysinfo: true,
        cpu: true,
        memory: true,
        disk: true,
        network: true,
        ..flags
    };
    assert(Selection::spec_from_flags(flags) == Selection::spec_from_flags(spelled));
    if host.home is None {
        lemma_run_without_home(flags, theme, host);
        lemma_run_without_home(spelled, theme, host);
    } else if !host.files.contains_key(host.record_path()) {
        lemma_run_without_record(flags, theme, host);
        lemma_run_without_record(spelled, theme, host);
    } else if host.files[host.record_path()] is Unreadable {
        lemma_run_with_unreadable_record(flags, theme, host);
        lemma_run_with_unreadable_record(spelled, theme, host);
    } else if (host.decode)(host.files[host.record_path()]->Text_0) is None {
        lemma_run_with_malformed_record(flags, theme, host);
        lemma_run_with_malformed_record(spelled, theme, host);
    } else {
        lemma_run_with_record(flags, theme, host);
        lemma_run_with_record(spelled, theme, host);
    }
}

/// After a run that remembered a name, a run without a name on the host as
/// the first left it greets the user by that name, provided that files can
/// be written and that the codec reads the name back from what it stores
/// for it.
pub proof fn lemma_name_is_read_back(
    saving: FlagsView,
    showing: FlagsView,
    theme: ThemeView,
    host: Host,
)
    requires
        saving.name is Some,
        showing.name is None,
        host.home is Some,
        host.writable,
        host.reads_back(saving.name->0),
    ensures
        ({
            let name = saving.name->0;
            let saved = run(saving, theme, host);
            let shown = run(showing, theme, saved.host);
            &&& saved.end == Some(RequestView::Finish)
            &&& shown.end == Some(RequestView::Finish)
            &&& shown.output == greeting_text(name, theme) + report_text(
                Selection::spec_from_flags(showing),
                host.snapshot,
                theme,
            )
        }),
{
    lemma_run_with_name(saving, theme, host);
    let saved = run(saving, theme, host);
    assert(saved.host.files.contains_key(saved.host.record_path()));
    lemma_run_with_record(showing, theme, saved.host);
}

/// Remembering one name and then another leaves the second alone in the
/// record: the file holds what the codec stores for the second name, as if
/// the first had never been given, and a run without a name greets by the
/// second.
pub proof fn lemma_last_name_wins(
    first: FlagsView,
    second: FlagsView,
    showing: FlagsView,
    theme: ThemeView,
    host: Host,
)
    requires
        first.name is Some,
        second.name is Some,
        showing.name is None,
        host.home is Some,
        host.writable,
        (host.encode)(first.name->0) is Some,
        host.reads_back(second.name->0),
    ensures
        ({
            let once = run(first, theme, host);
            let twice = run(second, theme, once.host);
            let shown = run(showing, theme, twice.host);
            &&& twice.host.files[host.record_path()] == FileView::Text(
                (host.encode)(second.name->0)->0,
            )
            &&& twice.host == run(second, theme, host).host
            &&& shown.end == Some(RequestView::Finish)
            &&& shown.output == greeting_text(second.name->0, theme) + report_text(
                Selection::spec_from_flags(showing),
                host.snapshot,
                theme,
            )
        }),
{
    lemma_run_with_name(first, theme, host);
    let once = run(first, theme, host);
    lemma_run_with_name(second, theme, once.host);
    lemma_run_with_name(second, theme, host);
    let twice = run(second, theme, once.host);
    let path = host.record_path();
    let text = FileView::Text((host.encode)(second.name->0)->0);
    assert(twice.host.files =~= run(second, theme, host).host.files);
    assert(twice.host.files.contains_key(twice.host.record_path()));
    lemma_run_with_record(showing, theme, twice.host);
}

} // verus!
