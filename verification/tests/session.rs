use std::collections::HashMap;

use peekaboo::identity::UserData;
use peekaboo::selection::Flags;
use peekaboo::session::{Event, Failure, Phase, Request, Session, Step};
use peekaboo::snapshot::{CpuSample, DiskSample, MemorySample, NetSample, Snapshot};
use peekaboo::style::{Theme, BANNER};

struct Host {
    home: Option<String>,
    files: HashMap<String, Option<String>>,
    writable: bool,
    snapshot: Snapshot,
}

struct Outcome {
    output: String,
    requests: Vec<Request>,
    end: Request,
}

fn encode(name: &str) -> Option<String> {
    let mut record = serde_json::Map::new();
    record.insert("name".to_string(), serde_json::Value::String(name.to_string()));
    serde_json::to_string(&serde_json::Value::Object(record)).ok()
}

fn decode(contents: &str) -> Option<UserData> {
    let value: serde_json::Value = serde_json::from_str(contents).ok()?;
    let name = value.get("name")?.as_str()?;
    Some(UserData::new(name.to_string()))
}

fn respond(host: &mut Host, request: &Request) -> Event {
    match request {
        Request::FindHome => Event::Home(host.home.clone()),
        Request::EnsureDirectory { .. } => Event::DirectoryEnsured,
        Request::Encode { user } => Event::Encoded(encode(&user.name)),
        Request::Write { path, contents } => {
            if host.writable {
                host.files.insert(path.clone(), Some(contents.clone()));
            }
            Event::Written(host.writable)
        }
        Request::Probe { path } => Event::Probed(host.files.contains_key(path)),
        Request::Read { path } => Event::Contents(host.files.get(path).cloned().flatten()),
        Request::Decode { contents } => Event::Decoded(decode(contents)),
        Request::Sample => Event::Sampled(host.snapshot.clone()),
        Request::Finish | Request::Fail { .. } => unreachable!(),
    }
}

fn run(flags: Flags, host: &mut Host) -> Outcome {
    let mut session = Session::new(flags, Theme::plain());
    let mut event = Event::Start;
    let mut output = String::new();
    let mut requests = Vec::new();
    loop {
        let (next, step) = session.advance(event);
        session = next;
        output.push_str(&step.output);
        requests.push(step.request.clone());
        if step.request.is_final() {
            assert!(session.is_done());
            return Outcome { output, requests, end: step.request };
        }
        assert!(!session.is_done());
        event = respond(host, &step.request);
    }
}

fn flags(name: Option<&str>) -> Flags {
    Flags {
        name: name.map(|n| n.to_string()),
        showall: false,
        sysinfo: false,
        cpu: false,
        memory: false,
        disk: false,
        network: false,
    }
}

fn snapshot() -> Snapshot {
    Snapshot {
        os_name: Some("Ubuntu".to_string()),
        kernel_version: Some("6.8.0".to_string()),
        os_version: Some("24.04".to_string()),
        host_name: Some("box".to_string()),
        cpus: vec![CpuSample { name: "cpu0".to_string(), usage_hundredths: 333 }],
        memory: MemorySample {
            total_bytes: 8_589_934_592,
            used_bytes: 4_294_967_296,
            free_bytes: 1_073_741_824,
        },
        disks: vec![DiskSample {
            name: "nvme0n1p2".to_string(),
            total_bytes: 255_000_000_000,
            available_bytes: 100_000_000_000,
        }],
        networks: vec![NetSample {
            interface_name: "eth0".to_string(),
            received_bytes: 1024,
            transmitted_bytes: 2048,
        }],
    }
}

fn fresh_host() -> Host {
    Host {
        home: Some("/home/ada".to_string()),
        files: HashMap::new(),
        writable: true,
        snapshot: snapshot(),
    }
}

const PATH: &str = "/home/ada/Peekaboo/config.json";
const WELCOME: &str = "\n---------- Welcome to Peekaboo! ----------\n\nTip - Peekaboo can remember your name for personalised outputs! Just run 'peek --name YOUR_NAME'.\n";
const ALL_SECTIONS: &str = "\nSystem Information:\n\nSystem Name: Ubuntu\nSystem kernel version: 6.8.0\nSystem OS version: 24.04\nSystem host name: box\n\nCPU Usage:\n\ncpu0: 3.33 %\n\nMemory Usage:\n\nTotal: 8 GB\nUsed: 4 GB\nFree: 1 GB\n\nDisk Usage:\n\nnvme0n1p2: 93 / 237 GB available\n\nNetwork Usage:\n\neth0: received 1024 bytes, transmitted 2048 bytes\n\n";

fn greeting(name: &str) -> String {
    format!(
        "\n{}\n\n----------------- A System Monitoring CLI Tool -----------------\n\nMonitoring {}'s System...\n",
        BANNER, name
    )
}

#[test]
fn fresh_install_without_flags() {
    let mut host = fresh_host();
    let outcome = run(flags(None), &mut host);
    assert_eq!(outcome.end, Request::Finish);
    assert_eq!(outcome.output, format!("{}\n", WELCOME));
    assert!(outcome.output.contains("---------- Welcome to Peekaboo! ----------"));
    assert!(outcome.output.contains("peek --name YOUR_NAME"));
    assert_eq!(
        outcome.requests,
        vec![
            Request::FindHome,
            Request::Probe { path: PATH.to_string() },
            Request::Sample,
            Request::Finish
        ]
    );
    assert!(host.files.is_empty());
}

#[test]
fn set_name() {
    let mut host = fresh_host();
    let mut given = flags(Some("Ada"));
    given.showall = true;
    given.memory = true;
    let outcome = run(given, &mut host);
    assert_eq!(outcome.end, Request::Finish);
    assert_eq!(outcome.output, "\nNice to meet you Ada!\n");
    assert_eq!(
        outcome.requests,
        vec![
            Request::FindHome,
            Request::EnsureDirectory { path: "/home/ada/Peekaboo".to_string() },
            Request::Encode { user: UserData::new("Ada".to_string()) },
            Request::Write { path: PATH.to_string(), contents: "{\"name\":\"Ada\"}".to_string() },
            Request::Finish
        ]
    );
    assert_eq!(host.files.get(PATH), Some(&Some("{\"name\":\"Ada\"}".to_string())));
    assert_eq!(host.files.len(), 1);
}

#[test]
fn greeting_after_save() {
    let mut host = fresh_host();
    run(flags(Some("Ada")), &mut host);
    let outcome = run(flags(None), &mut host);
    assert_eq!(outcome.end, Request::Finish);
    assert_eq!(outcome.output, format!("{}\n", greeting("Ada")));
    assert!(outcome.output.contains("A System Monitoring CLI Tool"));
    assert!(outcome.output.contains("Monitoring Ada's System..."));
    assert_eq!(
        outcome.requests,
        vec![
            Request::FindHome,
            Request::Probe { path: PATH.to_string() },
            Request::Read { path: PATH.to_string() },
            Request::Decode { contents: "{\"name\":\"Ada\"}".to_string() },
            Request::Sample,
            Request::Finish
        ]
    );
}

#[test]
fn memory_only() {
    let mut host = fresh_host();
    run(flags(Some("Ada")), &mut host);
    let mut given = flags(None);
    given.memory = true;
    let outcome = run(given, &mut host);
    assert_eq!(outcome.end, Request::Finish);
    assert_eq!(
        outcome.output,
        format!("{}\nMemory Usage:\n\nTotal: 8 GB\nUsed: 4 GB\nFree: 1 GB\n\n", greeting("Ada"))
    );
}

#[test]
fn show_all_equivalence() {
    let mut host = fresh_host();
    run(flags(Some("Ada")), &mut host);
    let mut shortcut = flags(None);
    shortcut.showall = true;
    let mut spelled = flags(None);
    spelled.sysinfo = true;
    spelled.cpu = true;
    spelled.memory = true;
    spelled.disk = true;
    spelled.network = true;
    let one = run(shortcut, &mut host);
    let other = run(spelled, &mut host);
    assert_eq!(one.output, other.output);
    assert_eq!(one.output.as_bytes(), other.output.as_bytes());
    assert_eq!(one.output, format!("{}{}", greeting("Ada"), ALL_SECTIONS));
    assert_eq!(one.end, other.end);
}

#[test]
fn malformed_config() {
    let mut host = fresh_host();
    host.files.insert(PATH.to_string(), Some("not json".to_string()));
    let outcome = run(flags(None), &mut host);
    assert_eq!(outcome.end, Request::Fail { failure: Failure::Malformed });
    assert_eq!(outcome.output, "");
    assert!(!outcome.requests.contains(&Request::Sample));
}

#[test]
fn unreadable_config_is_fatal() {
    let mut host = fresh_host();
    host.files.insert(PATH.to_string(), None);
    let mut given = flags(None);
    given.showall = true;
    let outcome = run(given, &mut host);
    assert_eq!(outcome.end, Request::Fail { failure: Failure::Unreadable });
    assert_eq!(outcome.output, "");
}

#[test]
fn unwritable_config_is_fatal() {
    let mut host = fresh_host();
    host.writable = false;
    let outcome = run(flags(Some("Ada")), &mut host);
    assert_eq!(outcome.end, Request::Fail { failure: Failure::Unwritable });
    assert_eq!(outcome.output, "");
    assert!(host.files.is_empty());
}

#[test]
fn unknown_home_is_fatal() {
    let mut host = fresh_host();
    host.home = None;
    let outcome = run(flags(None), &mut host);
    assert_eq!(outcome.end, Request::Fail { failure: Failure::HomeUnknown });
    assert_eq!(outcome.output, "");
    let outcome = run(flags(Some("Ada")), &mut host);
    assert_eq!(outcome.end, Request::Fail { failure: Failure::HomeUnknown });
}

#[test]
fn unencodable_name_is_fatal() {
    let session = Session::new(flags(Some("Ada")), Theme::plain());
    let (session, _) = session.advance(Event::Start);
    let (session, _) = session.advance(Event::Home(Some("/home/ada".to_string())));
    let (session, step) = session.advance(Event::DirectoryEnsured);
    assert_eq!(step.request, Request::Encode { user: UserData::new("Ada".to_string()) });
    let (session, step) = session.advance(Event::Encoded(None));
    assert_eq!(
        step,
        Step { output: String::new(), request: Request::Fail { failure: Failure::Unencodable } }
    );
    assert_eq!(session.phase, Phase::Done);
}

#[test]
fn event_out_of_turn_is_refused() {
    let session = Session::new(flags(None), Theme::plain());
    let (session, step) = session.advance(Event::Probed(true));
    assert_eq!(step.request, Request::Fail { failure: Failure::OutOfTurn });
    assert_eq!(step.output, "");
    assert!(session.is_done());
    let (session, step) = session.advance(Event::Start);
    assert_eq!(step.request, Request::Fail { failure: Failure::OutOfTurn });
    assert!(session.is_done());
}

#[test]
fn name_is_read_back_after_save() {
    for name in ["Ada", "Grace Hopper", "", "Zoë \"Z\" O'Neil \\ 名前", "tab\tand\nbreak"] {
        let mut host = fresh_host();
        let saved = run(flags(Some(name)), &mut host);
        assert_eq!(saved.end, Request::Finish);
        let shown = run(flags(None), &mut host);
        assert_eq!(shown.end, Request::Finish);
        assert_eq!(shown.output, format!("{}\n", greeting(name)));
    }
}

#[test]
fn last_name_wins() {
    let mut host = fresh_host();
    run(flags(Some("Ada")), &mut host);
    run(flags(Some("Grace")), &mut host);
    assert_eq!(host.files.get(PATH), Some(&Some("{\"name\":\"Grace\"}".to_string())));
    assert_eq!(host.files.len(), 1);
    let shown = run(flags(None), &mut host);
    assert_eq!(shown.output, format!("{}\n", greeting("Grace")));
    assert!(!shown.output.contains("Ada"));
}

#[test]
fn additional_fields_of_the_record_are_ignored() {
    let mut host = fresh_host();
    host.files
        .insert(PATH.to_string(), Some("{\"theme\":\"dark\",\"name\":\"Ada\",\"n\":1}".to_string()));
    let shown = run(flags(None), &mut host);
    assert_eq!(shown.end, Request::Finish);
    assert_eq!(shown.output, format!("{}\n", greeting("Ada")));
}

#[test]
fn failure_messages() {
    assert_eq!(Failure::Unwritable.message(), "Unable to write file");
    assert_eq!(Failure::Unreadable.message(), "Unable to read file");
    assert_eq!(Failure::Malformed.message(), "Unable to parse JSON");
    assert_eq!(Failure::HomeUnknown.message(), "Unable to find the home directory");
    assert_eq!(Failure::Unencodable.message(), "Unable to encode the name");
    assert_eq!(Failure::OutOfTurn.message(), "Unexpected event");
}
