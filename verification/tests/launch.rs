use word_condenser::config::Dir;
use word_condenser::errors::{AppError, LairKeystoreError, LaunchHolochainError};
use word_condenser::launch::{
    admin_websocket_url, launch, Launch, LaunchEvent, LaunchStep, LogLevel, PASSWORD,
};

type Event = LaunchEvent<String, u32>;
type Step = LaunchStep<String, u32>;

fn text(text: &str) -> Event {
    LaunchEvent::FailedText(text.to_string())
}

fn begin(unix_family: bool) -> Launch<String, u32> {
    Launch::start(PASSWORD.to_string(), unix_family)
}

fn run(mut at: Launch<String, u32>, events: Vec<Event>) -> Launch<String, u32> {
    for event in events {
        at = launch(at, event);
    }
    at
}

/// Up to the pick of the admin port.
fn keystore() -> Vec<Event> {
    vec![
        LaunchEvent::Exists(true),
        LaunchEvent::Exists(true),
        LaunchEvent::Exists(true),
        LaunchEvent::LairUrl("unix:///lair".to_string()),
        LaunchEvent::Done,
    ]
}

/// Up to the first attempt to connect.
fn started() -> Vec<Event> {
    let mut events = keystore();
    events.push(LaunchEvent::Port(Some(4444)));
    events.push(LaunchEvent::Done);
    events.push(LaunchEvent::Yaml("---".to_string()));
    events.push(LaunchEvent::Done);
    events.push(LaunchEvent::Done);
    events.push(LaunchEvent::Done);
    events.push(LaunchEvent::Done);
    events
}

fn with(mut events: Vec<Event>, more: Vec<Event>) -> Vec<Event> {
    events.extend(more);
    events
}

fn step(unix_family: bool, events: Vec<Event>) -> Step {
    run(begin(unix_family), events).step
}

fn aborted(step: Step) -> String {
    match step {
        LaunchStep::Aborted { message } => message,
        _ => panic!("not aborted"),
    }
}

fn no_conductor(step: Step) -> String {
    match step {
        LaunchStep::Failed {
            error:
                AppError::LaunchHolochainError(LaunchHolochainError::CouldNotConnectToConductor(text)),
        } => text,
        _ => panic!("another end"),
    }
}

#[test]
fn launch_begins_with_the_keystore() {
    let at = begin(true);
    assert_eq!(at.password, "pass");
    assert_eq!(at.log_level, LogLevel::Warn);
    assert!(at.unix_family);
    assert!(matches!(at.step, LaunchStep::CheckDir { dir: Dir::Keystore }));
}

#[test]
fn directories_are_made_where_missing() {
    assert!(matches!(
        step(true, vec![LaunchEvent::Exists(false)]),
        LaunchStep::CreateDir { dir: Dir::Keystore }
    ));
    assert!(matches!(
        step(true, vec![LaunchEvent::Exists(false), LaunchEvent::Done]),
        LaunchStep::CheckDir { dir: Dir::Conductor }
    ));
    assert!(matches!(
        step(true, vec![LaunchEvent::Exists(true), LaunchEvent::Exists(false)]),
        LaunchStep::CreateDir { dir: Dir::Conductor }
    ));
    assert!(matches!(
        step(true, vec![LaunchEvent::Exists(true), LaunchEvent::Exists(true)]),
        LaunchStep::CheckKeystore
    ));
    assert!(matches!(
        step(true, vec![LaunchEvent::Exists(false), LaunchEvent::Failed(3)]),
        LaunchStep::Failed { error: AppError::Passed(3) }
    ));
}

#[test]
fn keystore_is_initialized_once() {
    let dirs = || vec![LaunchEvent::Exists(true), LaunchEvent::Exists(true)];
    assert!(matches!(
        step(true, with(dirs(), vec![LaunchEvent::Exists(false)])),
        LaunchStep::InitializeKeystore
    ));
    assert!(matches!(
        step(true, with(dirs(), vec![LaunchEvent::Exists(false), LaunchEvent::Done])),
        LaunchStep::LaunchLair
    ));
    assert!(matches!(
        step(true, with(dirs(), vec![LaunchEvent::Exists(true)])),
        LaunchStep::LaunchLair
    ));
    assert!(matches!(
        step(true, with(dirs(), vec![LaunchEvent::Exists(false), LaunchEvent::Failed(4)])),
        LaunchStep::Failed { error: AppError::Passed(4) }
    ));
    assert!(matches!(
        step(true, with(dirs(), vec![LaunchEvent::Exists(true), LaunchEvent::Failed(5)])),
        LaunchStep::Failed { error: AppError::Passed(5) }
    ));
}

#[test]
fn keystore_client_can_fail() {
    let mut events = keystore();
    events.pop();
    events.push(text("refused"));
    match step(true, events) {
        LaunchStep::Failed {
            error: AppError::LairKeystoreError(LairKeystoreError::SpawnMetaLairClientError(text)),
        } => assert_eq!(text, "refused"),
        _ => panic!("another end"),
    }
}

#[test]
fn config_is_made_from_the_launch() {
    match step(true, with(keystore(), vec![LaunchEvent::Port(Some(4444))])) {
        LaunchStep::LinkLair { config } => {
            assert_eq!(config.environment, Dir::Conductor);
            assert_eq!(config.keystore_url, "unix:///lair");
            assert_eq!(config.admin_port, 4444);
            assert_eq!(config.bootstrap_service, "https://bootstrap.holo.host/");
            assert!(config.transport.proxy_url.starts_with("kitsune-proxy://f3gH2VMk"));
        }
        _ => panic!("no config"),
    }
}

#[test]
fn keystore_is_linked_on_unix_only() {
    let picked = || with(keystore(), vec![LaunchEvent::Port(Some(4444))]);
    assert!(matches!(step(false, picked()), LaunchStep::SerializeConfig { .. }));
    assert!(matches!(
        step(true, with(picked(), vec![LaunchEvent::Done])),
        LaunchStep::SerializeConfig { .. }
    ));
    assert!(matches!(
        step(true, with(picked(), vec![LaunchEvent::Failed(1)])),
        LaunchStep::SerializeConfig { .. }
    ));
}

#[test]
fn no_admin_port_ends_the_app() {
    let end = step(true, with(keystore(), vec![LaunchEvent::Port(None)]));
    assert_eq!(aborted(end), "Cannot find any unused port");
}

#[test]
fn bad_service_url_ends_the_app() {
    let at = || LaunchStep::ParseUrls { lair_url: "unix:///lair".to_string(), admin_port: 1 };
    let parse = |bootstrap: Result<String, String>, proxy: Result<String, String>| {
        let mut at_parse = begin(true);
        at_parse.step = at();
        at_parse.advance(LaunchEvent::Urls(bootstrap, proxy)).step
    };
    assert_eq!(
        aborted(parse(Err("A".to_string()), Err("B".to_string()))),
        "called `Result::unwrap()` on an `Err` value: A"
    );
    assert_eq!(
        aborted(parse(Ok("a:".to_string()), Err("B".to_string()))),
        "called `Result::unwrap()` on an `Err` value: B"
    );
}

#[test]
fn unwritten_config_ends_the_app() {
    let linked = || with(keystore(), vec![LaunchEvent::Port(Some(4444)), LaunchEvent::Done]);
    assert_eq!(
        aborted(step(true, with(linked(), vec![text("Fmt")]))),
        "Could not convert conductor config to string: Fmt"
    );
    assert_eq!(
        aborted(step(true, with(linked(), vec![LaunchEvent::Yaml("y".to_string()), text("Full")]))),
        "Could not write conductor config: Full"
    );
}

#[test]
fn written_yaml_is_the_given_one() {
    let events = with(
        keystore(),
        vec![
            LaunchEvent::Port(Some(4444)),
            LaunchEvent::Done,
            LaunchEvent::Yaml("a: 1".to_string()),
        ],
    );
    match step(true, events) {
        LaunchStep::WriteConfig { yaml, admin_port } => {
            assert_eq!(yaml, "a: 1");
            assert_eq!(admin_port, 4444);
        }
        _ => panic!("nothing to write"),
    }
}

#[test]
fn conductor_binary_can_fail() {
    let mut events = started();
    events.truncate(9);
    assert!(matches!(step(true, with(vec![], started())), LaunchStep::Connect { admin_port: 4444 }));
    match step(true, with(events, vec![text("not found")])) {
        LaunchStep::Failed {
            error:
                AppError::LaunchHolochainError(LaunchHolochainError::SidecarBinaryCommandError(text)),
        } => assert_eq!(text, "not found"),
        _ => panic!("another end"),
    }
    let mut events = started();
    events.truncate(10);
    assert!(matches!(
        step(true, with(events, vec![LaunchEvent::Failed(6)])),
        LaunchStep::Failed { error: AppError::Passed(6) }
    ));
}

#[test]
fn silent_conductor_gets_a_second_chance() {
    let refused = || with(started(), vec![text("os error 111")]);
    assert!(matches!(step(true, refused()), LaunchStep::AwaitRetry { admin_port: 4444 }));
    let waited = || with(refused(), vec![LaunchEvent::Done]);
    assert!(matches!(step(true, waited()), LaunchStep::Reconnect { admin_port: 4444 }));
    assert!(matches!(
        step(true, with(waited(), vec![LaunchEvent::Done])),
        LaunchStep::ListAppInterfaces { admin_port: 4444 }
    ));
    assert_eq!(no_conductor(step(true, with(waited(), vec![text("os error 111")]))), "os error 111");
}

#[test]
fn open_interface_is_used() {
    let listed = with(
        started(),
        vec![LaunchEvent::Done, LaunchEvent::AppInterfaces(vec![8000, 8001])],
    );
    match step(true, listed) {
        LaunchStep::InstallApp { admin_port, app_port, network_seed } => {
            assert_eq!(admin_port, 4444);
            assert_eq!(app_port, 8000);
            assert_eq!(network_seed.map(|seed| seed.len()), Some(36));
        }
        _ => panic!("nothing is installed"),
    }
}

#[test]
fn interface_is_opened_where_there_is_none() {
    let none = || with(started(), vec![LaunchEvent::Done, LaunchEvent::AppInterfaces(vec![])]);
    assert!(matches!(step(true, none()), LaunchStep::PickAppPort { admin_port: 4444 }));
    assert!(matches!(
        step(true, with(none(), vec![LaunchEvent::Port(Some(9000))])),
        LaunchStep::AttachAppInterface { admin_port: 4444, app_port: 9000 }
    ));
    assert!(matches!(
        step(true, with(none(), vec![LaunchEvent::Port(Some(9000)), LaunchEvent::Done])),
        LaunchStep::InstallApp { admin_port: 4444, app_port: 9000, .. }
    ));
    assert_eq!(aborted(step(true, with(none(), vec![LaunchEvent::Port(None)]))), "No ports free");
    assert_eq!(
        no_conductor(step(true, with(none(), vec![LaunchEvent::Port(Some(9000)), text("x")]))),
        "Could not attach app interface"
    );
}

#[test]
fn interfaces_can_stay_unknown() {
    assert_eq!(
        no_conductor(step(true, with(started(), vec![LaunchEvent::Done, text("Closed")]))),
        "Could not list app interfaces: Closed"
    );
}

#[test]
fn launch_finishes_with_its_ports() {
    let listed = || {
        with(started(), vec![LaunchEvent::Done, LaunchEvent::AppInterfaces(vec![8000])])
    };
    let end = run(begin(true), with(listed(), vec![LaunchEvent::Done]));
    assert!(matches!(end.step, LaunchStep::Finished { admin_port: 4444, app_port: 8000 }));
    assert_eq!(end.password, "pass");
    let end = run(end, vec![LaunchEvent::Failed(9), LaunchEvent::Exists(false)]);
    assert!(matches!(end.step, LaunchStep::Finished { admin_port: 4444, app_port: 8000 }));
    assert!(matches!(
        step(true, with(listed(), vec![LaunchEvent::Failed(7)])),
        LaunchStep::Failed { error: AppError::Passed(7) }
    ));
}

#[test]
fn longest_launch_has_every_step() {
    let events = vec![
        LaunchEvent::Exists(false),
        LaunchEvent::Done,
        LaunchEvent::Exists(false),
        LaunchEvent::Done,
        LaunchEvent::Exists(false),
        LaunchEvent::Done,
        LaunchEvent::LairUrl("unix:///lair".to_string()),
        LaunchEvent::Done,
        LaunchEvent::Port(Some(4444)),
        LaunchEvent::Failed(1),
        LaunchEvent::Yaml("y".to_string()),
        LaunchEvent::Done,
        LaunchEvent::Done,
        LaunchEvent::Done,
        LaunchEvent::Done,
        text("refused"),
        LaunchEvent::Done,
        LaunchEvent::Done,
        LaunchEvent::AppInterfaces(vec![]),
        LaunchEvent::Port(Some(9000)),
        LaunchEvent::Done,
        LaunchEvent::Done,
    ];
    assert_eq!(events.len(), 22);
    assert!(matches!(
        step(true, events),
        LaunchStep::Finished { admin_port: 4444, app_port: 9000 }
    ));
}

#[test]
fn admin_interface_has_its_address() {
    assert_eq!(admin_websocket_url(4444), "ws://localhost:4444");
    assert_eq!(admin_websocket_url(0), "ws://localhost:0");
    assert_ne!(admin_websocket_url(444), admin_websocket_url(4440));
}

/// A launch after some outcomes.
fn at(events: Vec<Event>) -> Launch<String, u32> {
    run(begin(true), events)
}

#[test]
fn steps_know_their_directory() {
    let dirs = || vec![LaunchEvent::Exists(true), LaunchEvent::Exists(true)];
    let dir = |events: Vec<Event>| step(true, events).dir();
    assert_eq!(dir(vec![]), Some(Dir::Keystore));
    assert_eq!(dir(vec![LaunchEvent::Exists(false)]), Some(Dir::Keystore));
    assert_eq!(dir(vec![LaunchEvent::Exists(true)]), Some(Dir::Conductor));
    assert_eq!(dir(dirs()), None);
    assert_eq!(dir(with(dirs(), vec![LaunchEvent::Exists(false)])), Some(Dir::Keystore));
    assert_eq!(dir(with(dirs(), vec![LaunchEvent::Exists(true)])), Some(Dir::Keystore));
    assert_eq!(dir(keystore()), None);
    let linked = with(keystore(), vec![LaunchEvent::Port(Some(4444))]);
    assert_eq!(dir(linked), Some(Dir::Keystore));
    let taken = |count: usize| started().into_iter().take(count).collect::<Vec<Event>>();
    assert_eq!(dir(taken(7)), None);
    assert_eq!(dir(taken(8)), Some(Dir::Conductor));
    assert_eq!(dir(taken(9)), None);
    assert_eq!(dir(taken(10)), Some(Dir::Conductor));
    assert_eq!(dir(taken(12)), None);
}

#[test]
fn steps_know_their_file() {
    let file = |count: usize| step(true, started().into_iter().take(count).collect()).file();
    assert_eq!(file(0), None);
    assert_eq!(file(8), Some("conductor-config.yaml"));
    assert_eq!(file(9), Some("holochain-wc-v0.1.6"));
    assert_eq!(file(10), Some("conductor-config.yaml"));
    assert_eq!(file(11), None);
}

#[test]
fn steps_know_how_long_to_wait() {
    let settle = step(true, started().into_iter().take(11).collect());
    assert_eq!(settle.pause_millis(), Some(100));
    assert_eq!(settle.notice(), None);
    let retry = step(true, with(started(), vec![text("os error 111")]));
    assert_eq!(retry.pause_millis(), Some(5000));
    assert_eq!(
        retry.notice(),
        Some("[HOLOCHAIN] Could not connect to the AdminWebsocket. Starting another attempt in 5 seconds.")
    );
    assert_eq!(step(true, started()).pause_millis(), None);
}

#[test]
fn both_attempts_go_to_the_admin_interface() {
    let first = step(true, started());
    assert_eq!(first.url(), Some("ws://localhost:4444".to_string()));
    let second = step(true, with(started(), vec![text("os error 111"), LaunchEvent::Done]));
    assert_eq!(second.url(), Some("ws://localhost:4444".to_string()));
    assert_eq!(step(true, keystore()).url(), None);
}

#[test]
fn password_and_log_level_go_where_they_are_needed() {
    let password = Some("pass".to_string());
    let dirs = || vec![LaunchEvent::Exists(true), LaunchEvent::Exists(true)];
    let initialize = at(with(dirs(), vec![LaunchEvent::Exists(false)]));
    assert_eq!(initialize.step_password(), password);
    assert_eq!(initialize.step_log_level(), None);
    let lair = at(with(dirs(), vec![LaunchEvent::Exists(true)]));
    assert_eq!(lair.step_password(), password);
    assert_eq!(lair.step_log_level(), Some(LogLevel::Warn));
    let client = at(keystore().into_iter().take(4).collect());
    assert_eq!(client.step_password(), password);
    assert_eq!(client.step_log_level(), None);
    let conductor = at(started().into_iter().take(10).collect());
    assert_eq!(conductor.step_password(), password);
    assert_eq!(conductor.step_log_level(), Some(LogLevel::Warn));
    assert_eq!(at(started()).step_password(), None);
    assert_eq!(at(vec![]).step_password(), None);
}

#[test]
fn app_port_is_not_the_admin_port_that_was_picked() {
    let early = with(vec![LaunchEvent::Port(Some(1)), LaunchEvent::LairUrl("x".to_string())], started());
    let events = with(
        early,
        vec![
            LaunchEvent::Port(Some(2)),
            LaunchEvent::Done,
            LaunchEvent::Port(Some(3)),
            LaunchEvent::AppInterfaces(vec![]),
            LaunchEvent::Port(Some(9000)),
            LaunchEvent::Port(Some(4)),
            LaunchEvent::Done,
            LaunchEvent::Done,
        ],
    );
    assert!(matches!(
        step(true, events),
        LaunchStep::Finished { admin_port: 4444, app_port: 9000 }
    ));
}
