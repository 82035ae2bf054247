use word_condenser::conductor::{try_build_conductor, BuildEvent, BuildStep};
use word_condenser::errors::AppError;

type Step = BuildStep<u8, u16, i8, u64, String, u32>;
type Event = BuildEvent<u8, u64, String, u32>;

const TOO_LONG: &str = "lair: path must be shorter than libc::sockaddr_un.sun_path (108)";

fn failed(error: u32, text: &str) -> Event {
    BuildEvent::BuildFailed { error, text: text.to_string() }
}

fn build(events: Vec<Event>, unix_family: bool) -> Step {
    let mut step: Step = BuildStep::start(300, -5, "pa\u{df}".to_string());
    for event in events {
        step = try_build_conductor(step, event, unix_family);
    }
    step
}

#[test]
fn conductor_is_built_at_once() {
    assert!(matches!(build(vec![BuildEvent::Built(7)], true), BuildStep::Built { conductor: 7 }));
}

#[test]
fn long_path_gets_a_link() {
    match build(vec![failed(1, TOO_LONG)], true) {
        BuildStep::LinkLair { given } => assert_eq!(given.keystore_dir, 300),
        _ => panic!("no link"),
    }
    let step = build(
        vec![failed(1, TOO_LONG), BuildEvent::Done, BuildEvent::Locked(77), BuildEvent::Built(9)],
        true,
    );
    assert!(matches!(step, BuildStep::Built { conductor: 9 }));
}

#[test]
fn long_path_is_final_elsewhere() {
    let step = build(vec![failed(1, TOO_LONG)], false);
    assert!(matches!(step, BuildStep::Failed { error: AppError::ConductorError(1) }));
}

#[test]
fn other_errors_are_final() {
    let step = build(vec![failed(2, "database is locked")], true);
    assert!(matches!(step, BuildStep::Failed { error: AppError::ConductorError(2) }));
}

#[test]
fn second_attempt_is_the_last() {
    let step = build(
        vec![failed(1, TOO_LONG), BuildEvent::Done, BuildEvent::Locked(77), failed(3, TOO_LONG)],
        true,
    );
    assert!(matches!(step, BuildStep::Failed { error: AppError::ConductorError(3) }));
}

#[test]
fn link_and_lock_can_fail() {
    let step = build(vec![failed(1, TOO_LONG), BuildEvent::Failed(4)], true);
    assert!(matches!(step, BuildStep::Failed { error: AppError::Passed(4) }));
    let step = build(vec![failed(1, TOO_LONG), BuildEvent::Done, BuildEvent::Failed(5)], true);
    assert!(matches!(step, BuildStep::Failed { error: AppError::IoError(5) }));
}

#[test]
fn password_bytes_are_locked() {
    let step = build(vec![failed(1, TOO_LONG), BuildEvent::Done], true);
    assert!(matches!(step, BuildStep::LockPassword { .. }));
    assert_eq!(step.bytes_to_lock(), Some(vec![b'p', b'a', 0xc3, 0x9f]));
    assert_eq!(build(vec![], true).bytes_to_lock(), None);
    assert_eq!(build(vec![failed(1, TOO_LONG)], true).bytes_to_lock(), None);
}

#[test]
fn second_conductor_has_the_given_config_and_the_locked_password() {
    let step = build(vec![failed(1, TOO_LONG), BuildEvent::Done, BuildEvent::Locked(77)], true);
    match step {
        BuildStep::Rebuild { config, passphrase } => {
            assert_eq!(config, -5);
            assert_eq!(passphrase, Some(77));
        }
        _ => panic!("no second attempt"),
    }
}

#[test]
fn nothing_is_locked_before_the_link() {
    let step = build(vec![failed(1, TOO_LONG), BuildEvent::Locked(77)], true);
    assert!(matches!(step, BuildStep::LinkLair { .. }));
    let step = build(vec![failed(1, TOO_LONG), BuildEvent::Done, BuildEvent::Done], true);
    assert!(matches!(step, BuildStep::LockPassword { .. }));
}
