use word_condenser::errors::AppError;
use word_condenser::install::{
    install_app_if_necessary, InstallEvent, InstallStep, MembraneProofs,
};

type Step = InstallStep<String, MembraneProofs, u8, u16, u32>;
type Event = InstallEvent<Vec<String>, u8, u16, u32>;

fn apps(ids: &[&str]) -> Event {
    InstallEvent::Apps(ids.iter().map(|id| id.to_string()).collect())
}

fn install(events: Vec<Event>) -> Step {
    let mut step: Step = InstallStep::start(Some("seed".to_string()));
    for event in events {
        step = install_app_if_necessary(step, event);
    }
    step
}

#[test]
fn installed_app_is_kept() {
    assert!(matches!(install(vec![apps(&["other", "Word Condenser"])]), InstallStep::Finished));
    assert!(matches!(
        install(vec![apps(&["Word Condenser"]), InstallEvent::Failed(1)]),
        InstallStep::Finished
    ));
}

#[test]
fn missing_app_is_installed() {
    let step = install(vec![apps(&["word condenser", "other"])]);
    assert!(matches!(step, InstallStep::GenerateAgentKey { .. }));
    let step = install(vec![apps(&[]), InstallEvent::AgentKey(7), InstallEvent::Bundle(8)]);
    match step {
        InstallStep::InstallApp { payload } => {
            assert_eq!(payload.agent_key, 7);
            assert_eq!(payload.source, 8);
            assert_eq!(payload.network_seed, Some("seed".to_string()));
            assert_eq!(payload.installed_app_id, Some("Word Condenser".to_string()));
            assert!(payload.membrane_proofs.is_empty());
        }
        _ => panic!("the app is not installed"),
    }
}

#[test]
fn installed_app_is_enabled() {
    let events = || {
        vec![apps(&[]), InstallEvent::AgentKey(7), InstallEvent::Bundle(8), InstallEvent::Done]
    };
    match install(events()) {
        InstallStep::EnableApp { app_id } => assert_eq!(app_id, "Word Condenser"),
        _ => panic!("the app is not enabled"),
    }
    let mut all = events();
    all.push(InstallEvent::Done);
    assert!(matches!(install(all), InstallStep::Finished));
}

#[test]
fn conductor_errors_are_told_apart_from_bundle_errors() {
    assert!(matches!(
        install(vec![InstallEvent::Failed(1)]),
        InstallStep::Failed { error: AppError::ConductorApiError(1) }
    ));
    assert!(matches!(
        install(vec![apps(&[]), InstallEvent::Failed(2)]),
        InstallStep::Failed { error: AppError::ConductorApiError(2) }
    ));
    assert!(matches!(
        install(vec![apps(&[]), InstallEvent::AgentKey(7), InstallEvent::Failed(3)]),
        InstallStep::Failed { error: AppError::AppBundleError(3) }
    ));
    assert!(matches!(
        install(vec![
            apps(&[]),
            InstallEvent::AgentKey(7),
            InstallEvent::Bundle(8),
            InstallEvent::Failed(4)
        ]),
        InstallStep::Failed { error: AppError::ConductorApiError(4) }
    ));
    assert!(matches!(
        install(vec![
            apps(&[]),
            InstallEvent::AgentKey(7),
            InstallEvent::Bundle(8),
            InstallEvent::Done,
            InstallEvent::Failed(5)
        ]),
        InstallStep::Failed { error: AppError::ConductorApiError(5) }
    ));
}

#[test]
fn outcome_of_another_step_changes_nothing() {
    assert!(matches!(install(vec![InstallEvent::Done]), InstallStep::ListApps { .. }));
    assert!(matches!(
        install(vec![apps(&[]), InstallEvent::Bundle(8)]),
        InstallStep::GenerateAgentKey { .. }
    ));
}
