use word_condenser::lifecycle::{on_run_event, RunAction, RunEvent};

fn close(label: &str) -> RunEvent<String> {
    RunEvent::CloseRequested { label: label.to_string() }
}

#[test]
fn main_window_is_hidden() {
    assert_eq!(on_run_event(close("main"), true, false), RunAction::HideWindow);
    assert_eq!(on_run_event(close("main"), true, true), RunAction::HideApp);
}

#[test]
fn other_windows_are_closed() {
    assert_eq!(on_run_event(close("settings"), true, false), RunAction::Ignore);
    assert_eq!(on_run_event(close("main"), false, false), RunAction::Ignore);
}

#[test]
fn app_stays_until_it_ends() {
    assert_eq!(on_run_event(RunEvent::ExitRequested, false, false), RunAction::PreventExit);
    assert_eq!(on_run_event(RunEvent::Exit, false, false), RunAction::KillChildren);
    assert_eq!(on_run_event(RunEvent::Other, true, true), RunAction::Ignore);
}
