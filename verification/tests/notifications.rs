use word_condenser::notifications::{notify_os, NotificationPayload, NotifyEvent, NotifyStep};
use word_condenser::tray::{IconChange, IconEvent, IconState, SysTrayIconState, TrayIcon};

type Step = NotifyStep<String, u8, u32>;

fn payload(urgency: &str) -> NotificationPayload<String> {
    NotificationPayload {
        title: "Title".to_string(),
        body: "Body".to_string(),
        urgency: urgency.to_string(),
    }
}

fn app() -> String {
    "org.example.app".to_string()
}

fn message(step: Step) -> String {
    match step {
        NotifyStep::Refused { message } => message,
        _ => panic!("not refused"),
    }
}

#[test]
fn only_main_may_notify() {
    let step: Step = notify_os("settings", app(), payload("high"), true, true);
    assert_eq!(
        message(step),
        "Unauthorized: Attempted to call tauri command 'notify_os' which is not allowed in this window."
    );
}

#[test]
fn unknown_focus_is_an_error() {
    let mut tray = SysTrayIconState::start();
    let step: Step = notify_os("main", app(), payload("high"), true, true);
    let step = step.advance(&mut tray, NotifyEvent::FocusUnknown("gone".to_string()));
    assert_eq!(message(step), "Failed to get focus state of main window: gone");
}

#[test]
fn focused_user_is_left_alone() {
    let mut tray = SysTrayIconState::start();
    let step: Step = notify_os("main", app(), payload("high"), true, true);
    let step = step.advance(&mut tray, NotifyEvent::Focus(true));
    assert!(matches!(step, NotifyStep::Finished));
    assert_eq!(tray.icon_state, IconState::Clean);
}

#[test]
fn high_urgency_gets_to_tray_and_os() {
    let mut tray = SysTrayIconState::start();
    let step: Step = notify_os("main", app(), payload("high"), true, true);
    let step = step.advance(&mut tray, NotifyEvent::Focus(false));
    assert!(matches!(
        step,
        NotifyStep::ChangeIcon {
            change: IconChange::Resolve { icon: TrayIcon::HighPriority },
            ..
        }
    ));
    let step = step.advance(&mut tray, NotifyEvent::Icon(IconEvent::Resolved(Some(1))));
    let step = step.advance(&mut tray, NotifyEvent::Icon(IconEvent::Shown));
    assert_eq!(tray.icon_state, IconState::High);
    match &step {
        NotifyStep::ShowNotification { identifier, title, body } => {
            assert_eq!(identifier, "org.example.app");
            assert_eq!(title, "Title");
            assert_eq!(body, "Body");
        }
        _ => panic!("nothing is shown"),
    }
    let step = step.advance(&mut tray, NotifyEvent::Shown);
    assert!(matches!(step, NotifyStep::Finished));
}

#[test]
fn high_urgency_without_tray() {
    let mut tray = SysTrayIconState::start();
    let step: Step = notify_os("main", app(), payload("high"), true, false);
    let step = step.advance(&mut tray, NotifyEvent::Focus(false));
    match &step {
        NotifyStep::ShowNotification { identifier, .. } => {
            assert_eq!(identifier, "org.example.app");
        }
        _ => panic!("nothing is shown"),
    }
    let step = step.advance(&mut tray, NotifyEvent::ShowFailed("no daemon".to_string()));
    assert_eq!(message(step), "Failed to to show OS notification: no daemon");
    assert_eq!(tray.icon_state, IconState::Clean);
}

#[test]
fn medium_urgency_stays_in_the_tray() {
    let mut tray = SysTrayIconState::start();
    let step: Step = notify_os("main", app(), payload("medium"), true, true);
    let step = step.advance(&mut tray, NotifyEvent::Focus(false));
    let step = step.advance(&mut tray, NotifyEvent::Icon(IconEvent::Resolved(Some(1))));
    let step = step.advance(&mut tray, NotifyEvent::Icon(IconEvent::Shown));
    assert!(matches!(step, NotifyStep::Finished));
    assert_eq!(tray.icon_state, IconState::Medium);
}

#[test]
fn high_urgency_without_os() {
    let mut tray = SysTrayIconState::start();
    let step: Step = notify_os("main", app(), payload("high"), false, false);
    let step = step.advance(&mut tray, NotifyEvent::Focus(false));
    assert!(matches!(step, NotifyStep::Finished));
}

#[test]
fn low_urgency_needs_no_step() {
    let mut tray = SysTrayIconState::start();
    let step: Step = notify_os("main", app(), payload("low"), true, true);
    let step = step.advance(&mut tray, NotifyEvent::Focus(false));
    assert!(matches!(step, NotifyStep::Finished));
}

#[test]
fn unknown_urgency_is_logged_and_done() {
    let mut tray = SysTrayIconState::start();
    let step: Step = notify_os("main", app(), payload("urgent"), true, true);
    let step = step.advance(&mut tray, NotifyEvent::Focus(false));
    assert!(matches!(step, NotifyStep::ChangeIcon { change: IconChange::Report { .. }, .. }));
    let step = step.advance(&mut tray, NotifyEvent::Icon(IconEvent::Logged));
    assert!(matches!(step, NotifyStep::Finished));
    assert_eq!(tray.icon_state, IconState::Clean);
}

#[test]
fn tray_error_keeps_the_os_from_notifying() {
    let mut tray = SysTrayIconState::start();
    let step: Step = notify_os("main", app(), payload("high"), true, true);
    let step = step.advance(&mut tray, NotifyEvent::Focus(false));
    let step = step.advance(&mut tray, NotifyEvent::Icon(IconEvent::Resolved(Some(1))));
    let step = step.advance(&mut tray, NotifyEvent::Icon(IconEvent::ShowFailed(7)));
    assert!(matches!(step, NotifyStep::DescribeError { error: 7 }));
    let step = step.advance(&mut tray, NotifyEvent::Described("bad icon".to_string()));
    assert_eq!(message(step), "Failed to change systray icon state: bad icon");
    assert_eq!(tray.icon_state, IconState::Clean);
}

#[test]
fn payload_is_cloned() {
    let copy = payload("low").clone();
    assert_eq!(copy.title, "Title");
    assert_eq!(copy.body, "Body");
    assert_eq!(copy.urgency, "low");
}
