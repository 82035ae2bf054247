use word_condenser::tray::{
    change_systray_icon_state, clear_systray_icon, IconChange, IconEvent, IconState,
    SysTrayIconState, TrayIcon,
};

type Change = IconChange<String, u8, u32>;

fn tray(icon_state: IconState) -> SysTrayIconState {
    SysTrayIconState { icon_state }
}

fn notify(tray: &mut SysTrayIconState, urgency: &str) {
    let mut change: Change = change_systray_icon_state(tray, urgency);
    loop {
        let event = match &change {
            IconChange::Resolve { .. } => IconEvent::Resolved(Some(1)),
            IconChange::Show { .. } => IconEvent::Shown,
            IconChange::Report { .. } => IconEvent::Logged,
            IconChange::Finished => return,
            IconChange::Failed { .. } => panic!("nothing failed"),
        };
        change = change.advance(tray, event);
    }
}

#[test]
fn tray_starts_clean() {
    assert_eq!(SysTrayIconState::start().get_icon_state(), IconState::Clean);
    assert_eq!(tray(IconState::High).get_icon_state(), IconState::High);
}

#[test]
fn icons_have_their_files() {
    assert_eq!(TrayIcon::Plain.resource(), "icons/32x32.png");
    assert_eq!(TrayIcon::MediumPriority.resource(), "icons/icon_priority_medium_32x32.png");
    assert_eq!(TrayIcon::HighPriority.resource(), "icons/icon_priority_high_32x32.png");
    assert_eq!(TrayIcon::Plain.icon_state(), IconState::Clean);
    assert_eq!(TrayIcon::MediumPriority.icon_state(), IconState::Medium);
    assert_eq!(TrayIcon::HighPriority.icon_state(), IconState::High);
}

#[test]
fn low_urgency_asks_for_nothing() {
    let change: Change = change_systray_icon_state(&tray(IconState::Clean), "low");
    assert!(matches!(change, IconChange::Finished));
}

#[test]
fn medium_urgency_asks_unless_shown() {
    for state in [IconState::Clean, IconState::Low] {
        let change: Change = change_systray_icon_state(&tray(state), "medium");
        assert!(matches!(change, IconChange::Resolve { icon: TrayIcon::MediumPriority }));
    }
    for state in [IconState::Medium, IconState::High] {
        let change: Change = change_systray_icon_state(&tray(state), "medium");
        assert!(matches!(change, IconChange::Finished));
    }
}

#[test]
fn high_urgency_always_asks() {
    for state in [IconState::Clean, IconState::Low, IconState::Medium, IconState::High] {
        let change: Change = change_systray_icon_state(&tray(state), "high");
        assert!(matches!(change, IconChange::Resolve { icon: TrayIcon::HighPriority }));
    }
}

#[test]
fn unknown_urgency_is_reported() {
    let change: Change = change_systray_icon_state(&tray(IconState::Clean), "urgent");
    match change {
        IconChange::Report { message } => {
            assert_eq!(message, "Got invalid notification urgency level: urgent")
        }
        _ => panic!("nothing is reported"),
    }
}

#[test]
fn missing_file_still_changes_the_state() {
    let mut tray = tray(IconState::Clean);
    let change: Change = change_systray_icon_state(&tray, "high");
    let change = change.advance(&mut tray, IconEvent::Resolved(None));
    assert!(matches!(change, IconChange::Finished));
    assert_eq!(tray.icon_state, IconState::High);
}

#[test]
fn failure_keeps_the_state() {
    let mut tray = tray(IconState::Clean);
    let change: Change = change_systray_icon_state(&tray, "medium");
    let change = change.advance(&mut tray, IconEvent::Resolved(Some(9)));
    assert!(matches!(change, IconChange::Show { icon: TrayIcon::MediumPriority, path: 9 }));
    assert_eq!(tray.icon_state, IconState::Clean);
    let change = change.advance(&mut tray, IconEvent::ShowFailed(5));
    assert!(matches!(change, IconChange::Failed { error: 5 }));
    assert_eq!(tray.icon_state, IconState::Clean);
}

#[test]
fn icon_shows_the_highest() {
    let cases = [
        (vec!["low", "low"], IconState::Clean),
        (vec!["low", "medium", "low"], IconState::Medium),
        (vec!["high", "medium", "low"], IconState::High),
        (vec!["medium", "high", "medium"], IconState::High),
        (vec!["urgent"], IconState::Clean),
        (vec![], IconState::Clean),
    ];
    for (urgencies, expected) in cases {
        let mut tray = SysTrayIconState::start();
        for urgency in urgencies {
            notify(&mut tray, urgency);
        }
        assert_eq!(tray.icon_state, expected);
    }
}

#[test]
fn repeated_notification_changes_nothing() {
    for urgency in ["low", "medium", "high", "urgent"] {
        let mut once = SysTrayIconState::start();
        notify(&mut once, urgency);
        let mut twice = once;
        notify(&mut twice, urgency);
        assert_eq!(once, twice);
    }
}

#[test]
fn clearing_brings_the_plain_icon_back() {
    let mut tray = tray(IconState::High);
    let change: Change = clear_systray_icon();
    assert!(matches!(change, IconChange::Resolve { icon: TrayIcon::Plain }));
    let change = change.advance(&mut tray, IconEvent::Resolved(Some(1)));
    assert_eq!(tray.icon_state, IconState::High);
    let change = change.advance(&mut tray, IconEvent::Shown);
    assert!(matches!(change, IconChange::Finished));
    assert_eq!(tray.icon_state, IconState::Clean);
}

#[test]
fn clearing_can_fail() {
    let mut tray = tray(IconState::High);
    let change: Change = clear_systray_icon();
    let change = change.advance(&mut tray, IconEvent::Resolved(Some(1)));
    let change = change.advance(&mut tray, IconEvent::ShowFailed(3));
    assert!(matches!(change, IconChange::Failed { error: 3 }));
    assert_eq!(tray.icon_state, IconState::High);
}

/// Does the steps of a change on a tray with an icon in it.
fn work(tray: &mut SysTrayIconState, icon: &mut TrayIcon, mut change: Change, takes: bool) {
    loop {
        let event = match &change {
            IconChange::Resolve { .. } => IconEvent::Resolved(Some(1)),
            IconChange::Show { icon: new, .. } if takes => {
                *icon = *new;
                IconEvent::Shown
            }
            IconChange::Show { .. } => IconEvent::ShowFailed(5),
            IconChange::Report { .. } => IconEvent::Logged,
            IconChange::Finished | IconChange::Failed { .. } => return,
        };
        change = change.advance(tray, event);
        assert_eq!(icon.icon_state(), tray.icon_state);
    }
}

#[test]
fn icon_and_state_agree() {
    let mut tray = SysTrayIconState::start();
    let mut icon = TrayIcon::Plain;
    for (urgency, takes, expected) in [
        ("low", true, TrayIcon::Plain),
        ("medium", false, TrayIcon::Plain),
        ("medium", true, TrayIcon::MediumPriority),
        ("high", false, TrayIcon::MediumPriority),
        ("high", true, TrayIcon::HighPriority),
        ("urgent", true, TrayIcon::HighPriority),
    ] {
        let change: Change = change_systray_icon_state(&tray, urgency);
        work(&mut tray, &mut icon, change, takes);
        assert_eq!(icon, expected);
    }
    work(&mut tray, &mut icon, clear_systray_icon(), false);
    assert_eq!(icon, TrayIcon::HighPriority);
    work(&mut tray, &mut icon, clear_systray_icon(), true);
    assert_eq!(icon, TrayIcon::Plain);
    assert_eq!(tray.icon_state, IconState::Clean);
}
