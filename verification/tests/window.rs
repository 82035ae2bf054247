use word_condenser::window::{
    build_main_window, deep_link_arguments, deep_link_received, initial_deep_link, MainWindow, Os,
    WindowCommand,
};

fn window(startup_time: Option<u128>, deep_link: Option<&str>) -> MainWindow<String, Vec<String>, u8> {
    build_main_window(5, 8000, 9000, startup_time, deep_link.map(|link| link.to_string()), "zoom()")
}

#[test]
fn main_window_has_its_properties() {
    let window = window(None, None);
    assert_eq!(window.label, "main");
    assert_eq!(window.page, "index.html");
    assert_eq!(window.title, "Word Condenser");
    assert!(window.menu);
    assert!(!window.file_drop_handler);
    assert!(window.resizable);
    assert!(window.maximized);
    assert_eq!(window.data_directory, 5);
}

#[test]
fn main_window_has_its_scripts() {
    assert_eq!(
        window(Some(1700000000123), None).initialization_scripts,
        vec![
            "window.__HC_LAUNCHER_ENV__ = { 'APP_INTERFACE_PORT': 8000, 'ADMIN_INTERFACE_PORT': 9000, 'INSTALLED_APP_ID': 'Word Condenser' }",
            "window.__HC_KANGAROO__ = { startup_time: 1700000000123 }",
            "zoom()",
        ]
    );
}

#[test]
fn unknown_startup_time_is_undefined() {
    assert_eq!(
        window(None, None).initialization_scripts[1],
        "window.__HC_KANGAROO__ = { startup_time: undefined }"
    );
}

#[test]
fn deep_link_is_the_last_script() {
    let plain = window(None, None).initialization_scripts;
    let linked = window(None, Some("wordcondenser://x")).initialization_scripts;
    assert_eq!(linked[..3], plain[..]);
    assert_eq!(
        linked[3],
        "window.localStorage.setItem('initialDeepLink', 'wordcondenser://x')"
    );
    assert_eq!(linked.len(), 4);
}

#[test]
fn scripts_tell_ports_and_times_apart() {
    let swapped = build_main_window(5u8, 9000, 8000, None, None, "zoom()");
    assert_ne!(swapped.initialization_scripts[0], window(None, None).initialization_scripts[0]);
    let joined = build_main_window(5u8, 800, 9000, None, None, "zoom()");
    assert_ne!(joined.initialization_scripts[0], window(None, None).initialization_scripts[0]);
    assert_ne!(
        window(Some(1), None).initialization_scripts[1],
        window(Some(10), None).initialization_scripts[1]
    );
}

#[test]
fn first_argument_is_the_deep_link() {
    let args = vec!["app".to_string(), "wordcondenser://x".to_string(), "more".to_string()];
    assert_eq!(initial_deep_link(&args, Os::Linux), Some("wordcondenser://x".to_string()));
    assert_eq!(initial_deep_link(&args, Os::Other), Some("wordcondenser://x".to_string()));
    assert_eq!(initial_deep_link(&args, Os::MacOs), None);
    assert_eq!(initial_deep_link(&vec!["app".to_string()], Os::Linux), None);
    assert_eq!(initial_deep_link(&vec![], Os::Linux), None);
}

#[test]
fn only_the_arguments_up_to_the_deep_link_are_read() {
    assert_eq!(deep_link_arguments(Os::Linux), 2);
    assert_eq!(deep_link_arguments(Os::Other), 2);
    assert_eq!(deep_link_arguments(Os::MacOs), 0);
    let args = vec!["app".to_string(), "wordcondenser://x".to_string(), "more".to_string()];
    let read: Vec<String> = args.iter().take(deep_link_arguments(Os::Linux)).cloned().collect();
    assert_eq!(initial_deep_link(&read, Os::Linux), initial_deep_link(&args, Os::Linux));
}

fn show(command: &WindowCommand<String>) -> String {
    match command {
        WindowCommand::Emit { event, payload } => format!("emit {} {}", event, payload),
        WindowCommand::RequestAttention => "attention".to_string(),
        WindowCommand::ReleaseAttention => "no attention".to_string(),
        WindowCommand::Show => "show".to_string(),
        WindowCommand::Unminimize => "unminimize".to_string(),
        WindowCommand::TakeFocus => "focus".to_string(),
        WindowCommand::Eval { script } => format!("eval {}", script),
        WindowCommand::Sleep { seconds } => format!("sleep {}", seconds),
    }
}

fn received(os: Os) -> Vec<String> {
    deep_link_received("wordcondenser://x", os).iter().map(show).collect()
}

#[test]
fn deep_link_brings_the_window_up() {
    assert_eq!(
        received(Os::Other),
        vec!["emit deep-link-received wordcondenser://x", "attention", "show", "unminimize", "focus"]
    );
}

#[test]
fn deep_link_is_kept_on_macos() {
    assert_eq!(
        received(Os::MacOs)[5..],
        ["eval window.localStorage.setItem('initialDeepLink', wordcondenser://x)"]
    );
}

#[test]
fn attention_ends_on_linux() {
    assert_eq!(received(Os::Linux)[5..], ["sleep 10", "no attention"]);
}
