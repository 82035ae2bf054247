//! What the app does when its window or the app itself is to be closed.

use vstd::prelude::*;

use crate::notifications::MAIN_WINDOW;
use crate::text::same_text;

verus! {

/// An event of the running app. `T` is the type of texts.
pub enum RunEvent<T> {
    /// The app ends.
    Exit,
    /// The app is to end, as no window is left.
    ExitRequested,
    /// The window with this label is to be closed.
    CloseRequested { label: T },
    /// Any other event.
    Other,
}

/// What the app does on an event.
#[derive(Clone, Copy, Debug, PartialEq, Eq, Structural)]
pub enum RunAction {
    /// End the processes that the app started.
    KillChildren,
    /// Keep the app running.
    PreventExit,
    /// Hide the window in place of closing it.
    HideWindow,
    /// Hide the whole app in place of closing the window.
    HideApp,
    /// Nothing.
    Ignore,
}

impl View for RunEvent<String> {
    type V = RunEvent<Seq<char>>;

    open spec fn view(&self) -> Self::V {
        match *self {
            RunEvent::Exit => RunEvent::Exit,
            RunEvent::ExitRequested => RunEvent::ExitRequested,
            RunEvent::CloseRequested { label } => RunEvent::CloseRequested { label: label@ },
            RunEvent::Other => RunEvent::Other,
        }
    }
}

/// The main window is not closed but hidden, so that notifications still come in; on macOS the
/// app is hidden with it. For the same reason the app does not end by itself. When it does end,
/// it takes its processes along.
pub open spec fn run_action(
    event: RunEvent<Seq<char>>,
    window_found: bool,
    macos: bool,
) -> RunAction {
    match event {
        RunEvent::Exit => RunAction::KillChildren,
        RunEvent::ExitRequested => RunAction::PreventExit,
        RunEvent::CloseRequested { label } => {
            if label != MAIN_WINDOW@ || !window_found {
                RunAction::Ignore
            } else if macos {
                RunAction::HideApp
            } else {
                RunAction::HideWindow
            }
        },
        RunEvent::Other => RunAction::Ignore,
    }
}

/// Says what the app does on an event; `window_found` tells whether there is a window with the
/// label of the event.
pub fn on_run_event(event: RunEvent<String>, window_found: bool, macos: bool) -> (action: RunAction)
    ensures
        action == run_action(event@, window_found, macos),
{
    match event {
        RunEvent::Exit => RunAction::KillChildren,
        RunEvent::ExitRequested => RunAction::PreventExit,
        RunEvent::CloseRequested { label } => {
            if !same_text(label.as_str(), MAIN_WINDOW) || !window_found {
                RunAction::Ignore
            } else if macos {
                RunAction::HideApp
            } else {
                RunAction::HideWindow
            }
        },
        RunEvent::Other => RunAction::Ignore,
    }
}

/// The app goes on in the background: its main window is hidden in place of being closed, and a
/// request to end is turned down.
pub proof fn app_goes_on_in_the_background(window_found: bool, macos: bool)
    ensures
        run_action((RunEvent::CloseRequested { label: MAIN_WINDOW@ }), true, macos)
            == RunAction::HideWindow || run_action(
            (RunEvent::CloseRequested { label: MAIN_WINDOW@ }),
            true,
            macos,
        ) == RunAction::HideApp,
        run_action(RunEvent::ExitRequested, window_found, macos) == RunAction::PreventExit,
{
}

/// The processes of the app end when the app ends, and at no other time.
pub proof fn processes_end_with_the_app(
    event: RunEvent<Seq<char>>,
    window_found: bool,
    macos: bool,
)
    ensures
        run_action(event, window_found, macos) == RunAction::KillChildren <==> event is Exit,
{
}

/// A window other than the main one is closed as it asks to be, on every system.
pub proof fn other_windows_close(label: Seq<char>, window_found: bool, macos: bool)
    requires
        label != "main"@,
    ensures
        run_action((RunEvent::CloseRequested { label }), window_found, macos) == RunAction::Ignore,
{
}

/// Something is hidden exactly if the main window is to be closed and is there: the app on macOS,
/// the window everywhere else.
pub proof fn only_the_main_window_hides(
    event: RunEvent<Seq<char>>,
    window_found: bool,
    macos: bool,
)
    ensures
        run_action(event, window_found, macos) == RunAction::HideApp <==> macos && window_found
            && event == (RunEvent::CloseRequested { label: "main"@ }),
        run_action(event, window_found, macos) == RunAction::HideWindow <==> !macos && window_found
            && event == (RunEvent::CloseRequested { label: "main"@ }),
{
}

/// The app is kept from ending exactly if it is asked to end, and ends its processes exactly when
/// it does end.
pub proof fn app_ends_only_for_good(event: RunEvent<Seq<char>>, window_found: bool, macos: bool)
    ensures
        run_action(event, window_found, macos) == RunAction::PreventExit <==> event
            is ExitRequested,
        run_action(event, window_found, macos) == RunAction::KillChildren <==> event is Exit,
        run_action(event, window_found, macos) == RunAction::Ignore <==> event is Other || (event
            is CloseRequested && (event->label != "main"@ || !window_found)),
{
}

/// What the app does on a request to close a window: a window that is not the main one, or not
/// there, is left to close; the main one is hidden, with the app on macOS and alone elsewhere.
pub proof fn closing_is_answered(
    event: RunEvent<String>,
    window_found: bool,
    macos: bool,
    action: RunAction,
)
    requires
        call_ensures(on_run_event, (event, window_found, macos), action),
    ensures
        event matches RunEvent::CloseRequested { label } ==> action == (if label@ != "main"@
            || !window_found {
            RunAction::Ignore
        } else if macos {
            RunAction::HideApp
        } else {
            RunAction::HideWindow
        }),
        event is Exit ==> action == RunAction::KillChildren,
        event is ExitRequested ==> action == RunAction::PreventExit,
        event is Other ==> action == RunAction::Ignore,
{
}

} // verus!
