//! Notifications to the user.
//!
//! A notification is a row of steps. The `NotifyStep` that stands for it says what is to be done
//! next; whoever does it reports the outcome as a `NotifyEvent`, and `advance` says what comes
//! then. `T` is the type of texts, `P` that of paths, `E` that of the errors of the windowing
//! system.

use vstd::prelude::*;
use vstd::string::*;

use crate::text::same_text;
use crate::tray::{
    change_systray_icon_state, tray_after_notification, unknown_urgency_is_reported,
    urgency_decides_the_icon, IconChange, IconEvent, IconState, SysTrayIconState, TrayIcon,
};

verus! {

/// The label of the one window that may notify the user.
pub const MAIN_WINDOW: &'static str = "main";

/// The answer to any other window.
pub const UNAUTHORIZED: &'static str = "Unauthorized: Attempted to call tauri command 'notify_os' which is not allowed in this window.";

/// A message for the user, and how urgent it is: `low`, `medium` or `high`.
#[derive(Debug)]
pub struct NotificationPayload<T = String> {
    /// The title of the notification.
    pub title: T,
    /// Its text.
    pub body: T,
    /// How urgent it is.
    pub urgency: T,
}

impl Clone for NotificationPayload<String> {
    fn clone(&self) -> (copy: Self)
        ensures
            copy@ == self@,
    {
        NotificationPayload {
            title: self.title.clone(),
            body: self.body.clone(),
            urgency: self.urgency.clone(),
        }
    }
}

/// What is asked for: a notification of an app, by the operating system if `os`, in the system tray
/// if `systray`.
pub struct NotifyRequest<T> {
    /// The identifier of the app's bundle, under which the operating system knows the app.
    pub identifier: T,
    /// The message.
    pub notification: NotificationPayload<T>,
    /// The operating system may show it.
    pub os: bool,
    /// The system tray may show it.
    pub systray: bool,
}

/// A step of a notification.
pub enum NotifyStep<T, P, E> {
    /// Ask whether the main window has the focus.
    CheckFocus { request: NotifyRequest<T> },
    /// Take the change of the tray's icon on.
    ChangeIcon { change: IconChange<T, P, E>, request: NotifyRequest<T> },
    /// Tell how an error of the tray shows itself in a message.
    DescribeError { error: E },
    /// Have the operating system show a notification of the app with this identifier.
    ShowNotification { identifier: T, title: T, body: T },
    /// The notification is done.
    Finished,
    /// The notification is refused, or failed, with this message.
    Refused { message: T },
}

/// The outcome of a step.
pub enum NotifyEvent<T, P, E> {
    /// Whether the main window has the focus.
    Focus(bool),
    /// Why the focus is not known.
    FocusUnknown(T),
    /// The outcome of a step of the change of the icon.
    Icon(IconEvent<P, E>),
    /// How the error shows itself.
    Described(T),
    /// The operating system shows the notification.
    Shown,
    /// Why the operating system does not show the notification.
    ShowFailed(T),
}

impl View for NotificationPayload<String> {
    type V = NotificationPayload<Seq<char>>;

    open spec fn view(&self) -> Self::V {
        NotificationPayload { title: self.title@, body: self.body@, urgency: self.urgency@ }
    }
}

impl View for NotifyRequest<String> {
    type V = NotifyRequest<Seq<char>>;

    open spec fn view(&self) -> Self::V {
        NotifyRequest {
            identifier: self.identifier@,
            notification: self.notification@,
            os: self.os,
            systray: self.systray,
        }
    }
}

impl<P, E> View for NotifyStep<String, P, E> {
    type V = NotifyStep<Seq<char>, P, E>;

    open spec fn view(&self) -> Self::V {
        match *self {
            NotifyStep::CheckFocus { request } => NotifyStep::CheckFocus { request: request@ },
            NotifyStep::ChangeIcon { change, request } => {
                NotifyStep::ChangeIcon { change: change@, request: request@ }
            },
            NotifyStep::DescribeError { error } => NotifyStep::DescribeError { error },
            NotifyStep::ShowNotification { identifier, title, body } => {
                NotifyStep::ShowNotification { identifier: identifier@, title: title@, body: body@ }
            },
            NotifyStep::Finished => NotifyStep::Finished,
            NotifyStep::Refused { message } => NotifyStep::Refused { message: message@ },
        }
    }
}

impl<P, E> View for NotifyEvent<String, P, E> {
    type V = NotifyEvent<Seq<char>, P, E>;

    open spec fn view(&self) -> Self::V {
        match *self {
            NotifyEvent::Focus(focused) => NotifyEvent::Focus(focused),
            NotifyEvent::FocusUnknown(error) => NotifyEvent::FocusUnknown(error@),
            NotifyEvent::Icon(event) => NotifyEvent::Icon(event),
            NotifyEvent::Described(error) => NotifyEvent::Described(error@),
            NotifyEvent::Shown => NotifyEvent::Shown,
            NotifyEvent::ShowFailed(error) => NotifyEvent::ShowFailed(error@),
        }
    }
}

impl NotifyRequest<Seq<char>> {
    /// The operating system is to show a notification: it was asked to, and the notification
    /// cannot wait.
    pub open spec fn goes_to_os(self) -> bool {
        self.os && self.notification.urgency == "high"@
    }
}

impl<P, E> NotifyStep<Seq<char>, P, E> {
    /// A notification that a window asks for.
    pub open spec fn asked_by(window_label: Seq<char>, request: NotifyRequest<Seq<char>>) -> Self {
        if window_label == MAIN_WINDOW@ {
            NotifyStep::CheckFocus { request }
        } else {
            NotifyStep::Refused { message: UNAUTHORIZED@ }
        }
    }

    /// The operating system is to show what is asked for.
    pub open spec fn shown_by_os(request: NotifyRequest<Seq<char>>) -> Self {
        NotifyStep::ShowNotification {
            identifier: request.identifier,
            title: request.notification.title,
            body: request.notification.body,
        }
    }

    /// A notification that is through with the tray.
    pub open spec fn past_tray(request: NotifyRequest<Seq<char>>) -> Self {
        if request.goes_to_os() {
            Self::shown_by_os(request)
        } else {
            NotifyStep::Finished
        }
    }

    /// A notification whose change of the tray's icon has come to `change`.
    pub open spec fn at_tray(
        change: IconChange<Seq<char>, P, E>,
        request: NotifyRequest<Seq<char>>,
    ) -> Self {
        match change {
            IconChange::Finished => Self::past_tray(request),
            IconChange::Failed { error } => NotifyStep::DescribeError { error },
            _ => NotifyStep::ChangeIcon { change, request },
        }
    }

    /// The notification after an outcome, on a tray in the state `tray`. An outcome that its step
    /// cannot have changes nothing.
    pub open spec fn next(
        self,
        tray: SysTrayIconState,
        event: NotifyEvent<Seq<char>, P, E>,
    ) -> Self {
        match (self, event) {
            (NotifyStep::CheckFocus { request }, NotifyEvent::Focus(focused)) => {
                if focused {
                    NotifyStep::Finished
                } else if request.systray {
                    Self::at_tray(
                        IconChange::for_urgency(tray.icon_state, request.notification.urgency),
                        request,
                    )
                } else {
                    Self::past_tray(request)
                }
            },
            (NotifyStep::CheckFocus { .. }, NotifyEvent::FocusUnknown(error)) => {
                NotifyStep::Refused {
                    message: "Failed to get focus state of main window: "@ + error,
                }
            },
            (NotifyStep::ChangeIcon { change, request }, NotifyEvent::Icon(event)) => {
                Self::at_tray(change.next(event), request)
            },
            (NotifyStep::DescribeError { .. }, NotifyEvent::Described(error)) => {
                NotifyStep::Refused { message: "Failed to change systray icon state: "@ + error }
            },
            (NotifyStep::ShowNotification { .. }, NotifyEvent::Shown) => NotifyStep::Finished,
            (NotifyStep::ShowNotification { .. }, NotifyEvent::ShowFailed(error)) => {
                NotifyStep::Refused { message: "Failed to to show OS notification: "@ + error }
            },
            _ => self,
        }
    }

    /// The state of the tray after an outcome.
    pub open spec fn tray_after(
        self,
        tray: SysTrayIconState,
        event: NotifyEvent<Seq<char>, P, E>,
    ) -> SysTrayIconState {
        match (self, event) {
            (NotifyStep::ChangeIcon { change, .. }, NotifyEvent::Icon(event)) => {
                change.tray_after(tray, event)
            },
            _ => tray,
        }
    }
}

/// Begins a notification that the window with the given label asks for, of the app with the given
/// identifier: by the operating system if `os`, in the system tray if `systray`.
pub fn notify_os<P, E>(
    window_label: &str,
    identifier: String,
    notification: NotificationPayload<String>,
    os: bool,
    systray: bool,
) -> (step: NotifyStep<String, P, E>)
    ensures
        step@ == NotifyStep::<Seq<char>, P, E>::asked_by(
            window_label@,
            (NotifyRequest {
                identifier: identifier@,
                notification: notification@,
                os,
                systray,
            }),
        ),
{
    if same_text(window_label, MAIN_WINDOW) {
        NotifyStep::CheckFocus { request: NotifyRequest { identifier, notification, os, systray } }
    } else {
        NotifyStep::Refused { message: UNAUTHORIZED.to_string() }
    }
}

fn leave_tray<P, E>(request: NotifyRequest<String>) -> (step: NotifyStep<String, P, E>)
    ensures
        step@ == NotifyStep::<Seq<char>, P, E>::past_tray(request@),
{
    if request.os && same_text(request.notification.urgency.as_str(), "high") {
        NotifyStep::ShowNotification {
            identifier: request.identifier,
            title: request.notification.title,
            body: request.notification.body,
        }
    } else {
        NotifyStep::Finished
    }
}

fn stand_at_tray<P, E>(
    change: IconChange<String, P, E>,
    request: NotifyRequest<String>,
) -> (step: NotifyStep<String, P, E>)
    ensures
        step@ == NotifyStep::<Seq<char>, P, E>::at_tray(change@, request@),
{
    match change {
        IconChange::Finished => leave_tray(request),
        IconChange::Failed { error } => NotifyStep::DescribeError { error },
        change => NotifyStep::ChangeIcon { change, request },
    }
}

impl<P, E> NotifyStep<String, P, E> {
    /// Takes a notification on by one outcome.
    pub fn advance(
        self,
        tray: &mut SysTrayIconState,
        event: NotifyEvent<String, P, E>,
    ) -> (step: Self)
        ensures
            step@ == self@.next(*old(tray), event@),
            *final(tray) == self@.tray_after(*old(tray), event@),
    {
        match (self, event) {
            (NotifyStep::CheckFocus { request }, NotifyEvent::Focus(focused)) => {
                if focused {
                    NotifyStep::Finished
                } else if request.systray {
                    let change = change_systray_icon_state(
                        &*tray,
                        request.notification.urgency.as_str(),
                    );
                    stand_at_tray(change, request)
                } else {
                    leave_tray(request)
                }
            },
            (NotifyStep::CheckFocus { .. }, NotifyEvent::FocusUnknown(error)) => {
                NotifyStep::Refused {
                    message: "Failed to get focus state of main window: ".to_string().concat(
                        error.as_str(),
                    ),
                }
            },
            (NotifyStep::ChangeIcon { change, request }, NotifyEvent::Icon(event)) => {
                let change = change.advance(tray, event);
                stand_at_tray(change, request)
            },
            (NotifyStep::DescribeError { .. }, NotifyEvent::Described(error)) => {
                NotifyStep::Refused {
                    message: "Failed to change systray icon state: ".to_string().concat(
                        error.as_str(),
                    ),
                }
            },
            (NotifyStep::ShowNotification { .. }, NotifyEvent::Shown) => NotifyStep::Finished,
            (NotifyStep::ShowNotification { .. }, NotifyEvent::ShowFailed(error)) => {
                NotifyStep::Refused {
                    message: "Failed to to show OS notification: ".to_string().concat(
                        error.as_str(),
                    ),
                }
            },
            (step, _) => step,
        }
    }
}

impl<P, E> NotifyStep<Seq<char>, P, E> {
    /// The notification after a row of outcomes, each with the state of the tray that it met.
    /// Others may change the tray in between.
    pub open spec fn run(
        self,
        events: Seq<(SysTrayIconState, NotifyEvent<Seq<char>, P, E>)>,
    ) -> Self
        decreases events.len(),
    {
        if events.len() == 0 {
            self
        } else {
            self.run(events.drop_last()).next(events.last().0, events.last().1)
        }
    }

    /// This step is one that the main window's request for a notification allows.
    pub open spec fn serves(self, asked: NotifyRequest<Seq<char>>) -> bool {
        match self {
            NotifyStep::CheckFocus { request } => request == asked,
            NotifyStep::ChangeIcon { request, .. } => asked.systray && request == asked,
            NotifyStep::DescribeError { .. } => asked.systray,
            NotifyStep::ShowNotification { .. } => {
                asked.goes_to_os() && self == Self::shown_by_os(asked)
            },
            NotifyStep::Finished | NotifyStep::Refused { .. } => true,
        }
    }
}

proof fn steps_serve_the_request<P, E>(
    request: NotifyRequest<Seq<char>>,
    events: Seq<(SysTrayIconState, NotifyEvent<Seq<char>, P, E>)>,
)
    ensures
        NotifyStep::asked_by(MAIN_WINDOW@, request).run(events).serves(request),
    decreases events.len(),
{
    if events.len() > 0 {
        steps_serve_the_request(request, events.drop_last());
    }
}

/// A window other than the main one is refused, and nothing comes of its notification.
pub proof fn other_windows_are_refused<P, E>(
    window_label: Seq<char>,
    request: NotifyRequest<Seq<char>>,
    events: Seq<(SysTrayIconState, NotifyEvent<Seq<char>, P, E>)>,
)
    requires
        window_label != MAIN_WINDOW@,
    ensures
        NotifyStep::asked_by(window_label, request).run(events) == (NotifyStep::<
            Seq<char>,
            P,
            E,
        >::Refused { message: UNAUTHORIZED@ }),
        forall|tray: SysTrayIconState, event: NotifyEvent<Seq<char>, P, E>|
            #![trigger NotifyStep::asked_by(window_label, request).tray_after(tray, event)]
            NotifyStep::asked_by(window_label, request).tray_after(tray, event) == tray,
    decreases events.len(),
{
    if events.len() > 0 {
        other_windows_are_refused(window_label, request, events.drop_last());
    }
}

/// A user who looks at the app is not notified, and the tray is left alone.
pub proof fn focused_window_needs_no_notification<P, E>(
    request: NotifyRequest<Seq<char>>,
    tray: SysTrayIconState,
)
    ensures
        NotifyStep::<Seq<char>, P, E>::asked_by(MAIN_WINDOW@, request).next(
            tray,
            NotifyEvent::Focus(true),
        ) is Finished,
        NotifyStep::<Seq<char>, P, E>::asked_by(MAIN_WINDOW@, request).tray_after(
            tray,
            NotifyEvent::Focus(true),
        ) == tray,
{
}

/// The operating system shows a notification only if it was asked to and the notification cannot
/// wait, and then under the app's identifier and with the title and the text that were given.
pub proof fn os_shows_only_what_cannot_wait<P, E>(
    request: NotifyRequest<Seq<char>>,
    events: Seq<(SysTrayIconState, NotifyEvent<Seq<char>, P, E>)>,
)
    ensures
        NotifyStep::asked_by(MAIN_WINDOW@, request).run(
            events,
        ) matches NotifyStep::ShowNotification { identifier, title, body } ==> request.os
            && request.notification.urgency == "high"@ && identifier == request.identifier && title
            == request.notification.title && body == request.notification.body,
{
    steps_serve_the_request(request, events);
}

/// The tray changes only if it was asked for.
pub proof fn tray_changes_only_on_request<P, E>(
    request: NotifyRequest<Seq<char>>,
    events: Seq<(SysTrayIconState, NotifyEvent<Seq<char>, P, E>)>,
    tray: SysTrayIconState,
    event: NotifyEvent<Seq<char>, P, E>,
)
    requires
        !request.systray,
    ensures
        NotifyStep::asked_by(MAIN_WINDOW@, request).run(events).tray_after(tray, event) == tray,
{
    steps_serve_the_request(request, events);
}

/// A notification that cannot wait gets to the operating system when the main window does not
/// have the focus: straight away without the tray, and after the tray has its icon otherwise.
pub proof fn urgent_notification_gets_to_os<P, E>(
    request: NotifyRequest<Seq<char>>,
    tray: SysTrayIconState,
    path: P,
)
    requires
        request.os,
        request.notification.urgency == "high"@,
    ensures
        ({
            let asked = NotifyStep::<Seq<char>, P, E>::asked_by(MAIN_WINDOW@, request);
            let blurred = NotifyEvent::<Seq<char>, P, E>::Focus(false);
            let found = NotifyEvent::<Seq<char>, P, E>::Icon(IconEvent::Resolved(Some(path)));
            let shown = NotifyEvent::<Seq<char>, P, E>::Icon(IconEvent::Shown);
            let to_os = NotifyStep::<Seq<char>, P, E>::shown_by_os(request);
            if request.systray {
                asked.next(tray, blurred).next(tray, found).next(tray, shown) == to_os
            } else {
                asked.next(tray, blurred) == to_os
            }
        }),
{
}

/// A notification begins exactly with a request of the main window, and keeps that request; any
/// other window gets the same answer, whatever it asks for.
pub proof fn main_window_is_served<P, E>(window_label: Seq<char>, request: NotifyRequest<Seq<char>>)
    ensures
        NotifyStep::<Seq<char>, P, E>::asked_by(window_label, request) == (NotifyStep::<
            Seq<char>,
            P,
            E,
        >::CheckFocus { request }) <==> window_label == "main"@,
        NotifyStep::<Seq<char>, P, E>::asked_by(window_label, request) == (NotifyStep::<
            Seq<char>,
            P,
            E,
        >::Refused {
            message:
                "Unauthorized: Attempted to call tauri command 'notify_os' which is not allowed in this window."@,
        }) <==> window_label != "main"@,
{
}

/// Whether or not the operating system is to show it, a notification for the tray of a user who
/// looks elsewhere begins with the icon of its urgency, where that icon is wanted; an urgency that
/// there is not is reported.
pub proof fn unfocused_user_gets_the_icon<P, E>(
    request: NotifyRequest<Seq<char>>,
    tray: SysTrayIconState,
)
    requires
        request.systray,
    ensures
        ({
            let step = NotifyStep::<Seq<char>, P, E>::asked_by("main"@, request).next(
                tray,
                NotifyEvent::Focus(false),
            );
            let urgency = request.notification.urgency;
            let raises = tray.icon_state == IconState::Clean || tray.icon_state == IconState::Low;
            &&& urgency == "high"@ ==> step == (NotifyStep::<Seq<char>, P, E>::ChangeIcon {
                change: IconChange::Resolve { icon: TrayIcon::HighPriority },
                request,
            })
            &&& urgency == "medium"@ && raises ==> step == (NotifyStep::<
                Seq<char>,
                P,
                E,
            >::ChangeIcon {
                change: IconChange::Resolve { icon: TrayIcon::MediumPriority },
                request,
            })
            &&& urgency == "low"@ || (urgency == "medium"@ && !raises) ==> step is Finished
            &&& urgency != "low"@ && urgency != "medium"@ && urgency != "high"@ ==> step == (
            NotifyStep::<Seq<char>, P, E>::ChangeIcon {
                change: IconChange::Report {
                    message: "Got invalid notification urgency level: "@ + urgency,
                },
                request,
            })
        }),
{
    urgency_decides_the_icon::<P, E>(
        tray.icon_state,
        request.notification.urgency,
        TrayIcon::HighPriority,
    );
    urgency_decides_the_icon::<P, E>(
        tray.icon_state,
        request.notification.urgency,
        TrayIcon::MediumPriority,
    );
    unknown_urgency_is_reported::<P, E>(tray.icon_state, request.notification.urgency);
}

/// A notification for the tray leaves the tray in the state that its urgency asks for, and goes to
/// the operating system afterwards exactly if that was asked for and it cannot wait; both whether
/// the file of the icon is there or not.
pub proof fn tray_gets_the_state_of_the_urgency<P, E>(
    request: NotifyRequest<Seq<char>>,
    tray: SysTrayIconState,
    path: P,
)
    requires
        request.systray,
        request.notification.urgency == "high"@ || (request.notification.urgency == "medium"@ && (
        tray.icon_state == IconState::Clean || tray.icon_state == IconState::Low)),
    ensures
        ({
            let high = request.notification.urgency == "high"@;
            let looking = NotifyStep::<Seq<char>, P, E>::asked_by("main"@, request).next(
                tray,
                NotifyEvent::Focus(false),
            );
            let found = NotifyEvent::<Seq<char>, P, E>::Icon(IconEvent::Resolved(Some(path)));
            let missing = NotifyEvent::<Seq<char>, P, E>::Icon(IconEvent::Resolved(None));
            let shown = NotifyEvent::<Seq<char>, P, E>::Icon(IconEvent::Shown);
            let showing = looking.next(tray, found);
            let state = if high { IconState::High } else { IconState::Medium };
            let end = if request.os && high {
                NotifyStep::<Seq<char>, P, E>::ShowNotification {
                    identifier: request.identifier,
                    title: request.notification.title,
                    body: request.notification.body,
                }
            } else {
                NotifyStep::<Seq<char>, P, E>::Finished
            };
            &&& looking.tray_after(tray, found) == tray
            &&& showing.tray_after(tray, shown).icon_state == state
            &&& showing.tray_after(tray, shown) == tray_after_notification(
                tray,
                request.notification.urgency,
            )
            &&& showing.next(tray, shown) == end
            &&& looking.tray_after(tray, missing).icon_state == state
            &&& looking.next(tray, missing) == end
        }),
{
    unfocused_user_gets_the_icon::<P, E>(request, tray);
    urgency_decides_the_icon::<P, E>(
        tray.icon_state,
        request.notification.urgency,
        TrayIcon::HighPriority,
    );
    urgency_decides_the_icon::<P, E>(
        tray.icon_state,
        request.notification.urgency,
        TrayIcon::MediumPriority,
    );
}

/// Without the tray, a user who looks elsewhere is notified by the operating system exactly if
/// that was asked for and the notification cannot wait; otherwise nothing comes of it.
pub proof fn unfocused_user_without_tray<P, E>(
    request: NotifyRequest<Seq<char>>,
    tray: SysTrayIconState,
)
    requires
        !request.systray,
    ensures
        ({
            let step = NotifyStep::<Seq<char>, P, E>::asked_by("main"@, request).next(
                tray,
                NotifyEvent::Focus(false),
            );
            &&& request.os && request.notification.urgency == "high"@ ==> step == (NotifyStep::<
                Seq<char>,
                P,
                E,
            >::ShowNotification {
                identifier: request.identifier,
                title: request.notification.title,
                body: request.notification.body,
            })
            &&& !(request.os && request.notification.urgency == "high"@) ==> step is Finished
        }),
{
}

/// Each failure of a notification has its message: of the focus, of the tray and of the operating
/// system, with what was said of it. Nothing else makes a notification fail.
pub proof fn failures_have_their_messages<P, E>(
    step: NotifyStep<Seq<char>, P, E>,
    tray: SysTrayIconState,
    event: NotifyEvent<Seq<char>, P, E>,
    message: Seq<char>,
)
    ensures
        ({
            let after = step.next(tray, event);
            after != step && after == (NotifyStep::<Seq<char>, P, E>::Refused { message }) <==> {
                ||| step is CheckFocus && (event matches NotifyEvent::FocusUnknown(error)
                    && message == "Failed to get focus state of main window: "@ + error)
                ||| step is DescribeError && (event matches NotifyEvent::Described(error)
                    && message == "Failed to change systray icon state: "@ + error)
                ||| step is ShowNotification && (event matches NotifyEvent::ShowFailed(error)
                    && message == "Failed to to show OS notification: "@ + error)
            }
        }),
{
}

/// An error of the tray is the one that is described: it comes of an icon that the tray does not
/// take.
pub proof fn tray_error_is_described<P, E>(
    step: NotifyStep<Seq<char>, P, E>,
    tray: SysTrayIconState,
    event: NotifyEvent<Seq<char>, P, E>,
    error: E,
)
    requires
        !(step matches NotifyStep::ChangeIcon { change, .. } && change is Failed),
    ensures
        ({
            let after = step.next(tray, event);
            after != step && after == (NotifyStep::<Seq<char>, P, E>::DescribeError { error })
                <==> (step matches NotifyStep::ChangeIcon { change, .. } && change is Show)
                && event == NotifyEvent::<Seq<char>, P, E>::Icon(IconEvent::ShowFailed(error))
        }),
{
}

/// A change of the icon on behalf of a notification goes as a change of the icon goes: the request
/// stays with it, and it is through with the tray once the tray has the icon, the file is missing
/// or the report is written.
pub proof fn icon_changes_within_the_notification<P, E>(
    change: IconChange<Seq<char>, P, E>,
    request: NotifyRequest<Seq<char>>,
    tray: SysTrayIconState,
    event: IconEvent<P, E>,
)
    ensures
        ({
            let step = NotifyStep::<Seq<char>, P, E>::ChangeIcon { change, request };
            let after = step.next(tray, NotifyEvent::Icon(event));
            &&& change matches IconChange::Resolve { icon } ==> event matches IconEvent::Resolved(
                Some(path),
            ) ==> after == (NotifyStep::<Seq<char>, P, E>::ChangeIcon {
                change: IconChange::Show { icon, path },
                request,
            })
            &&& {
                ||| change is Resolve && event == IconEvent::<P, E>::Resolved(None)
                ||| change is Show && event is Shown
                ||| change is Report && event is Logged
            } ==> if request.os && request.notification.urgency == "high"@ {
                after == (NotifyStep::<Seq<char>, P, E>::ShowNotification {
                    identifier: request.identifier,
                    title: request.notification.title,
                    body: request.notification.body,
                })
            } else {
                after is Finished
            }
            &&& {
                ||| change is Resolve && !(event is Resolved)
                ||| change is Show && !(event is Shown) && !(event is ShowFailed)
                ||| change is Report && !(event is Logged)
            } ==> after == step
            &&& step.tray_after(tray, NotifyEvent::Icon(event)) == change.tray_after(tray, event)
        }),
{
}

/// A notification is done exactly when the user looks at the app, when the operating system shows
/// it, or when nothing is left to be done after the tray.
pub proof fn notification_is_done_for_a_reason<P, E>(
    step: NotifyStep<Seq<char>, P, E>,
    tray: SysTrayIconState,
    event: NotifyEvent<Seq<char>, P, E>,
)
    ensures
        ({
            let after = step.next(tray, event);
            &&& step is CheckFocus && event == NotifyEvent::<Seq<char>, P, E>::Focus(true)
                ==> after is Finished
            &&& step is ShowNotification && event is Shown ==> after is Finished
            &&& after is Finished ==> step is Finished || step is ChangeIcon || (step
                is ShowNotification && event is Shown) || (step is CheckFocus && event is Focus)
            &&& after is CheckFocus ==> after == step
        }),
{
}

/// An outcome that is none of the step's changes nothing, neither the step nor the tray.
pub proof fn foreign_outcomes_change_nothing<P, E>(
    step: NotifyStep<Seq<char>, P, E>,
    tray: SysTrayIconState,
    event: NotifyEvent<Seq<char>, P, E>,
)
    ensures
        ({
            let after = step.next(tray, event);
            &&& step is CheckFocus && !(event is Focus) && !(event is FocusUnknown) ==> after
                == step
            &&& step is ChangeIcon && !(event is Icon) ==> after == step
            &&& step is DescribeError && !(event is Described) ==> after == step
            &&& step is ShowNotification && !(event is Shown) && !(event is ShowFailed) ==> after
                == step
            &&& step is Finished || step is Refused ==> after == step
            &&& !(step is ChangeIcon && event is Icon) ==> step.tray_after(tray, event) == tray
        }),
{
}

/// A request of the main window begins with the question for the focus, and keeps all that was
/// asked for; a request of any other window is refused.
pub proof fn request_is_kept<P, E>(
    window_label: &str,
    identifier: String,
    notification: NotificationPayload<String>,
    os: bool,
    systray: bool,
    step: NotifyStep<String, P, E>,
)
    requires
        call_ensures(
            notify_os::<P, E>,
            (window_label, identifier, notification, os, systray),
            step,
        ),
    ensures
        window_label@ == "main"@ ==> (step matches NotifyStep::CheckFocus { request }
            && request.identifier@ == identifier@ && request.notification.title@
            == notification.title@ && request.notification.body@ == notification.body@
            && request.notification.urgency@ == notification.urgency@ && request.os == os
            && request.systray == systray),
        window_label@ != "main"@ ==> (step matches NotifyStep::Refused { message } && message@
            == "Unauthorized: Attempted to call tauri command 'notify_os' which is not allowed in this window."@),
{
}

} // verus!
