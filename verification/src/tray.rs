//! The icon in the system tray.
//!
//! A change of the icon is a row of steps. The `IconChange` that stands for it says what is to be
//! done next; whoever does it reports the outcome as an `IconEvent`, and `advance` says what comes
//! then. `T` is the type of texts, `P` that of paths, `E` that of the errors of the windowing
//! system.

use vstd::prelude::*;
use vstd::string::*;

use crate::text::same_text;

verus! {

/// What the icon in the system tray shows.
#[derive(Debug, Clone, Copy, PartialEq, Eq, Structural)]
pub enum IconState {
    /// Nothing new.
    Clean,
    /// News that can wait.
    Low,
    /// News.
    Medium,
    /// News that cannot wait.
    High,
}

/// The state of the icon in the system tray.
#[derive(Debug, Clone, Copy, PartialEq, Eq, Structural)]
pub struct SysTrayIconState {
    /// What the icon shows.
    pub icon_state: IconState,
}

impl SysTrayIconState {
    /// What the icon shows.
    pub fn get_icon_state(&self) -> (icon_state: IconState)
        ensures
            icon_state == self.icon_state,
    {
        self.icon_state
    }

    /// The state in which the app starts: nothing new.
    pub fn start() -> (state: Self)
        ensures
            state.icon_state == IconState::Clean,
    {
        SysTrayIconState { icon_state: IconState::Clean }
    }
}

/// The icons that the tray can be given.
#[derive(Debug, Clone, Copy, PartialEq, Eq, Structural)]
pub enum TrayIcon {
    /// The icon of the app.
    Plain,
    /// The icon with a mark for news.
    MediumPriority,
    /// The icon with a mark for news that cannot wait.
    HighPriority,
}

impl TrayIcon {
    /// What the tray shows with this icon.
    pub open spec fn shows(self) -> IconState {
        match self {
            TrayIcon::Plain => IconState::Clean,
            TrayIcon::MediumPriority => IconState::Medium,
            TrayIcon::HighPriority => IconState::High,
        }
    }

    /// The file of this icon among the resources of the app.
    pub open spec fn file(self) -> Seq<char> {
        match self {
            TrayIcon::Plain => "icons/32x32.png"@,
            TrayIcon::MediumPriority => "icons/icon_priority_medium_32x32.png"@,
            TrayIcon::HighPriority => "icons/icon_priority_high_32x32.png"@,
        }
    }

    /// What the tray shows with this icon.
    pub fn icon_state(self) -> (icon_state: IconState)
        ensures
            icon_state == self.shows(),
    {
        match self {
            TrayIcon::Plain => IconState::Clean,
            TrayIcon::MediumPriority => IconState::Medium,
            TrayIcon::HighPriority => IconState::High,
        }
    }

    /// The file of this icon among the resources of the app.
    pub fn resource(self) -> (file: &'static str)
        ensures
            file@ == self.file(),
    {
        match self {
            TrayIcon::Plain => "icons/32x32.png",
            TrayIcon::MediumPriority => "icons/icon_priority_medium_32x32.png",
            TrayIcon::HighPriority => "icons/icon_priority_high_32x32.png",
        }
    }
}

/// A change of the icon under way.
pub enum IconChange<T, P, E> {
    /// Look for the file of an icon.
    Resolve { icon: TrayIcon },
    /// Give the tray the icon in a file.
    Show { icon: TrayIcon, path: P },
    /// Log an error.
    Report { message: T },
    /// The change is done.
    Finished,
    /// The tray did not take the icon.
    Failed { error: E },
}

/// The outcome of a step of a change of the icon.
pub enum IconEvent<P, E> {
    /// The path of the file, if there is such a file.
    Resolved(Option<P>),
    /// The tray has the icon.
    Shown,
    /// The tray did not take the icon.
    ShowFailed(E),
    /// The error was logged.
    Logged,
}

impl<P, E> View for IconChange<String, P, E> {
    type V = IconChange<Seq<char>, P, E>;

    open spec fn view(&self) -> Self::V {
        match *self {
            IconChange::Resolve { icon } => IconChange::Resolve { icon },
            IconChange::Show { icon, path } => IconChange::Show { icon, path },
            IconChange::Report { message } => IconChange::Report { message: message@ },
            IconChange::Finished => IconChange::Finished,
            IconChange::Failed { error } => IconChange::Failed { error },
        }
    }
}

/// The degrees of urgency that there are.
pub open spec fn is_urgency(urgency: Seq<char>) -> bool {
    urgency == "low"@ || urgency == "medium"@ || urgency == "high"@
}

proof fn urgencies_differ()
    ensures
        "low"@ != "medium"@,
        "low"@ != "high"@,
        "medium"@ != "high"@,
{
    reveal_strlit("low");
    reveal_strlit("medium");
    reveal_strlit("high");
    assert("low"@.len() == 3);
    assert("medium"@.len() == 6);
    assert("high"@.len() == 4);
}

/// The icon that a notification asks for, if it asks for one: a high urgency always does, a
/// medium one unless the tray shows as much.
pub open spec fn wanted_icon(shown: IconState, urgency: Seq<char>) -> Option<TrayIcon> {
    if urgency == "high"@ {
        Some(TrayIcon::HighPriority)
    } else if urgency == "medium"@ && (shown == IconState::Clean || shown == IconState::Low) {
        Some(TrayIcon::MediumPriority)
    } else {
        None
    }
}

impl<P, E> IconChange<Seq<char>, P, E> {
    /// The change that a notification begins.
    pub open spec fn for_urgency(shown: IconState, urgency: Seq<char>) -> Self {
        if !is_urgency(urgency) {
            IconChange::Report {
                message: "Got invalid notification urgency level: "@ + urgency,
            }
        } else {
            match wanted_icon(shown, urgency) {
                Some(icon) => IconChange::Resolve { icon },
                None => IconChange::Finished,
            }
        }
    }

    /// The change after an outcome. An outcome that its step cannot have changes nothing.
    pub open spec fn next(self, event: IconEvent<P, E>) -> Self {
        match (self, event) {
            (IconChange::Resolve { icon }, IconEvent::Resolved(path)) => {
                match path {
                    Some(path) => IconChange::Show { icon, path },
                    None => IconChange::Finished,
                }
            },
            (IconChange::Show { .. }, IconEvent::Shown) => IconChange::Finished,
            (IconChange::Show { .. }, IconEvent::ShowFailed(error)) => {
                IconChange::Failed { error }
            },
            (IconChange::Report { .. }, IconEvent::Logged) => IconChange::Finished,
            _ => self,
        }
    }

    /// The state of the tray after an outcome: that of the new icon once the tray has it, or once
    /// it turns out that there is no file to give it.
    pub open spec fn tray_after(
        self,
        tray: SysTrayIconState,
        event: IconEvent<P, E>,
    ) -> SysTrayIconState {
        match (self, event) {
            (IconChange::Resolve { icon }, IconEvent::Resolved(None)) => {
                SysTrayIconState { icon_state: icon.shows() }
            },
            (IconChange::Show { icon, .. }, IconEvent::Shown) => {
                SysTrayIconState { icon_state: icon.shows() }
            },
            _ => tray,
        }
    }

    /// The icon in the tray after an outcome: the new one once the tray has it.
    pub open spec fn icon_after(self, icon: TrayIcon, event: IconEvent<P, E>) -> TrayIcon {
        match (self, event) {
            (IconChange::Show { icon: new, .. }, IconEvent::Shown) => new,
            _ => icon,
        }
    }

    /// The outcome is that there is no file of the icon that this change is to show.
    pub open spec fn misses_file(self, event: IconEvent<P, E>) -> bool {
        self is Resolve && event == IconEvent::<P, E>::Resolved(None)
    }
}

/// Begins the change of the icon that a notification asks for.
pub fn change_systray_icon_state<P, E>(tray: &SysTrayIconState, urgency: &str) -> (change:
    IconChange<String, P, E>)
    ensures
        change@ == IconChange::<Seq<char>, P, E>::for_urgency(tray.icon_state, urgency@),
{
    proof {
        urgencies_differ();
    }
    if same_text(urgency, "low") {
        IconChange::Finished
    } else if same_text(urgency, "medium") {
        match tray.get_icon_state() {
            IconState::Clean | IconState::Low => {
                IconChange::Resolve { icon: TrayIcon::MediumPriority }
            },
            _ => IconChange::Finished,
        }
    } else if same_text(urgency, "high") {
        IconChange::Resolve { icon: TrayIcon::HighPriority }
    } else {
        IconChange::Report {
            message: "Got invalid notification urgency level: ".to_string().concat(urgency),
        }
    }
}

/// Begins to give the tray its plain icon again.
pub fn clear_systray_icon<P, E>() -> (change: IconChange<String, P, E>)
    ensures
        change@ == (IconChange::<Seq<char>, P, E>::Resolve { icon: TrayIcon::Plain }),
{
    IconChange::Resolve { icon: TrayIcon::Plain }
}

impl<P, E> IconChange<String, P, E> {
    /// Takes a change on by one outcome.
    pub fn advance(self, tray: &mut SysTrayIconState, event: IconEvent<P, E>) -> (change: Self)
        ensures
            change@ == self@.next(event),
            *final(tray) == self@.tray_after(*old(tray), event),
    {
        match (self, event) {
            (IconChange::Resolve { icon }, IconEvent::Resolved(path)) => {
                match path {
                    Some(path) => IconChange::Show { icon, path },
                    None => {
                        *tray = SysTrayIconState { icon_state: icon.icon_state() };
                        IconChange::Finished
                    },
                }
            },
            (IconChange::Show { icon, .. }, IconEvent::Shown) => {
                *tray = SysTrayIconState { icon_state: icon.icon_state() };
                IconChange::Finished
            },
            (IconChange::Show { .. }, IconEvent::ShowFailed(error)) => {
                IconChange::Failed { error }
            },
            (IconChange::Report { .. }, IconEvent::Logged) => IconChange::Finished,
            (change, _) => change,
        }
    }
}

/// How much the icon demands attention.
pub open spec fn attention(icon_state: IconState) -> nat {
    match icon_state {
        IconState::Clean => 0,
        IconState::Low => 1,
        IconState::Medium => 2,
        IconState::High => 3,
    }
}

/// The state of the tray once the change that a notification asks for is done, if no other change
/// comes in between.
pub open spec fn tray_after_notification(
    tray: SysTrayIconState,
    urgency: Seq<char>,
) -> SysTrayIconState {
    match wanted_icon(tray.icon_state, urgency) {
        Some(icon) => SysTrayIconState { icon_state: icon.shows() },
        None => tray,
    }
}

/// The state of the tray after a row of notifications, the change of each done before the next
/// begins.
pub open spec fn tray_after_notifications(
    tray: SysTrayIconState,
    urgencies: Seq<Seq<char>>,
) -> SysTrayIconState
    decreases urgencies.len(),
{
    if urgencies.len() == 0 {
        tray
    } else {
        tray_after_notification(
            tray_after_notifications(tray, urgencies.drop_last()),
            urgencies.last(),
        )
    }
}

/// A change of the icon that meets no error ends with the tray in the state that the notification
/// asks for, whether or not the file of the icon is there.
pub proof fn finished_change_sets_the_state<P, E>(
    tray: SysTrayIconState,
    urgency: Seq<char>,
    path: P,
)
    requires
        wanted_icon(tray.icon_state, urgency) is Some,
    ensures
        ({
            let change = IconChange::<Seq<char>, P, E>::for_urgency(tray.icon_state, urgency);
            let found = IconEvent::<P, E>::Resolved(Some(path));
            let missing = IconEvent::<P, E>::Resolved(None);
            let shown = IconEvent::<P, E>::Shown;
            &&& change.next(missing) is Finished
            &&& change.tray_after(tray, missing) == tray_after_notification(tray, urgency)
            &&& change.tray_after(tray, found) == tray
            &&& change.next(found).next(shown) is Finished
            &&& change.next(found).tray_after(tray, shown) == tray_after_notification(tray, urgency)
        }),
{
}

/// A tray that does not take an icon stays in its state.
pub proof fn failed_change_keeps_the_state<P, E>(
    change: IconChange<Seq<char>, P, E>,
    tray: SysTrayIconState,
    error: E,
)
    ensures
        change.tray_after(tray, IconEvent::ShowFailed(error)) == tray,
{
}

/// A notification that asks for no icon leaves the tray alone, whatever is reported: one of low
/// urgency, one of medium urgency on a tray that shows as much, one of no known urgency.
pub proof fn no_wanted_icon_no_change<P, E>(
    tray: SysTrayIconState,
    urgency: Seq<char>,
    event: IconEvent<P, E>,
)
    requires
        wanted_icon(tray.icon_state, urgency) is None,
    ensures
        IconChange::<Seq<char>, P, E>::for_urgency(tray.icon_state, urgency).tray_after(tray, event)
            == tray,
{
    urgencies_differ();
}

/// No notification makes the icon demand less attention.
pub proof fn notifications_never_calm(tray: SysTrayIconState, urgency: Seq<char>)
    ensures
        attention(tray_after_notification(tray, urgency).icon_state) >= attention(tray.icon_state),
{
}

/// The same notification twice leaves the tray as once does.
pub proof fn repeated_notification_adds_nothing(tray: SysTrayIconState, urgency: Seq<char>)
    ensures
        tray_after_notification(tray_after_notification(tray, urgency), urgency)
            == tray_after_notification(tray, urgency),
{
}

/// After a clean start, the icon shows the highest urgency among the notifications, where low
/// ones do not count.
pub proof fn icon_shows_the_highest_urgency(urgencies: Seq<Seq<char>>)
    ensures
        tray_after_notifications(
            SysTrayIconState { icon_state: IconState::Clean },
            urgencies,
        ).icon_state == highest_urgency(urgencies),
    decreases urgencies.len(),
{
    urgencies_differ();
    if urgencies.len() > 0 {
        let earlier = urgencies.drop_last();
        icon_shows_the_highest_urgency(earlier);
        assert(urgencies =~= earlier.push(urgencies.last()));
        assert forall|urgency: Seq<char>|
            #[trigger] urgencies.contains(urgency) <==> earlier.contains(urgency) || urgency
                == urgencies.last() by {
            if earlier.contains(urgency) {
                assert(urgencies[earlier.index_of(urgency)] == urgency);
            }
            if urgency == urgencies.last() {
                assert(urgencies[urgencies.len() - 1] == urgency);
            }
            if urgencies.contains(urgency) {
                let at = urgencies.index_of(urgency);
                if at < earlier.len() {
                    assert(earlier[at] == urgency);
                }
            }
        }
        assert(urgencies.contains("high"@) <==> earlier.contains("high"@) || "high"@
            == urgencies.last());
        assert(urgencies.contains("medium"@) <==> earlier.contains("medium"@) || "medium"@
            == urgencies.last());
    }
}

/// What an icon shows that shows the highest urgency of a row of notifications.
pub open spec fn highest_urgency(urgencies: Seq<Seq<char>>) -> IconState {
    if urgencies.contains("high"@) {
        IconState::High
    } else if urgencies.contains("medium"@) {
        IconState::Medium
    } else {
        IconState::Clean
    }
}

/// Whatever the tray showed, it shows nothing new once its plain icon is back.
pub proof fn clearing_leaves_nothing_new<P, E>(tray: SysTrayIconState, path: P)
    ensures
        ({
            let change = IconChange::<Seq<char>, P, E>::Resolve { icon: TrayIcon::Plain };
            let found = IconEvent::<P, E>::Resolved(Some(path));
            let missing = IconEvent::<P, E>::Resolved(None);
            let shown = IconEvent::<P, E>::Shown;
            &&& change.next(missing) is Finished
            &&& change.tray_after(tray, missing).icon_state == IconState::Clean
            &&& change.next(found).next(shown) is Finished
            &&& change.next(found).tray_after(tray, shown).icon_state == IconState::Clean
        }),
{
}

/// The icon in the tray shows the recorded state, and goes on to do so after every outcome of a
/// change or of a clearing, one that the tray does not take included. They part only where the
/// file of an icon that shows something else is missing.
pub proof fn icon_and_state_stay_in_step<P, E>(
    change: IconChange<Seq<char>, P, E>,
    icon: TrayIcon,
    tray: SysTrayIconState,
    event: IconEvent<P, E>,
)
    requires
        icon.shows() == tray.icon_state,
    ensures
        change.icon_after(icon, event).shows() == change.tray_after(tray, event).icon_state <==> (
        change.misses_file(event) ==> change->Resolve_icon == icon),
{
}

/// The state of the tray and the icon in it after a row of outcomes, each of some change. The
/// outcomes of several changes may come in between each other.
pub open spec fn tray_and_icon<P, E>(
    tray: SysTrayIconState,
    icon: TrayIcon,
    outcomes: Seq<(IconChange<Seq<char>, P, E>, IconEvent<P, E>)>,
) -> (SysTrayIconState, TrayIcon)
    decreases outcomes.len(),
{
    if outcomes.len() == 0 {
        (tray, icon)
    } else {
        let (tray, icon) = tray_and_icon(tray, icon, outcomes.drop_last());
        let (change, event) = outcomes.last();
        (change.tray_after(tray, event), change.icon_after(icon, event))
    }
}

/// As long as no file of an icon is missing, the icon shows the recorded state, from the plain
/// icon of the start on and over any number of changes and clearings.
pub proof fn icon_shows_the_recorded_state<P, E>(
    outcomes: Seq<(IconChange<Seq<char>, P, E>, IconEvent<P, E>)>,
)
    requires
        forall|i: int|
            0 <= i < outcomes.len() ==> !(#[trigger] outcomes[i]).0.misses_file(outcomes[i].1),
    ensures
        ({
            let start = SysTrayIconState { icon_state: IconState::Clean };
            let (tray, icon) = tray_and_icon(start, TrayIcon::Plain, outcomes);
            icon.shows() == tray.icon_state
        }),
    decreases outcomes.len(),
{
    if outcomes.len() > 0 {
        let earlier = outcomes.drop_last();
        assert forall|i: int| 0 <= i < earlier.len() implies !(
        #[trigger] earlier[i]).0.misses_file(earlier[i].1) by {
            assert(earlier[i] == outcomes[i]);
        }
        icon_shows_the_recorded_state(earlier);
        let start = SysTrayIconState { icon_state: IconState::Clean };
        let (tray, icon) = tray_and_icon(start, TrayIcon::Plain, earlier);
        let (change, event) = outcomes.last();
        assert(outcomes[outcomes.len() - 1] == outcomes.last());
        icon_and_state_stay_in_step(change, icon, tray, event);
    }
}

/// Each icon has its own meaning and its own file.
pub proof fn icons_are_told_apart(icon: TrayIcon, other: TrayIcon)
    ensures
        icon.shows() == IconState::Clean <==> icon == TrayIcon::Plain,
        icon.shows() == IconState::Medium <==> icon == TrayIcon::MediumPriority,
        icon.shows() == IconState::High <==> icon == TrayIcon::HighPriority,
        icon.file() == "icons/32x32.png"@ <==> icon == TrayIcon::Plain,
        icon.file() == "icons/icon_priority_medium_32x32.png"@ <==> icon
            == TrayIcon::MediumPriority,
        icon.file() == "icons/icon_priority_high_32x32.png"@ <==> icon == TrayIcon::HighPriority,
        icon.file() == other.file() ==> icon == other,
{
    reveal_strlit("icons/32x32.png");
    reveal_strlit("icons/icon_priority_medium_32x32.png");
    reveal_strlit("icons/icon_priority_high_32x32.png");
    assert("icons/32x32.png"@.len() == 15);
    assert("icons/icon_priority_medium_32x32.png"@.len() == 36);
    assert("icons/icon_priority_high_32x32.png"@.len() == 34);
}

/// A notification looks for an icon exactly if it cannot wait, or is of medium urgency on a tray
/// that shows less; it looks for the icon of its own urgency.
pub proof fn urgency_decides_the_icon<P, E>(shown: IconState, urgency: Seq<char>, icon: TrayIcon)
    ensures
        IconChange::<Seq<char>, P, E>::for_urgency(shown, urgency) == (IconChange::<
            Seq<char>,
            P,
            E,
        >::Resolve { icon }) <==> (urgency == "high"@ && icon == TrayIcon::HighPriority) || (urgency
            == "medium"@ && icon == TrayIcon::MediumPriority && shown != IconState::Medium && shown
            != IconState::High),
        wanted_icon(shown, urgency) == Some(icon) <==> (urgency == "high"@ && icon
            == TrayIcon::HighPriority) || (urgency == "medium"@ && icon == TrayIcon::MediumPriority
            && shown != IconState::Medium && shown != IconState::High),
        IconChange::<Seq<char>, P, E>::for_urgency(shown, urgency) is Finished <==> urgency
            == "low"@ || (urgency == "medium"@ && (shown == IconState::Medium || shown
            == IconState::High)),
{
    urgencies_differ();
}

/// An urgency that there is not is reported, and only such a one is.
pub proof fn unknown_urgency_is_reported<P, E>(shown: IconState, urgency: Seq<char>)
    ensures
        IconChange::<Seq<char>, P, E>::for_urgency(shown, urgency) is Report <==> urgency
            != "low"@ && urgency != "medium"@ && urgency != "high"@,
        IconChange::<Seq<char>, P, E>::for_urgency(
            shown,
            urgency,
        ) matches IconChange::Report { message } ==> message
            == "Got invalid notification urgency level: "@ + urgency,
        !(IconChange::<Seq<char>, P, E>::for_urgency(shown, urgency) is Show),
        !(IconChange::<Seq<char>, P, E>::for_urgency(shown, urgency) is Failed),
{
    urgencies_differ();
}

/// A step of a change leads on only by its own outcome: a file that is found is shown, an icon
/// that the tray took, a missing file and a report end the change, and an error of the tray fails
/// it. Nothing else changes anything.
pub proof fn change_goes_on_by_its_outcome<P, E>(
    change: IconChange<Seq<char>, P, E>,
    event: IconEvent<P, E>,
    icon: TrayIcon,
    path: P,
    error: E,
)
    ensures
        ({
            let after = change.next(event);
            let stays = after == change;
            &&& !stays && after == (IconChange::<Seq<char>, P, E>::Show { icon, path }) <==> change
                == (IconChange::<Seq<char>, P, E>::Resolve { icon }) && event == IconEvent::<
                P,
                E,
            >::Resolved(Some(path))
            &&& !stays && after == (IconChange::<Seq<char>, P, E>::Failed { error }) <==> change
                is Show && event == IconEvent::<P, E>::ShowFailed(error)
            &&& !stays && after is Finished <==> {
                ||| change is Resolve && event == IconEvent::<P, E>::Resolved(None)
                ||| change is Show && event is Shown
                ||| change is Report && event is Logged
            }
            &&& after is Resolve || after is Report ==> stays
        }),
{
}

/// The recorded state changes exactly when the tray has a new icon, or when the file of that icon
/// is missing; it is then the state of that icon.
pub proof fn state_follows_the_icon<P, E>(
    change: IconChange<Seq<char>, P, E>,
    tray: SysTrayIconState,
    event: IconEvent<P, E>,
)
    ensures
        ({
            let after = change.tray_after(tray, event).icon_state;
            let missing = event == IconEvent::<P, E>::Resolved(None);
            &&& change == (IconChange::<Seq<char>, P, E>::Resolve { icon: TrayIcon::Plain })
                && missing ==> after == IconState::Clean
            &&& change == (IconChange::<Seq<char>, P, E>::Resolve {
                icon: TrayIcon::MediumPriority,
            }) && missing ==> after == IconState::Medium
            &&& change == (IconChange::<Seq<char>, P, E>::Resolve { icon: TrayIcon::HighPriority })
                && missing ==> after == IconState::High
            &&& change matches IconChange::Show { icon, .. } ==> event is Shown ==> {
                &&& icon == TrayIcon::Plain ==> after == IconState::Clean
                &&& icon == TrayIcon::MediumPriority ==> after == IconState::Medium
                &&& icon == TrayIcon::HighPriority ==> after == IconState::High
            }
            &&& after != tray.icon_state ==> (change is Resolve && missing) || (change is Show
                && event is Shown)
        }),
{
}

/// Clearing the tray looks for the plain icon and for no other.
pub proof fn clearing_looks_for_the_plain_icon<P, E>(change: IconChange<String, P, E>)
    requires
        call_ensures(clear_systray_icon::<P, E>, (), change),
    ensures
        change matches IconChange::Resolve { icon } && icon == TrayIcon::Plain,
{
}

/// A notification goes by the state that is recorded: what it begins on a tray is what its urgency
/// asks for on a tray in that state.
pub proof fn notification_goes_by_the_recorded_state<P, E>(
    tray: SysTrayIconState,
    urgency: &str,
    change: IconChange<String, P, E>,
)
    requires
        call_ensures(change_systray_icon_state::<P, E>, (&tray, urgency), change),
    ensures
        urgency@ == "high"@ ==> (change matches IconChange::Resolve { icon } && icon
            == TrayIcon::HighPriority),
        urgency@ == "medium"@ && (tray.icon_state == IconState::Clean || tray.icon_state
            == IconState::Low) ==> (change matches IconChange::Resolve { icon } && icon
            == TrayIcon::MediumPriority),
        urgency@ == "medium"@ && (tray.icon_state == IconState::Medium || tray.icon_state
            == IconState::High) ==> change is Finished,
        urgency@ == "low"@ ==> change is Finished,
        urgency@ != "low"@ && urgency@ != "medium"@ && urgency@ != "high"@ ==> (
        change matches IconChange::Report { message } && message@
            == "Got invalid notification urgency level: "@ + urgency@),
{
    urgencies_differ();
}

} // verus!
