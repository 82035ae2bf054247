//! The installation of the app in the conductor.

use vstd::prelude::*;

use crate::config::optional_text;
use crate::errors::AppError;
use crate::text::same_text;

verus! {

/// The name of the app.
pub const APP_NAME: &'static str = "Word Condenser";

/// The id under which the app is installed in the conductor.
pub const APP_ID: &'static str = "Word Condenser";

/// The network seed of an app that is given none.
pub const DEFAULT_NETWORK_SEED: Option<&'static str> = None;

/// Membrane proofs: for the name of a role, the bytes of the proof that the agent may join.
pub type MembraneProofs = Vec<(String, Vec<u8>)>;

/// What contracts say of membrane proofs.
pub type ProofsView = Seq<(Seq<char>, Seq<u8>)>;

/// What the conductor is asked to install. `T` is the type of texts, `M` that of membrane proofs,
/// `K` that of agent keys, `B` that of app bundles.
pub struct InstallAppPayload<T, M, K, B> {
    /// The bundle of the app.
    pub source: B,
    /// The key of the agent that the app runs for.
    pub agent_key: K,
    /// The seed of the app's network.
    pub network_seed: Option<T>,
    /// The id to install the app under.
    pub installed_app_id: Option<T>,
    /// The proofs that the agent may join.
    pub membrane_proofs: M,
}

/// A step of an installation. `E` is the type of the errors of other components.
pub enum InstallStep<T, M, K, B, E> {
    /// List the installed apps.
    ListApps { network_seed: Option<T> },
    /// Have the conductor make an agent key.
    GenerateAgentKey { network_seed: Option<T> },
    /// Decode the bundle of the app.
    DecodeBundle { network_seed: Option<T>, agent_key: K },
    /// Have the conductor install the app.
    InstallApp { payload: InstallAppPayload<T, M, K, B> },
    /// Have the conductor enable the app with this id.
    EnableApp { app_id: T },
    /// The app is installed.
    Finished,
    /// The installation failed.
    Failed { error: AppError<T, E> },
}

/// The outcome of a step. `L` is the type of lists of texts.
pub enum InstallEvent<L, K, B, E> {
    /// The ids of the installed apps.
    Apps(L),
    /// The new agent key.
    AgentKey(K),
    /// The decoded bundle.
    Bundle(B),
    /// The step is done.
    Done,
    /// The step failed.
    Failed(E),
}

/// The view of a list of texts.
pub open spec fn texts(list: Seq<String>) -> Seq<Seq<char>> {
    list.map_values(|text: String| text@)
}

/// The view of membrane proofs.
pub open spec fn proofs(list: Seq<(String, Vec<u8>)>) -> ProofsView {
    list.map_values(|proof: (String, Vec<u8>)| (proof.0@, proof.1@))
}

impl<K, B> View for InstallAppPayload<String, MembraneProofs, K, B> {
    type V = InstallAppPayload<Seq<char>, ProofsView, K, B>;

    open spec fn view(&self) -> Self::V {
        InstallAppPayload {
            source: self.source,
            agent_key: self.agent_key,
            network_seed: optional_text(self.network_seed),
            installed_app_id: optional_text(self.installed_app_id),
            membrane_proofs: proofs(self.membrane_proofs@),
        }
    }
}

impl<K, B, E> View for InstallStep<String, MembraneProofs, K, B, E> {
    type V = InstallStep<Seq<char>, ProofsView, K, B, E>;

    open spec fn view(&self) -> Self::V {
        match *self {
            InstallStep::ListApps { network_seed } => {
                InstallStep::ListApps { network_seed: optional_text(network_seed) }
            },
            InstallStep::GenerateAgentKey { network_seed } => {
                InstallStep::GenerateAgentKey { network_seed: optional_text(network_seed) }
            },
            InstallStep::DecodeBundle { network_seed, agent_key } => {
                InstallStep::DecodeBundle { network_seed: optional_text(network_seed), agent_key }
            },
            InstallStep::InstallApp { payload } => InstallStep::InstallApp { payload: payload@ },
            InstallStep::EnableApp { app_id } => InstallStep::EnableApp { app_id: app_id@ },
            InstallStep::Finished => InstallStep::Finished,
            InstallStep::Failed { error } => InstallStep::Failed { error: error@ },
        }
    }
}

impl<K, B, E> View for InstallEvent<Vec<String>, K, B, E> {
    type V = InstallEvent<Seq<Seq<char>>, K, B, E>;

    open spec fn view(&self) -> Self::V {
        match *self {
            InstallEvent::Apps(apps) => InstallEvent::Apps(texts(apps@)),
            InstallEvent::AgentKey(agent_key) => InstallEvent::AgentKey(agent_key),
            InstallEvent::Bundle(bundle) => InstallEvent::Bundle(bundle),
            InstallEvent::Done => InstallEvent::Done,
            InstallEvent::Failed(error) => InstallEvent::Failed(error),
        }
    }
}

/// What is asked of the conductor: the app under its id, for the agent and the network given, and
/// with no membrane proofs.
pub open spec fn install_payload<K, B>(
    network_seed: Option<Seq<char>>,
    agent_key: K,
    bundle: B,
) -> InstallAppPayload<Seq<char>, ProofsView, K, B> {
    InstallAppPayload {
        source: bundle,
        agent_key,
        network_seed,
        installed_app_id: Some(APP_ID@),
        membrane_proofs: Seq::empty(),
    }
}

impl<K, B, E> InstallStep<Seq<char>, ProofsView, K, B, E> {
    /// An installation that has not begun.
    pub open spec fn initial(network_seed: Option<Seq<char>>) -> Self {
        InstallStep::ListApps { network_seed }
    }

    /// The step that follows this one on an outcome. An outcome that this step cannot have
    /// changes nothing.
    pub open spec fn next(self, event: InstallEvent<Seq<Seq<char>>, K, B, E>) -> Self {
        match (self, event) {
            (InstallStep::ListApps { network_seed }, InstallEvent::Apps(apps)) => {
                if apps.contains(APP_ID@) {
                    InstallStep::Finished
                } else {
                    InstallStep::GenerateAgentKey { network_seed }
                }
            },
            (InstallStep::GenerateAgentKey { network_seed }, InstallEvent::AgentKey(agent_key)) => {
                InstallStep::DecodeBundle { network_seed, agent_key }
            },
            (
                InstallStep::DecodeBundle { network_seed, agent_key },
                InstallEvent::Bundle(bundle),
            ) => InstallStep::InstallApp {
                payload: install_payload(network_seed, agent_key, bundle),
            },
            (InstallStep::InstallApp { .. }, InstallEvent::Done) => {
                InstallStep::EnableApp { app_id: APP_ID@ }
            },
            (InstallStep::EnableApp { .. }, InstallEvent::Done) => InstallStep::Finished,
            (InstallStep::DecodeBundle { .. }, InstallEvent::Failed(error)) => {
                InstallStep::Failed { error: AppError::AppBundleError(error) }
            },
            (_, InstallEvent::Failed(error)) => {
                if self.is_end() {
                    self
                } else {
                    InstallStep::Failed { error: AppError::ConductorApiError(error) }
                }
            },
            _ => self,
        }
    }

    /// Nothing comes after this step.
    pub open spec fn is_end(self) -> bool {
        self is Finished || self is Failed
    }
}

/// Whether the app is among the installed ones.
fn is_installed(apps: &Vec<String>) -> (installed: bool)
    ensures
        installed == texts(apps@).contains(APP_ID@),
{
    let mut i: usize = 0;
    while i < apps.len()
        invariant
            i <= apps.len(),
            forall|j: int| 0 <= j < i ==> (#[trigger] apps@[j])@ != APP_ID@,
        decreases apps.len() - i,
    {
        if same_text(apps[i].as_str(), APP_ID) {
            assert(texts(apps@)[i as int] == APP_ID@);
            return true;
        }
        i = i + 1;
    }
    assert(!texts(apps@).contains(APP_ID@));
    false
}

impl<K, B, E> InstallStep<String, MembraneProofs, K, B, E> {
    /// Begins the installation of the app, for a network.
    pub fn start(network_seed: Option<String>) -> (step: Self)
        ensures
            step@ == InstallStep::<Seq<char>, ProofsView, K, B, E>::initial(
                optional_text(network_seed),
            ),
    {
        InstallStep::ListApps { network_seed }
    }
}

/// Takes an installation on by one outcome: the app is installed under its id and enabled, unless
/// an app with that id is installed.
pub fn install_app_if_necessary<K, B, E>(
    step: InstallStep<String, MembraneProofs, K, B, E>,
    event: InstallEvent<Vec<String>, K, B, E>,
) -> (after: InstallStep<String, MembraneProofs, K, B, E>)
    ensures
        after@ == step@.next(event@),
{
    match (step, event) {
        (InstallStep::ListApps { network_seed }, InstallEvent::Apps(apps)) => {
            if is_installed(&apps) {
                InstallStep::Finished
            } else {
                InstallStep::GenerateAgentKey { network_seed }
            }
        },
        (InstallStep::GenerateAgentKey { network_seed }, InstallEvent::AgentKey(agent_key)) => {
            InstallStep::DecodeBundle { network_seed, agent_key }
        },
        (InstallStep::DecodeBundle { network_seed, agent_key }, InstallEvent::Bundle(bundle)) => {
            let membrane_proofs: MembraneProofs = Vec::new();
            assert(proofs(membrane_proofs@) =~= Seq::empty());
            InstallStep::InstallApp {
                payload: InstallAppPayload {
                    source: bundle,
                    agent_key,
                    network_seed,
                    installed_app_id: Some(APP_ID.to_string()),
                    membrane_proofs,
                },
            }
        },
        (InstallStep::InstallApp { .. }, InstallEvent::Done) => {
            InstallStep::EnableApp { app_id: APP_ID.to_string() }
        },
        (InstallStep::EnableApp { .. }, InstallEvent::Done) => InstallStep::Finished,
        (InstallStep::DecodeBundle { .. }, InstallEvent::Failed(error)) => {
            InstallStep::Failed { error: AppError::AppBundleError(error) }
        },
        (InstallStep::Finished, _) => InstallStep::Finished,
        (InstallStep::Failed { error }, _) => InstallStep::Failed { error },
        (_, InstallEvent::Failed(error)) => {
            InstallStep::Failed { error: AppError::ConductorApiError(error) }
        },
        (step, _) => step,
    }
}

impl<K, B, E> InstallStep<Seq<char>, ProofsView, K, B, E> {
    /// The outcome is one that this step can have.
    pub open spec fn answered_by(self, event: InstallEvent<Seq<Seq<char>>, K, B, E>) -> bool {
        match self {
            InstallStep::ListApps { .. } => event is Apps || event is Failed,
            InstallStep::GenerateAgentKey { .. } => event is AgentKey || event is Failed,
            InstallStep::DecodeBundle { .. } => event is Bundle || event is Failed,
            InstallStep::InstallApp { .. } => event is Done || event is Failed,
            InstallStep::EnableApp { .. } => event is Done || event is Failed,
            _ => false,
        }
    }

    /// How many outcomes can at most still come.
    pub open spec fn outcomes_left(self) -> nat {
        match self {
            InstallStep::ListApps { .. } => 5,
            InstallStep::GenerateAgentKey { .. } => 4,
            InstallStep::DecodeBundle { .. } => 3,
            InstallStep::InstallApp { .. } => 2,
            InstallStep::EnableApp { .. } => 1,
            _ => 0,
        }
    }

    /// This step works for the app's id and for the network with the given seed, and asks for no
    /// membrane proofs.
    pub open spec fn is_for(self, seed: Option<Seq<char>>) -> bool {
        match self {
            InstallStep::ListApps { network_seed } => network_seed == seed,
            InstallStep::GenerateAgentKey { network_seed } => network_seed == seed,
            InstallStep::DecodeBundle { network_seed, .. } => network_seed == seed,
            InstallStep::InstallApp { payload } => {
                &&& payload.network_seed == seed
                &&& payload.installed_app_id == Some(APP_ID@)
                &&& payload.membrane_proofs.len() == 0
            },
            InstallStep::EnableApp { app_id } => app_id == APP_ID@,
            _ => true,
        }
    }

    /// The step after a row of outcomes.
    pub open spec fn run(self, events: Seq<InstallEvent<Seq<Seq<char>>, K, B, E>>) -> Self
        decreases events.len(),
    {
        if events.len() == 0 {
            self
        } else {
            self.run(events.drop_last()).next(events.last())
        }
    }
}

/// An outcome that the step can have brings the installation nearer to its end; any other changes
/// nothing.
pub proof fn install_step_progress<K, B, E>(
    step: InstallStep<Seq<char>, ProofsView, K, B, E>,
    event: InstallEvent<Seq<Seq<char>>, K, B, E>,
)
    ensures
        step.answered_by(event) ==> step.next(event).outcomes_left() < step.outcomes_left(),
        !step.answered_by(event) ==> step.next(event) == step,
        step.is_end() <==> step.outcomes_left() == 0,
{
}

/// An app that is installed is left alone: the list of the installed apps is all that is asked
/// for, whatever would have come after.
pub proof fn installed_app_is_left_alone<K, B, E>(
    network_seed: Option<Seq<char>>,
    apps: Seq<Seq<char>>,
    later: Seq<InstallEvent<Seq<Seq<char>>, K, B, E>>,
)
    requires
        apps.contains(APP_ID@),
    ensures
        InstallStep::<Seq<char>, ProofsView, K, B, E>::initial(network_seed).next(
            InstallEvent::Apps(apps),
        ).run(later) is Finished,
    decreases later.len(),
{
    if later.len() > 0 {
        installed_app_is_left_alone::<K, B, E>(network_seed, apps, later.drop_last());
    }
}

/// An installation after the conductor listed the apps and made a key, and the bundle was decoded.
pub open spec fn asked_to_install<K, B, E>(
    network_seed: Option<Seq<char>>,
    apps: Seq<Seq<char>>,
    agent_key: K,
    bundle: B,
) -> InstallStep<Seq<char>, ProofsView, K, B, E> {
    InstallStep::initial(network_seed).next(InstallEvent::Apps(apps)).next(
        InstallEvent::AgentKey(agent_key),
    ).next(InstallEvent::Bundle(bundle))
}

/// An app that is not installed is installed with the key, the bundle and the seed of this
/// installation, and enabled, before the installation is finished.
pub proof fn missing_app_is_installed_and_enabled<K, B, E>(
    network_seed: Option<Seq<char>>,
    apps: Seq<Seq<char>>,
    agent_key: K,
    bundle: B,
)
    requires
        !apps.contains(APP_ID@),
    ensures
        asked_to_install::<K, B, E>(network_seed, apps, agent_key, bundle) == (
        InstallStep::<Seq<char>, ProofsView, K, B, E>::InstallApp {
            payload: install_payload(network_seed, agent_key, bundle),
        }),
        asked_to_install::<K, B, E>(network_seed, apps, agent_key, bundle).next(
            InstallEvent::Done,
        ) == (InstallStep::<Seq<char>, ProofsView, K, B, E>::EnableApp { app_id: APP_ID@ }),
        asked_to_install::<K, B, E>(network_seed, apps, agent_key, bundle).next(
            InstallEvent::Done,
        ).next(InstallEvent::Done) is Finished,
{
}

/// Whatever is installed is installed under the app's id, for the network that the installation
/// was begun for and without membrane proofs.
pub proof fn installation_keeps_id_and_network<K, B, E>(
    network_seed: Option<Seq<char>>,
    events: Seq<InstallEvent<Seq<Seq<char>>, K, B, E>>,
)
    ensures
        InstallStep::<Seq<char>, ProofsView, K, B, E>::initial(network_seed).run(events).is_for(
            network_seed,
        ),
    decreases events.len(),
{
    if events.len() > 0 {
        installation_keeps_id_and_network::<K, B, E>(network_seed, events.drop_last());
    }
}

/// The list of the installed apps decides: where the app's id is anywhere in it, nothing is left
/// to be done; otherwise, and only otherwise, a key is made.
pub proof fn list_decides_the_installation<K, B, E>(
    step: InstallStep<Seq<char>, ProofsView, K, B, E>,
    event: InstallEvent<Seq<Seq<char>>, K, B, E>,
    network_seed: Option<Seq<char>>,
)
    ensures
        ({
            let after = step.next(event);
            &&& after != step && after == (InstallStep::<Seq<char>, ProofsView, K, B, E>::GenerateAgentKey {
                network_seed,
            }) <==> step == (InstallStep::<Seq<char>, ProofsView, K, B, E>::ListApps { network_seed }) && (
            event matches InstallEvent::Apps(apps) && forall|i: int|
                0 <= i < apps.len() ==> #[trigger] apps[i] != "Word Condenser"@)
            &&& after != step && after is Finished <==> {
                ||| step is ListApps && (event matches InstallEvent::Apps(apps) && exists|i: int|
                    0 <= i < apps.len() && #[trigger] apps[i] == "Word Condenser"@)
                ||| step is EnableApp && event is Done
            }
            &&& after is ListApps ==> after == step
        }),
{
}

/// What is installed is what was made and decoded for it: the key goes with the seed to the
/// decoding of the bundle, and the seed, the key and the bundle go to the conductor, under the
/// app's id and without membrane proofs.
pub proof fn installation_uses_what_was_made<K, B, E>(
    step: InstallStep<Seq<char>, ProofsView, K, B, E>,
    event: InstallEvent<Seq<Seq<char>>, K, B, E>,
    network_seed: Option<Seq<char>>,
    agent_key: K,
    payload: InstallAppPayload<Seq<char>, ProofsView, K, B>,
    app_id: Seq<char>,
)
    ensures
        ({
            let after = step.next(event);
            &&& after != step && after == (InstallStep::<Seq<char>, ProofsView, K, B, E>::DecodeBundle {
                network_seed,
                agent_key,
            }) <==> step == (InstallStep::<Seq<char>, ProofsView, K, B, E>::GenerateAgentKey {
                network_seed,
            }) && event == InstallEvent::<Seq<Seq<char>>, K, B, E>::AgentKey(agent_key)
            &&& after != step && after == (InstallStep::<Seq<char>, ProofsView, K, B, E>::InstallApp {
                payload,
            }) <==> {
                &&& step == (InstallStep::<Seq<char>, ProofsView, K, B, E>::DecodeBundle {
                    network_seed: payload.network_seed,
                    agent_key: payload.agent_key,
                })
                &&& event == InstallEvent::<Seq<Seq<char>>, K, B, E>::Bundle(payload.source)
                &&& payload.installed_app_id == Some("Word Condenser"@)
                &&& payload.membrane_proofs.len() == 0
            }
            &&& after != step && after == (InstallStep::<Seq<char>, ProofsView, K, B, E>::EnableApp {
                app_id,
            }) <==> step is InstallApp && event is Done && app_id == "Word Condenser"@
        }),
{
    let empty: ProofsView = Seq::empty();
    if payload.membrane_proofs.len() == 0 {
        assert(payload.membrane_proofs =~= empty);
    }
}

/// A step that fails ends the installation with its own error: one of the bundle where the bundle
/// is decoded, one of the conductor everywhere else. Nothing else ends it in an error.
pub proof fn installation_errors_keep_their_kind<K, B, E>(
    step: InstallStep<Seq<char>, ProofsView, K, B, E>,
    event: InstallEvent<Seq<Seq<char>>, K, B, E>,
    error: AppError<Seq<char>, E>,
)
    ensures
        ({
            let after = step.next(event);
            after != step && after == (InstallStep::<Seq<char>, ProofsView, K, B, E>::Failed { error })
                <==> (event matches InstallEvent::Failed(cause) && {
                ||| step is DecodeBundle && error == AppError::<Seq<char>, E>::AppBundleError(cause)
                ||| (step is ListApps || step is GenerateAgentKey || step is InstallApp || step
                    is EnableApp) && error == AppError::<Seq<char>, E>::ConductorApiError(cause)
            })
        }),
{
}

impl<K, B, E> InstallStep<Seq<char>, ProofsView, K, B, E> {
    /// At some point of a row of outcomes, a step had an outcome that passes the test.
    pub open spec fn did(
        self,
        events: Seq<InstallEvent<Seq<Seq<char>>, K, B, E>>,
        test: spec_fn(Self, InstallEvent<Seq<Seq<char>>, K, B, E>) -> bool,
    ) -> bool
        decreases events.len(),
    {
        events.len() > 0 && (self.did(events.drop_last(), test) || test(
            self.run(events.drop_last()),
            events.last(),
        ))
    }
}

/// An installation that is finished found the app installed, or had the conductor install and then
/// enable it; never both.
pub proof fn finished_installation_left_the_app_installed<K, B, E>(
    network_seed: Option<Seq<char>>,
    events: Seq<InstallEvent<Seq<Seq<char>>, K, B, E>>,
)
    ensures
        ({
            let start = InstallStep::<Seq<char>, ProofsView, K, B, E>::initial(network_seed);
            let found = |
                step: InstallStep<Seq<char>, ProofsView, K, B, E>,
                event: InstallEvent<Seq<Seq<char>>, K, B, E>,
            |
                step is ListApps && (event matches InstallEvent::Apps(apps) && apps.contains(
                    "Word Condenser"@,
                ));
            let installed = |
                step: InstallStep<Seq<char>, ProofsView, K, B, E>,
                event: InstallEvent<Seq<Seq<char>>, K, B, E>,
            |
                step is InstallApp && event is Done;
            let enabled = |
                step: InstallStep<Seq<char>, ProofsView, K, B, E>,
                event: InstallEvent<Seq<Seq<char>>, K, B, E>,
            |
                step is EnableApp && event is Done;
            &&& start.run(events) is EnableApp ==> start.did(events, installed)
            &&& start.did(events, found) ==> start.run(events) is Finished
            &&& start.did(events, enabled) ==> start.run(events) is Finished && start.did(
                events,
                installed,
            )
            &&& start.run(events) is Finished ==> start.did(events, found) != start.did(
                events,
                enabled,
            )
        }),
    decreases events.len(),
{
    if events.len() > 0 {
        finished_installation_left_the_app_installed::<K, B, E>(network_seed, events.drop_last());
    }
}

} // verus!
