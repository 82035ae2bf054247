//! What holds of every launch, whatever the outcomes of its steps.

use vstd::prelude::*;

use crate::config::{parsed_url, ConductorConfig, Dir};
use crate::errors::{AppError, LairKeystoreError, LaunchHolochainError};
use crate::launch::{
    admin_url, drawn_seed, parsed_urls, Launch, LaunchEvent, LaunchStep, LogLevel,
};
use crate::seed::{seed_reads_back, uuid_value};
use crate::text::{
    decimal_text, decimal_text_is_decimal, decimal_text_is_unique, is_decimal_of, same_tail,
};

verus! {

impl<E> LaunchStep<Seq<char>, E> {
    /// How many outcomes can at most still come; no two steps of one launch have the same.
    pub open spec fn outcomes_left(self) -> nat {
        match self {
            LaunchStep::CheckDir { dir } => if dir == Dir::Keystore { 24 } else { 22 },
            LaunchStep::CreateDir { dir } => if dir == Dir::Keystore { 23 } else { 21 },
            LaunchStep::CheckKeystore => 20,
            LaunchStep::InitializeKeystore => 19,
            LaunchStep::LaunchLair => 18,
            LaunchStep::ConnectLair { .. } => 17,
            LaunchStep::PickAdminPort { .. } => 16,
            LaunchStep::ParseUrls { .. } => 15,
            LaunchStep::LinkLair { .. } => 14,
            LaunchStep::SerializeConfig { .. } => 13,
            LaunchStep::WriteConfig { .. } => 12,
            LaunchStep::FindSidecar { .. } => 11,
            LaunchStep::LaunchHolochain { .. } => 10,
            LaunchStep::Settle { .. } => 9,
            LaunchStep::Connect { .. } => 8,
            LaunchStep::AwaitRetry { .. } => 7,
            LaunchStep::Reconnect { .. } => 6,
            LaunchStep::ListAppInterfaces { .. } => 5,
            LaunchStep::PickAppPort { .. } => 4,
            LaunchStep::AttachAppInterface { .. } => 3,
            LaunchStep::DrawSeed { .. } => 2,
            LaunchStep::InstallApp { .. } => 1,
            _ => 0,
        }
    }

    /// The port of the admin interface, once it was picked.
    pub open spec fn admin_port(self) -> Option<u16> {
        match self {
            LaunchStep::ParseUrls { admin_port, .. } => Some(admin_port),
            LaunchStep::LinkLair { config } => Some(config.admin_port),
            LaunchStep::SerializeConfig { config } => Some(config.admin_port),
            LaunchStep::WriteConfig { admin_port, .. } => Some(admin_port),
            LaunchStep::FindSidecar { admin_port } => Some(admin_port),
            LaunchStep::LaunchHolochain { admin_port } => Some(admin_port),
            LaunchStep::Settle { admin_port } => Some(admin_port),
            LaunchStep::Connect { admin_port } => Some(admin_port),
            LaunchStep::AwaitRetry { admin_port } => Some(admin_port),
            LaunchStep::Reconnect { admin_port } => Some(admin_port),
            LaunchStep::ListAppInterfaces { admin_port } => Some(admin_port),
            LaunchStep::PickAppPort { admin_port } => Some(admin_port),
            LaunchStep::AttachAppInterface { admin_port, .. } => Some(admin_port),
            LaunchStep::DrawSeed { admin_port, .. } => Some(admin_port),
            LaunchStep::InstallApp { admin_port, .. } => Some(admin_port),
            LaunchStep::Finished { admin_port, .. } => Some(admin_port),
            _ => None,
        }
    }

    /// The port of the app interface, once it is known.
    pub open spec fn app_port(self) -> Option<u16> {
        match self {
            LaunchStep::AttachAppInterface { app_port, .. } => Some(app_port),
            LaunchStep::DrawSeed { app_port, .. } => Some(app_port),
            LaunchStep::InstallApp { app_port, .. } => Some(app_port),
            LaunchStep::Finished { app_port, .. } => Some(app_port),
            _ => None,
        }
    }

    /// The address of the keystore server, while the configuration is made.
    pub open spec fn lair_url(self) -> Option<Seq<char>> {
        match self {
            LaunchStep::ConnectLair { lair_url } => Some(lair_url),
            LaunchStep::PickAdminPort { lair_url } => Some(lair_url),
            LaunchStep::ParseUrls { lair_url, .. } => Some(lair_url),
            LaunchStep::LinkLair { config } => Some(config.keystore_url),
            LaunchStep::SerializeConfig { config } => Some(config.keystore_url),
            _ => None,
        }
    }
}

impl<E> Launch<Seq<char>, E> {
    /// The launch after a row of outcomes.
    pub open spec fn run(self, events: Seq<LaunchEvent<Seq<char>, E>>) -> Self
        decreases events.len(),
    {
        if events.len() == 0 {
            self
        } else {
            self.run(events.drop_last()).next(events.last())
        }
    }

    /// Every outcome is one that the step before it can have.
    pub open spec fn answered(self, events: Seq<LaunchEvent<Seq<char>, E>>) -> bool
        decreases events.len(),
    {
        events.len() == 0 || {
            &&& self.answered(events.drop_last())
            &&& self.run(events.drop_last()).step.answered_by(events.last())
        }
    }

    /// At some point of a row of outcomes, a step had an outcome that passes the test.
    pub open spec fn did(
        self,
        events: Seq<LaunchEvent<Seq<char>, E>>,
        test: spec_fn(LaunchStep<Seq<char>, E>, LaunchEvent<Seq<char>, E>) -> bool,
    ) -> bool
        decreases events.len(),
    {
        events.len() > 0 && (self.did(events.drop_last(), test) || test(
            self.run(events.drop_last()).step,
            events.last(),
        ))
    }
}

/// An outcome that the step can have brings the launch nearer to its end; any other changes
/// nothing. Only the ends have no outcome.
pub proof fn launch_step_progress<E>(
    step: LaunchStep<Seq<char>, E>,
    event: LaunchEvent<Seq<char>, E>,
    unix_family: bool,
)
    ensures
        step.answered_by(event) ==> step.next(event, unix_family).outcomes_left()
            < step.outcomes_left(),
        !step.answered_by(event) ==> step.next(event, unix_family) == step,
        step.is_end() ==> !step.answered_by(event),
        step.is_end() <==> step.outcomes_left() == 0,
{
}

/// A launch is over after at most 24 outcomes.
pub proof fn launch_comes_to_an_end<E>(
    password: Seq<char>,
    unix_family: bool,
    events: Seq<LaunchEvent<Seq<char>, E>>,
)
    requires
        Launch::initial(password, unix_family).answered(events),
    ensures
        events.len() <= 24,
        events.len() == 24 ==> Launch::initial(password, unix_family).run(events).step.is_end(),
{
    outcomes_add_up(Launch::initial(password, unix_family), events);
}

proof fn outcomes_add_up<E>(launch: Launch<Seq<char>, E>, events: Seq<LaunchEvent<Seq<char>, E>>)
    requires
        launch.answered(events),
    ensures
        events.len() + launch.run(events).step.outcomes_left() <= launch.step.outcomes_left(),
    decreases events.len(),
{
    if events.len() > 0 {
        outcomes_add_up(launch, events.drop_last());
        launch_step_progress(
            launch.run(events.drop_last()).step,
            events.last(),
            launch.run(events.drop_last()).unix_family,
        );
    }
}

/// What a launch was begun with stays: the password, how much is logged and the kind of system.
pub proof fn launch_keeps_its_terms<E>(
    launch: Launch<Seq<char>, E>,
    events: Seq<LaunchEvent<Seq<char>, E>>,
)
    ensures
        launch.run(events).password == launch.password,
        launch.run(events).log_level == launch.log_level,
        launch.run(events).unix_family == launch.unix_family,
    decreases events.len(),
{
    if events.len() > 0 {
        launch_keeps_its_terms(launch, events.drop_last());
    }
}

/// The admin port, once picked, is the port of the launch to its end: the one that stands in the
/// configuration, that is connected to and that a finished launch reports.
pub proof fn admin_port_stays<E>(
    step: LaunchStep<Seq<char>, E>,
    event: LaunchEvent<Seq<char>, E>,
    unix_family: bool,
)
    requires
        step.admin_port() is Some,
    ensures
        step.next(event, unix_family).admin_port() == step.admin_port() || step.next(
            event,
            unix_family,
        ) is Failed || step.next(event, unix_family) is Aborted,
{
}

/// This port was picked for the admin interface.
pub open spec fn admin_port_picked<E>(admin_port: u16) -> spec_fn(
    LaunchStep<Seq<char>, E>,
    LaunchEvent<Seq<char>, E>,
) -> bool {
    |step: LaunchStep<Seq<char>, E>, event: LaunchEvent<Seq<char>, E>|
        step is PickAdminPort && event == LaunchEvent::<Seq<char>, E>::Port(Some(admin_port))
}

/// The admin port of a launch is the one that was picked for the admin interface.
pub proof fn admin_port_was_picked<E>(
    password: Seq<char>,
    unix_family: bool,
    events: Seq<LaunchEvent<Seq<char>, E>>,
    admin_port: u16,
)
    requires
        Launch::initial(password, unix_family).run(events).step.admin_port() == Some(admin_port),
    ensures
        Launch::initial(password, unix_family).did(events, admin_port_picked(admin_port)),
    decreases events.len(),
{
    if events.len() > 0 {
        let before = Launch::initial(password, unix_family).run(events.drop_last());
        if before.step.admin_port() == Some(admin_port) {
            admin_port_was_picked(password, unix_family, events.drop_last(), admin_port);
        }
    }
}

/// The conductor had app interfaces open, on this port the first.
pub open spec fn app_port_listed<E>(app_port: u16) -> spec_fn(
    LaunchStep<Seq<char>, E>,
    LaunchEvent<Seq<char>, E>,
) -> bool {
    |step: LaunchStep<Seq<char>, E>, event: LaunchEvent<Seq<char>, E>|
        step is ListAppInterfaces && (event matches LaunchEvent::AppInterfaces(ports)
            && ports@.len() > 0 && ports@[0] == app_port)
}

/// This port was picked for an app interface.
pub open spec fn app_port_picked<E>(app_port: u16) -> spec_fn(
    LaunchStep<Seq<char>, E>,
    LaunchEvent<Seq<char>, E>,
) -> bool {
    |step: LaunchStep<Seq<char>, E>, event: LaunchEvent<Seq<char>, E>|
        step is PickAppPort && event == LaunchEvent::<Seq<char>, E>::Port(Some(app_port))
}

/// An app interface was opened on this port.
pub open spec fn app_port_attached<E>(app_port: u16) -> spec_fn(
    LaunchStep<Seq<char>, E>,
    LaunchEvent<Seq<char>, E>,
) -> bool {
    |step: LaunchStep<Seq<char>, E>, event: LaunchEvent<Seq<char>, E>|
        (step matches LaunchStep::AttachAppInterface { app_port: port, .. } && port == app_port)
            && event is Done
}

/// The app port of a launch is the first that the conductor had open, or the one that was picked
/// for an app interface; an interface was opened on a port that was picked before the launch goes
/// on with it.
pub proof fn app_port_was_found<E>(
    password: Seq<char>,
    unix_family: bool,
    events: Seq<LaunchEvent<Seq<char>, E>>,
    app_port: u16,
)
    requires
        Launch::initial(password, unix_family).run(events).step.app_port() == Some(app_port),
    ensures
        ({
            let launch = Launch::initial(password, unix_family);
            ||| launch.did(events, app_port_listed(app_port))
            ||| {
                &&& launch.did(events, app_port_picked(app_port))
                &&& launch.run(events).step is AttachAppInterface || launch.did(
                    events,
                    app_port_attached(app_port),
                )
            }
        }),
    decreases events.len(),
{
    if events.len() > 0 {
        let before = Launch::initial(password, unix_family).run(events.drop_last());
        if before.step.app_port() == Some(app_port) {
            app_port_was_found(password, unix_family, events.drop_last(), app_port);
        }
    }
}

/// The keystore server was started and reported this address.
pub open spec fn lair_launched<E>(lair_url: Seq<char>) -> spec_fn(
    LaunchStep<Seq<char>, E>,
    LaunchEvent<Seq<char>, E>,
) -> bool {
    |step: LaunchStep<Seq<char>, E>, event: LaunchEvent<Seq<char>, E>|
        step is LaunchLair && event == LaunchEvent::<Seq<char>, E>::LairUrl(lair_url)
}

/// The configuration names the keystore server that was started for the launch.
pub proof fn lair_url_was_reported<E>(
    password: Seq<char>,
    unix_family: bool,
    events: Seq<LaunchEvent<Seq<char>, E>>,
    lair_url: Seq<char>,
)
    requires
        Launch::initial(password, unix_family).run(events).step.lair_url() == Some(lair_url),
    ensures
        Launch::initial(password, unix_family).did(events, lair_launched(lair_url)),
    decreases events.len(),
{
    if events.len() > 0 {
        let before = Launch::initial(password, unix_family).run(events.drop_last());
        if before.step.lair_url() == Some(lair_url) {
            lair_url_was_reported(password, unix_family, events.drop_last(), lair_url);
        }
    }
}

/// A launch fails or aborts only on a step that failed.
pub proof fn launch_fails_only_on_failures<E>(
    step: LaunchStep<Seq<char>, E>,
    event: LaunchEvent<Seq<char>, E>,
    unix_family: bool,
)
    requires
        !step.is_end(),
        step.next(event, unix_family) is Failed || step.next(event, unix_family) is Aborted,
    ensures
        event.is_failure(),
{
}

/// Two failures are forgiven: that of the link to the keystore, and that of the first attempt to
/// connect.
pub proof fn link_and_first_connection_may_fail<E>(
    step: LaunchStep<Seq<char>, E>,
    event: LaunchEvent<Seq<char>, E>,
    unix_family: bool,
)
    requires
        step is LinkLair || step is Connect,
    ensures
        !step.next(event, unix_family).is_end(),
{
}

/// No other failure is forgiven.
pub proof fn other_failures_end_the_launch<E>(
    step: LaunchStep<Seq<char>, E>,
    event: LaunchEvent<Seq<char>, E>,
    unix_family: bool,
)
    requires
        step.answered_by(event),
        event.is_failure(),
        !(step is LinkLair || step is Connect),
    ensures
        step.next(event, unix_family) is Failed || step.next(event, unix_family) is Aborted,
{
}

/// A client of the keystore was started.
pub open spec fn lair_connected<E>() -> spec_fn(
    LaunchStep<Seq<char>, E>,
    LaunchEvent<Seq<char>, E>,
) -> bool {
    |step: LaunchStep<Seq<char>, E>, event: LaunchEvent<Seq<char>, E>|
        step is ConnectLair && event is Done
}

/// The configuration was written.
pub open spec fn config_written<E>() -> spec_fn(
    LaunchStep<Seq<char>, E>,
    LaunchEvent<Seq<char>, E>,
) -> bool {
    |step: LaunchStep<Seq<char>, E>, event: LaunchEvent<Seq<char>, E>|
        step is WriteConfig && event is Done
}

/// The conductor was started.
pub open spec fn conductor_started<E>() -> spec_fn(
    LaunchStep<Seq<char>, E>,
    LaunchEvent<Seq<char>, E>,
) -> bool {
    |step: LaunchStep<Seq<char>, E>, event: LaunchEvent<Seq<char>, E>|
        step is LaunchHolochain && event is Done
}

/// The admin interface answered.
pub open spec fn admin_connected<E>() -> spec_fn(
    LaunchStep<Seq<char>, E>,
    LaunchEvent<Seq<char>, E>,
) -> bool {
    |step: LaunchStep<Seq<char>, E>, event: LaunchEvent<Seq<char>, E>|
        (step is Connect || step is Reconnect) && event is Done
}

/// The app is installed.
pub open spec fn app_installed<E>() -> spec_fn(
    LaunchStep<Seq<char>, E>,
    LaunchEvent<Seq<char>, E>,
) -> bool {
    |step: LaunchStep<Seq<char>, E>, event: LaunchEvent<Seq<char>, E>|
        step is InstallApp && event is Done
}

proof fn stages_are_in_order<E>(
    password: Seq<char>,
    unix_family: bool,
    events: Seq<LaunchEvent<Seq<char>, E>>,
)
    ensures
        ({
            let launch = Launch::initial(password, unix_family);
            let step = launch.run(events).step;
            let left = step.outcomes_left();
            !(step is Failed || step is Aborted) ==> {
                &&& left <= 16 ==> launch.did(events, lair_connected())
                &&& left <= 11 ==> launch.did(events, config_written())
                &&& left <= 9 ==> launch.did(events, conductor_started())
                &&& left <= 5 ==> launch.did(events, admin_connected())
                &&& left <= 0 ==> launch.did(events, app_installed())
            }
        }),
    decreases events.len(),
{
    if events.len() > 0 {
        stages_are_in_order(password, unix_family, events.drop_last());
    }
}

/// A launch that finished has started a client of the keystore, written the configuration,
/// started the conductor, connected to it and installed the app.
pub proof fn finished_launch_did_every_stage<E>(
    password: Seq<char>,
    unix_family: bool,
    events: Seq<LaunchEvent<Seq<char>, E>>,
)
    requires
        Launch::initial(password, unix_family).run(events).step is Finished,
    ensures
        Launch::initial(password, unix_family).did(events, lair_connected()),
        Launch::initial(password, unix_family).did(events, config_written()),
        Launch::initial(password, unix_family).did(events, conductor_started()),
        Launch::initial(password, unix_family).did(events, admin_connected()),
        Launch::initial(password, unix_family).did(events, app_installed()),
{
    stages_are_in_order(password, unix_family, events);
}

/// The conductor is started on a configuration that was written, and the app installed only over
/// an admin interface that answered.
pub proof fn stages_wait_for_each_other<E>(
    password: Seq<char>,
    unix_family: bool,
    events: Seq<LaunchEvent<Seq<char>, E>>,
)
    ensures
        Launch::initial(password, unix_family).run(events).step is LaunchHolochain
            ==> Launch::initial(password, unix_family).did(events, config_written()),
        Launch::initial(password, unix_family).run(events).step is InstallApp
            ==> Launch::initial(password, unix_family).did(events, admin_connected()),
{
    stages_are_in_order(password, unix_family, events);
}

/// This network seed was drawn.
pub open spec fn seed_drawn<E>(seed: Seq<char>) -> spec_fn(
    LaunchStep<Seq<char>, E>,
    LaunchEvent<Seq<char>, E>,
) -> bool {
    |step: LaunchStep<Seq<char>, E>, event: LaunchEvent<Seq<char>, E>|
        step is DrawSeed && event == LaunchEvent::<Seq<char>, E>::Seed(seed)
}

/// The app is never installed without a network seed, and always with the one that was drawn.
pub proof fn app_gets_a_network_seed<E>(
    password: Seq<char>,
    unix_family: bool,
    events: Seq<LaunchEvent<Seq<char>, E>>,
)
    ensures
        Launch::initial(password, unix_family).run(events).step matches LaunchStep::InstallApp {
            network_seed,
            ..
        } ==> (network_seed matches Some(seed) && Launch::initial(password, unix_family).did(
            events,
            seed_drawn(seed),
        )),
    decreases events.len(),
{
    if events.len() > 0 {
        app_gets_a_network_seed(password, unix_family, events.drop_last());
    }
}

/// Every port has an address of its own.
pub proof fn admin_url_names_the_port(admin_port: u16, other_port: u16)
    requires
        admin_url(admin_port) == admin_url(other_port),
    ensures
        admin_port == other_port,
{
    same_tail(
        "ws://localhost:"@,
        decimal_text(admin_port as nat),
        decimal_text(other_port as nat),
    );
    decimal_text_is_unique(admin_port as nat, other_port as nat);
}

/// A launch begins with the keystore's directory, and with what it is given; it has its processes
/// log warnings.
pub proof fn launch_begins_with_what_it_is_given<E>(password: Seq<char>, unix_family: bool)
    ensures
        Launch::<Seq<char>, E>::initial(password, unix_family).password == password,
        Launch::<Seq<char>, E>::initial(password, unix_family).unix_family == unix_family,
        Launch::<Seq<char>, E>::initial(password, unix_family).log_level == LogLevel::Warn,
        Launch::<Seq<char>, E>::initial(password, unix_family).step == (LaunchStep::<
            Seq<char>,
            E,
        >::CheckDir { dir: Dir::Keystore }),
{
}

/// A directory is made exactly if it was looked for and is not there. The conductor's directory
/// comes after the keystore's, and the keystore itself after both.
pub proof fn directories_come_first<E>(
    launch: Launch<Seq<char>, E>,
    event: LaunchEvent<Seq<char>, E>,
    dir: Dir,
)
    ensures
        ({
            let step = launch.step;
            let after = launch.next(event).step;
            let there = event == LaunchEvent::<Seq<char>, E>::Exists(true);
            &&& after != step && after == (LaunchStep::<Seq<char>, E>::CreateDir { dir }) <==> step
                == (LaunchStep::<Seq<char>, E>::CheckDir { dir }) && event == LaunchEvent::<Seq<char>, E>::Exists(false)
            &&& after != step && after == (LaunchStep::<Seq<char>, E>::CheckDir { dir }) <==> dir
                == Dir::Conductor && {
                ||| step == (LaunchStep::<Seq<char>, E>::CheckDir { dir: Dir::Keystore }) && there
                ||| step == (LaunchStep::<Seq<char>, E>::CreateDir { dir: Dir::Keystore }) && event
                    is Done
            }
            &&& after != step && after is CheckKeystore <==> {
                ||| step == (LaunchStep::<Seq<char>, E>::CheckDir { dir: Dir::Conductor }) && there
                ||| step == (LaunchStep::<Seq<char>, E>::CreateDir { dir: Dir::Conductor }) && event
                    is Done
            }
        }),
{
}

/// On every system the keystore is initialized exactly if it was not before, and its server is
/// started exactly on a keystore that was initialized before or is now.
pub proof fn keystore_is_initialized_before_its_server<E>(
    launch: Launch<Seq<char>, E>,
    event: LaunchEvent<Seq<char>, E>,
)
    ensures
        ({
            let step = launch.step;
            let after = launch.next(event).step;
            &&& after != step && after is InitializeKeystore <==> step is CheckKeystore && event
                == LaunchEvent::<Seq<char>, E>::Exists(false)
            &&& after != step && after is LaunchLair <==> {
                ||| step is CheckKeystore && event == LaunchEvent::<Seq<char>, E>::Exists(true)
                ||| step is InitializeKeystore && event is Done
            }
        }),
{
}

/// The client of the keystore gets the address that the server reported, and the same address goes
/// on to the configuration, beside the port that was picked.
pub proof fn address_and_port_go_on_together<E>(
    launch: Launch<Seq<char>, E>,
    event: LaunchEvent<Seq<char>, E>,
    lair_url: Seq<char>,
    admin_port: u16,
)
    ensures
        ({
            let step = launch.step;
            let after = launch.next(event).step;
            &&& after != step && after == (LaunchStep::<Seq<char>, E>::ConnectLair { lair_url }) <==> step
                is LaunchLair && event == LaunchEvent::<Seq<char>, E>::LairUrl(lair_url)
            &&& after != step && after == (LaunchStep::<Seq<char>, E>::PickAdminPort { lair_url })
                <==> step == (LaunchStep::<Seq<char>, E>::ConnectLair { lair_url }) && event is Done
            &&& after != step && after == (LaunchStep::<Seq<char>, E>::ParseUrls {
                lair_url,
                admin_port,
            }) <==> step == (LaunchStep::<Seq<char>, E>::PickAdminPort { lair_url }) && event
                == LaunchEvent::<Seq<char>, E>::Port(Some(admin_port))
        }),
{
}

/// The configuration holds the address of the keystore, the admin port, the bootstrap service and
/// the proxy that were found for it, and the conductor's directory; of the transport nothing is
/// overridden. The keystore is linked in between exactly on systems of the Unix family, and whether
/// or not that works out, the configuration is written down unchanged.
pub proof fn configuration_holds_what_was_found<E>(
    launch: Launch<Seq<char>, E>,
    event: LaunchEvent<Seq<char>, E>,
    config: ConductorConfig<Seq<char>>,
)
    ensures
        ({
            let step = launch.step;
            let after = launch.next(event).step;
            let made = {
                &&& step == (LaunchStep::<Seq<char>, E>::ParseUrls {
                    lair_url: config.keystore_url,
                    admin_port: config.admin_port,
                })
                &&& event == LaunchEvent::<Seq<char>, E>::Urls(
                    Ok(config.bootstrap_service),
                    Ok(config.transport.proxy_url),
                )
                &&& config.environment == Dir::Conductor
                &&& config.transport.sub_transport.bind_to is None
                &&& config.transport.sub_transport.override_host is None
                &&& config.transport.sub_transport.override_port is None
            };
            &&& after != step && after == (LaunchStep::<Seq<char>, E>::LinkLair { config }) <==> made
                && launch.unix_family
            &&& after != step && after == (LaunchStep::<Seq<char>, E>::SerializeConfig { config }) <==> {
                ||| made && !launch.unix_family
                ||| step == (LaunchStep::<Seq<char>, E>::LinkLair { config }) && (event is Done
                    || event is Failed)
            }
        }),
{
}

/// The YAML that is written is that of the configuration; then the binary is found, started and
/// left alone for a while before it is connected to, always on the same admin port.
pub proof fn conductor_starts_on_what_was_written<E>(
    launch: Launch<Seq<char>, E>,
    event: LaunchEvent<Seq<char>, E>,
    yaml: Seq<char>,
    admin_port: u16,
)
    ensures
        ({
            let step = launch.step;
            let after = launch.next(event).step;
            &&& after != step && after == (LaunchStep::<Seq<char>, E>::WriteConfig {
                yaml,
                admin_port,
            }) <==> (step matches LaunchStep::SerializeConfig { config } && config.admin_port
                == admin_port) && event == LaunchEvent::<Seq<char>, E>::Yaml(yaml)
            &&& after != step && after == (LaunchStep::<Seq<char>, E>::FindSidecar { admin_port })
                <==> (step matches LaunchStep::WriteConfig { admin_port: port, .. } && port
                == admin_port) && event is Done
            &&& after != step && after == (LaunchStep::<Seq<char>, E>::LaunchHolochain { admin_port })
                <==> step == (LaunchStep::<Seq<char>, E>::FindSidecar { admin_port }) && event is Done
            &&& after != step && after == (LaunchStep::<Seq<char>, E>::Settle { admin_port }) <==> step
                == (LaunchStep::<Seq<char>, E>::LaunchHolochain { admin_port }) && event is Done
            &&& after != step && after == (LaunchStep::<Seq<char>, E>::Connect { admin_port }) <==> step
                == (LaunchStep::<Seq<char>, E>::Settle { admin_port }) && event is Done
        }),
{
}

/// A conductor that does not answer is waited for and tried once more, and only then; its app
/// interfaces are listed once it answers.
pub proof fn conductor_is_tried_twice<E>(
    launch: Launch<Seq<char>, E>,
    event: LaunchEvent<Seq<char>, E>,
    admin_port: u16,
)
    ensures
        ({
            let step = launch.step;
            let after = launch.next(event).step;
            &&& after != step && after == (LaunchStep::<Seq<char>, E>::AwaitRetry { admin_port }) <==> step
                == (LaunchStep::<Seq<char>, E>::Connect { admin_port }) && event is FailedText
            &&& after != step && after == (LaunchStep::<Seq<char>, E>::Reconnect { admin_port }) <==> step
                == (LaunchStep::<Seq<char>, E>::AwaitRetry { admin_port }) && event is Done
            &&& after != step && after == (LaunchStep::<Seq<char>, E>::ListAppInterfaces { admin_port })
                <==> (step == (LaunchStep::<Seq<char>, E>::Connect { admin_port }) || step == (
            LaunchStep::<Seq<char>, E>::Reconnect { admin_port })) && event is Done
        }),
{
}

/// The first app interface that the conductor has open is used, and exactly if it has none, a port
/// is picked and an interface opened on it.
pub proof fn app_interface_is_found_or_opened<E>(
    launch: Launch<Seq<char>, E>,
    event: LaunchEvent<Seq<char>, E>,
    admin_port: u16,
    app_port: u16,
)
    ensures
        ({
            let step = launch.step;
            let after = launch.next(event).step;
            &&& after != step && after == (LaunchStep::<Seq<char>, E>::PickAppPort { admin_port }) <==> step
                == (LaunchStep::<Seq<char>, E>::ListAppInterfaces { admin_port }) && (
            event matches LaunchEvent::AppInterfaces(ports) && ports@.len() == 0)
            &&& after != step && after == (LaunchStep::<Seq<char>, E>::AttachAppInterface {
                admin_port,
                app_port,
            }) <==> step == (LaunchStep::<Seq<char>, E>::PickAppPort { admin_port }) && event
                == LaunchEvent::<Seq<char>, E>::Port(Some(app_port))
            &&& after != step && after == (LaunchStep::<Seq<char>, E>::DrawSeed {
                admin_port,
                app_port,
            }) <==> {
                ||| step == (LaunchStep::<Seq<char>, E>::ListAppInterfaces { admin_port }) && (
                event matches LaunchEvent::AppInterfaces(ports) && ports@.len() > 0 && ports@[0]
                    == app_port)
                ||| step == (LaunchStep::<Seq<char>, E>::AttachAppInterface {
                    admin_port,
                    app_port,
                }) && event is Done
            }
        }),
{
}

/// The app is installed with the seed that was drawn, and a launch finishes with its two ports
/// exactly when that is done.
pub proof fn launch_finishes_with_the_installation<E>(
    launch: Launch<Seq<char>, E>,
    event: LaunchEvent<Seq<char>, E>,
    admin_port: u16,
    app_port: u16,
    network_seed: Option<Seq<char>>,
)
    ensures
        ({
            let step = launch.step;
            let after = launch.next(event).step;
            &&& after != step && after == (LaunchStep::<Seq<char>, E>::InstallApp {
                admin_port,
                app_port,
                network_seed,
            }) <==> step == (LaunchStep::<Seq<char>, E>::DrawSeed { admin_port, app_port }) && (
            event matches LaunchEvent::Seed(seed) && network_seed == Some(seed))
            &&& after != step && after == (LaunchStep::<Seq<char>, E>::Finished {
                admin_port,
                app_port,
            }) <==> (step matches LaunchStep::InstallApp {
                admin_port: admin,
                app_port: app,
                ..
            } && admin == admin_port && app == app_port) && event is Done
        }),
{
}

/// A launch fails with the error as it came, or with one that says what did not answer; which of
/// them, and with which text, goes by the step that failed.
pub proof fn launch_errors_keep_their_kind<E>(
    launch: Launch<Seq<char>, E>,
    event: LaunchEvent<Seq<char>, E>,
    error: AppError<Seq<char>, E>,
)
    ensures
        ({
            let step = launch.step;
            let after = launch.next(event).step;
            after != step && after == (LaunchStep::<Seq<char>, E>::Failed { error }) <==> {
                ||| (step is CreateDir || step is InitializeKeystore || step is LaunchLair || step
                    is LaunchHolochain || step is InstallApp) && (
                event matches LaunchEvent::Failed(cause) && error == AppError::<Seq<char>, E>::Passed(
                    cause,
                ))
                ||| step is ConnectLair && (event matches LaunchEvent::FailedText(text) && error
                    == AppError::<Seq<char>, E>::LairKeystoreError(
                    LairKeystoreError::SpawnMetaLairClientError(text),
                ))
                ||| step is FindSidecar && (event matches LaunchEvent::FailedText(text) && error
                    == AppError::<Seq<char>, E>::LaunchHolochainError(
                    LaunchHolochainError::SidecarBinaryCommandError(text),
                ))
                ||| step is Reconnect && (event matches LaunchEvent::FailedText(text) && error
                    == AppError::<Seq<char>, E>::LaunchHolochainError(
                    LaunchHolochainError::CouldNotConnectToConductor(text),
                ))
                ||| step is ListAppInterfaces && (event matches LaunchEvent::FailedText(text)
                    && error == AppError::<Seq<char>, E>::LaunchHolochainError(
                    LaunchHolochainError::CouldNotConnectToConductor(
                        "Could not list app interfaces: "@ + text,
                    ),
                ))
                ||| step is AttachAppInterface && event is FailedText && error == AppError::<Seq<char>, E>::LaunchHolochainError(
                    LaunchHolochainError::CouldNotConnectToConductor(
                        "Could not attach app interface"@,
                    ),
                )
            }
        }),
{
}

/// The app ends over a launch exactly for want of a port, on an address that cannot be parsed, the
/// first of them before the second, and on a configuration that cannot be written; each has its
/// message.
pub proof fn app_ends_with_its_message<E>(
    launch: Launch<Seq<char>, E>,
    event: LaunchEvent<Seq<char>, E>,
    message: Seq<char>,
)
    ensures
        ({
            let step = launch.step;
            let after = launch.next(event).step;
            let unwrapped = "called `Result::unwrap()` on an `Err` value"@;
            after != step && after == (LaunchStep::<Seq<char>, E>::Aborted { message }) <==> {
                ||| step is PickAdminPort && event == LaunchEvent::<Seq<char>, E>::Port(None)
                    && message == "Cannot find any unused port"@
                ||| step is PickAppPort && event == LaunchEvent::<Seq<char>, E>::Port(None) && message
                    == "No ports free"@
                ||| step is ParseUrls && (event matches LaunchEvent::Urls(Err(error), _) && message
                    == unwrapped + ": "@ + error)
                ||| step is ParseUrls && (event matches LaunchEvent::Urls(Ok(_), Err(error))
                    && message == unwrapped + ": "@ + error)
                ||| step is SerializeConfig && (event matches LaunchEvent::FailedText(error)
                    && message == "Could not convert conductor config to string"@ + ": "@ + error)
                ||| step is WriteConfig && (event matches LaunchEvent::FailedText(error)
                    && message == "Could not write conductor config"@ + ": "@ + error)
            }
        }),
{
}

/// The services that the conductor is configured with are the bootstrap service and the proxy of
/// the network, in this order, as they are parsed.
pub proof fn network_services_are_parsed<E>(
    launch: Launch<Seq<char>, E>,
    config: ConductorConfig<Seq<char>>,
)
    requires
        launch.step is ParseUrls,
        ({
            let after = launch.next(parsed_urls()).step;
            ||| after == (LaunchStep::<Seq<char>, E>::LinkLair { config })
            ||| after == (LaunchStep::<Seq<char>, E>::SerializeConfig { config })
        }),
    ensures
        parsed_url("https://bootstrap.holo.host"@) == Ok::<Seq<char>, Seq<char>>(
            config.bootstrap_service,
        ),
        parsed_url(
            "kitsune-proxy://f3gH2VMkJ4qvZJOXx0ccL_Zo5n-s_CnBjSzAsEHHDCA/kitsune-quic/h/137.184.142.208/p/5788/--"@,
        ) == Ok::<Seq<char>, Seq<char>>(config.transport.proxy_url),
        launch.step == (LaunchStep::<Seq<char>, E>::ParseUrls {
            lair_url: config.keystore_url,
            admin_port: config.admin_port,
        }),
{
}

/// The seed that an app is installed with, once it is drawn, reads back as the number that was
/// drawn.
pub proof fn drawn_seed_is_installed<E>(launch: Launch<Seq<char>, E>, n: u128)
    requires
        launch.step is DrawSeed,
    ensures
        launch.next(drawn_seed(n)).step matches LaunchStep::InstallApp { network_seed, .. }
            && network_seed is Some && uuid_value(network_seed->Some_0) == n,
{
    seed_reads_back(n);
}

/// Which directory a step works on: the keystore's for whatever touches the keystore, the
/// conductor's for its configuration file, the one that is looked for or made, and none else.
pub proof fn steps_work_on_their_directory<E>(step: LaunchStep<Seq<char>, E>)
    ensures
        step.dir_of() == Some(Dir::Keystore) <==> step is InitializeKeystore || step is LaunchLair
            || step is LinkLair || step == (LaunchStep::<Seq<char>, E>::CheckDir {
            dir: Dir::Keystore,
        }) || step == (LaunchStep::<Seq<char>, E>::CreateDir { dir: Dir::Keystore }),
        step.dir_of() == Some(Dir::Conductor) <==> step is WriteConfig || step is LaunchHolochain
            || step == (LaunchStep::<Seq<char>, E>::CheckDir { dir: Dir::Conductor }) || step == (
        LaunchStep::<Seq<char>, E>::CreateDir { dir: Dir::Conductor }),
{
}

/// The conductor is started with the file that the configuration was written to, and that file is
/// not the binary.
pub proof fn steps_work_with_their_file<E>(step: LaunchStep<Seq<char>, E>)
    ensures
        step.file_of() == Some("conductor-config.yaml"@) <==> step is WriteConfig || step
            is LaunchHolochain,
        step.file_of() == Some("holochain-wc-v0.1.6"@) <==> step is FindSidecar,
        step.file_of() is Some ==> step is WriteConfig || step is LaunchHolochain || step
            is FindSidecar,
{
    reveal_strlit("conductor-config.yaml");
    reveal_strlit("holochain-wc-v0.1.6");
    assert("conductor-config.yaml"@.len() == 21);
    assert("holochain-wc-v0.1.6"@.len() == 19);
}

/// Both attempts to connect, and nothing else, go to the admin port on this machine: the address
/// ends in the port as a decimal number.
pub proof fn attempts_go_to_the_admin_port<E>(step: LaunchStep<Seq<char>, E>)
    ensures
        step.url_of() is Some <==> step is Connect || step is Reconnect,
        step.url_of() matches Some(url) ==> exists|port: Seq<char>|
            url == "ws://localhost:"@ + port && #[trigger] is_decimal_of(
                port,
                step.admin_port()->Some_0 as nat,
            ),
{
    if step.admin_port() is Some {
        decimal_text_is_decimal(step.admin_port()->Some_0 as nat);
    }
}

/// The address of the admin interface ends in its port, as a decimal number.
pub proof fn admin_url_ends_in_the_port(admin_port: u16)
    ensures
        exists|port: Seq<char>|
            admin_url(admin_port) == "ws://localhost:"@ + port && #[trigger] is_decimal_of(
                port,
                admin_port as nat,
            ),
{
    decimal_text_is_decimal(admin_port as nat);
}

/// A conductor that was just started gets a tenth of a second, one that did not answer five
/// seconds, with a notice of it; no other step waits or logs.
pub proof fn only_the_conductor_is_waited_for<E>(step: LaunchStep<Seq<char>, E>)
    ensures
        step.pause_of() == Some(100u64) <==> step is Settle,
        step.pause_of() == Some(5000u64) <==> step is AwaitRetry,
        step.pause_of() is Some ==> step is Settle || step is AwaitRetry,
        step.notice_of() == Some(
            "[HOLOCHAIN] Could not connect to the AdminWebsocket. Starting another attempt in 5 seconds."@,
        ) <==> step is AwaitRetry,
        step.notice_of() is Some ==> step is AwaitRetry,
{
}

/// The password goes to the keystore, when it is initialized, started and connected to, and to
/// the conductor; how much is logged goes to the two processes that are started.
pub proof fn password_and_log_level_go_to_the_processes<E>(step: LaunchStep<Seq<char>, E>)
    ensures
        step.takes_password() <==> step is InitializeKeystore || step is LaunchLair || step
            is ConnectLair || step is LaunchHolochain,
        step.starts_process() <==> step is LaunchLair || step is LaunchHolochain,
{
}

/// The keystore was found initialized.
pub open spec fn keystore_found<E>() -> spec_fn(
    LaunchStep<Seq<char>, E>,
    LaunchEvent<Seq<char>, E>,
) -> bool {
    |step: LaunchStep<Seq<char>, E>, event: LaunchEvent<Seq<char>, E>|
        step is CheckKeystore && event == LaunchEvent::<Seq<char>, E>::Exists(true)
}

/// The keystore was found not to be initialized.
pub open spec fn keystore_missed<E>() -> spec_fn(
    LaunchStep<Seq<char>, E>,
    LaunchEvent<Seq<char>, E>,
) -> bool {
    |step: LaunchStep<Seq<char>, E>, event: LaunchEvent<Seq<char>, E>|
        step is CheckKeystore && event == LaunchEvent::<Seq<char>, E>::Exists(false)
}

/// The keystore was initialized.
pub open spec fn keystore_initialized<E>() -> spec_fn(
    LaunchStep<Seq<char>, E>,
    LaunchEvent<Seq<char>, E>,
) -> bool {
    |step: LaunchStep<Seq<char>, E>, event: LaunchEvent<Seq<char>, E>|
        step is InitializeKeystore && event is Done
}

/// This directory was found.
pub open spec fn dir_found<E>(dir: Dir) -> spec_fn(
    LaunchStep<Seq<char>, E>,
    LaunchEvent<Seq<char>, E>,
) -> bool {
    |step: LaunchStep<Seq<char>, E>, event: LaunchEvent<Seq<char>, E>|
        step == (LaunchStep::<Seq<char>, E>::CheckDir { dir }) && event == LaunchEvent::<
            Seq<char>,
            E,
        >::Exists(true)
}

/// This directory was made.
pub open spec fn dir_made<E>(dir: Dir) -> spec_fn(
    LaunchStep<Seq<char>, E>,
    LaunchEvent<Seq<char>, E>,
) -> bool {
    |step: LaunchStep<Seq<char>, E>, event: LaunchEvent<Seq<char>, E>|
        step == (LaunchStep::<Seq<char>, E>::CreateDir { dir }) && event is Done
}

/// The keystore was linked, or could not be.
pub open spec fn keystore_link_tried<E>() -> spec_fn(
    LaunchStep<Seq<char>, E>,
    LaunchEvent<Seq<char>, E>,
) -> bool {
    |step: LaunchStep<Seq<char>, E>, event: LaunchEvent<Seq<char>, E>|
        step is LinkLair && (event is Done || event is Failed)
}

/// The conductor answered at once.
pub open spec fn connected_at_once<E>() -> spec_fn(
    LaunchStep<Seq<char>, E>,
    LaunchEvent<Seq<char>, E>,
) -> bool {
    |step: LaunchStep<Seq<char>, E>, event: LaunchEvent<Seq<char>, E>|
        step is Connect && event is Done
}

/// The conductor did not answer at once.
pub open spec fn first_attempt_failed<E>() -> spec_fn(
    LaunchStep<Seq<char>, E>,
    LaunchEvent<Seq<char>, E>,
) -> bool {
    |step: LaunchStep<Seq<char>, E>, event: LaunchEvent<Seq<char>, E>|
        step is Connect && event is FailedText
}

/// The conductor answered the second attempt.
pub open spec fn connected_again<E>() -> spec_fn(
    LaunchStep<Seq<char>, E>,
    LaunchEvent<Seq<char>, E>,
) -> bool {
    |step: LaunchStep<Seq<char>, E>, event: LaunchEvent<Seq<char>, E>|
        step is Reconnect && event is Done
}

/// This YAML was made of the configuration.
pub open spec fn config_serialized<E>(yaml: Seq<char>) -> spec_fn(
    LaunchStep<Seq<char>, E>,
    LaunchEvent<Seq<char>, E>,
) -> bool {
    |step: LaunchStep<Seq<char>, E>, event: LaunchEvent<Seq<char>, E>|
        step is SerializeConfig && event == LaunchEvent::<Seq<char>, E>::Yaml(yaml)
}

proof fn early_stages_happen_once<E>(
    password: Seq<char>,
    unix_family: bool,
    events: Seq<LaunchEvent<Seq<char>, E>>,
)
    ensures
        ({
            let launch = Launch::initial(password, unix_family);
            let step = launch.run(events).step;
            let left = step.outcomes_left();
            let on = !(step is Failed || step is Aborted);
            &&& launch.run(events).unix_family == unix_family
            &&& launch.did(events, dir_found(Dir::Keystore)) ==> left <= 22
            &&& launch.did(events, dir_made(Dir::Keystore)) ==> left <= 22
            &&& !(launch.did(events, dir_found(Dir::Keystore)) && launch.did(
                events,
                dir_made(Dir::Keystore),
            ))
            &&& on && left <= 22 ==> launch.did(events, dir_found(Dir::Keystore)) || launch.did(
                events,
                dir_made(Dir::Keystore),
            )
            &&& launch.did(events, dir_found(Dir::Conductor)) ==> left <= 20
            &&& launch.did(events, dir_made(Dir::Conductor)) ==> left <= 20
            &&& !(launch.did(events, dir_found(Dir::Conductor)) && launch.did(
                events,
                dir_made(Dir::Conductor),
            ))
            &&& on && left <= 20 ==> launch.did(events, dir_found(Dir::Conductor)) || launch.did(
                events,
                dir_made(Dir::Conductor),
            )
            &&& launch.did(events, keystore_found()) ==> left <= 18
            &&& launch.did(events, keystore_missed()) ==> left <= 19
            &&& launch.did(events, keystore_initialized()) ==> left <= 18 && launch.did(
                events,
                keystore_missed(),
            )
            &&& !(launch.did(events, keystore_found()) && launch.did(events, keystore_missed()))
            &&& on && left <= 19 ==> launch.did(events, keystore_found()) || launch.did(
                events,
                keystore_missed(),
            )
            &&& on && left <= 18 ==> launch.did(events, keystore_found()) || launch.did(
                events,
                keystore_initialized(),
            )
            &&& step is InitializeKeystore ==> launch.did(events, keystore_missed())
        }),
    decreases events.len(),
{
    if events.len() > 0 {
        early_stages_happen_once(password, unix_family, events.drop_last());
    }
}

proof fn late_stages_happen_once<E>(
    password: Seq<char>,
    unix_family: bool,
    events: Seq<LaunchEvent<Seq<char>, E>>,
)
    ensures
        ({
            let launch = Launch::initial(password, unix_family);
            let step = launch.run(events).step;
            let left = step.outcomes_left();
            let on = !(step is Failed || step is Aborted);
            &&& launch.run(events).unix_family == unix_family
            &&& launch.did(events, keystore_link_tried()) ==> unix_family
            &&& step is LinkLair ==> unix_family
            &&& on && left <= 13 && unix_family ==> launch.did(events, keystore_link_tried())
            &&& launch.did(events, connected_at_once()) ==> left <= 5
            &&& launch.did(events, first_attempt_failed()) ==> left <= 7
            &&& launch.did(events, connected_again()) ==> left <= 5 && launch.did(
                events,
                first_attempt_failed(),
            )
            &&& !(launch.did(events, connected_at_once()) && launch.did(
                events,
                first_attempt_failed(),
            ))
            &&& step is AwaitRetry || step is Reconnect ==> launch.did(
                events,
                first_attempt_failed(),
            )
            &&& on && left <= 5 ==> launch.did(events, connected_at_once()) || launch.did(
                events,
                connected_again(),
            )
            &&& step matches LaunchStep::WriteConfig { yaml, .. } ==> launch.did(
                events,
                config_serialized(yaml),
            )
        }),
    decreases events.len(),
{
    if events.len() > 0 {
        late_stages_happen_once(password, unix_family, events.drop_last());
    }
}

/// A launch that is past its directories found or made each of them, and never both.
pub proof fn directories_are_found_or_made<E>(
    password: Seq<char>,
    unix_family: bool,
    events: Seq<LaunchEvent<Seq<char>, E>>,
    dir: Dir,
)
    ensures
        ({
            let launch = Launch::initial(password, unix_family);
            let step = launch.run(events).step;
            &&& !(step is CheckDir || step is CreateDir || step is Failed || step is Aborted) ==> (
            launch.did(events, dir_found(dir)) || launch.did(events, dir_made(dir)))
            &&& !(launch.did(events, dir_found(dir)) && launch.did(events, dir_made(dir)))
        }),
{
    early_stages_happen_once(password, unix_family, events);
}

/// A launch that stands at the start of the keystore's server or beyond found the keystore
/// initialized or initialized it, on every system and never both; it initialized exactly what was
/// not initialized before.
pub proof fn server_runs_on_an_initialized_keystore<E>(
    password: Seq<char>,
    unix_family: bool,
    events: Seq<LaunchEvent<Seq<char>, E>>,
)
    ensures
        ({
            let launch = Launch::initial(password, unix_family);
            let step = launch.run(events).step;
            let begun = !(step is CheckDir || step is CreateDir || step is CheckKeystore || step
                is InitializeKeystore || step is Failed || step is Aborted);
            &&& begun ==> (launch.did(events, keystore_found()) || launch.did(
                events,
                keystore_initialized(),
            ))
            &&& begun ==> (launch.did(events, keystore_missed()) <==> launch.did(
                events,
                keystore_initialized(),
            ))
            &&& !(launch.did(events, keystore_found()) && launch.did(
                events,
                keystore_initialized(),
            ))
        }),
{
    early_stages_happen_once(password, unix_family, events);
}

/// The keystore is linked on systems of the Unix family, before the configuration is written, and
/// on no other.
pub proof fn keystore_is_linked_on_unix<E>(
    password: Seq<char>,
    unix_family: bool,
    events: Seq<LaunchEvent<Seq<char>, E>>,
)
    ensures
        ({
            let launch = Launch::initial(password, unix_family);
            let step = launch.run(events).step;
            &&& launch.did(events, keystore_link_tried()) ==> unix_family
            &&& unix_family && (step is SerializeConfig || step is WriteConfig || step is Finished)
                ==> launch.did(events, keystore_link_tried())
            &&& step matches LaunchStep::WriteConfig { yaml, .. } ==> launch.did(
                events,
                config_serialized(yaml),
            )
        }),
{
    late_stages_happen_once(password, unix_family, events);
}

/// A launch that lists the app interfaces or is beyond that has connected to the conductor: at
/// once, or at the second attempt after the first one failed, and never both.
pub proof fn conductor_answers_once<E>(
    password: Seq<char>,
    unix_family: bool,
    events: Seq<LaunchEvent<Seq<char>, E>>,
)
    ensures
        ({
            let launch = Launch::initial(password, unix_family);
            let step = launch.run(events).step;
            let at_once = launch.did(events, connected_at_once());
            let again = launch.did(events, connected_again()) && launch.did(
                events,
                first_attempt_failed(),
            );
            &&& step is ListAppInterfaces || step is PickAppPort || step is AttachAppInterface
                || step is DrawSeed || step is InstallApp || step is Finished ==> (at_once || again)
            &&& !(at_once && again)
        }),
{
    late_stages_happen_once(password, unix_family, events);
}

/// A launch that is taken on keeps its terms, and never rests where nothing is to be done outside:
/// once the admin port is picked it has the configuration, with the services of the network as
/// they are parsed, or ends the app; once the app port is known it has a seed to install the app
/// with.
pub proof fn launch_rests_only_for_outside_work<E>(
    before: Launch<String, E>,
    event: LaunchEvent<String, E>,
    after: Launch<String, E>,
)
    requires
        call_ensures(crate::launch::launch::<E>, (before, event), after),
    ensures
        after@.password == before@.password,
        after@.log_level == before@.log_level,
        after@.unix_family == before@.unix_family,
        !(after@.step is ParseUrls),
        !(after@.step is DrawSeed),
        before@.step matches LaunchStep::PickAdminPort { lair_url } ==> event matches LaunchEvent::Port(
            Some(admin_port),
        ) ==> ({
            let bootstrap = parsed_url("https://bootstrap.holo.host"@);
            let proxy = parsed_url(
                "kitsune-proxy://f3gH2VMkJ4qvZJOXx0ccL_Zo5n-s_CnBjSzAsEHHDCA/kitsune-quic/h/137.184.142.208/p/5788/--"@,
            );
            &&& bootstrap is Ok && proxy is Ok ==> {
                &&& after@.step is LinkLair <==> before.unix_family
                &&& after@.step is SerializeConfig <==> !before.unix_family
                &&& after@.step.lair_url() == Some(lair_url)
                &&& after@.step.admin_port() == Some(admin_port)
                &&& after@.step matches LaunchStep::LinkLair { config }
                    ==> config.bootstrap_service == bootstrap->Ok_0 && config.transport.proxy_url
                    == proxy->Ok_0
                &&& after@.step matches LaunchStep::SerializeConfig { config }
                    ==> config.bootstrap_service == bootstrap->Ok_0 && config.transport.proxy_url
                    == proxy->Ok_0
            }
            &&& bootstrap is Err || proxy is Err ==> after@.step is Aborted
        }),
        before@.step matches LaunchStep::ListAppInterfaces {
            admin_port,
        } ==> event matches LaunchEvent::AppInterfaces(ports) ==> ports@.len() > 0 ==> (
        after@.step matches LaunchStep::InstallApp {
            admin_port: admin,
            app_port: app,
            network_seed,
        } && admin == admin_port && app == ports@[0] && network_seed is Some
            && network_seed->Some_0.len() == 36),
        before@.step matches LaunchStep::AttachAppInterface { admin_port, app_port } ==> event
            is Done ==> (after@.step matches LaunchStep::InstallApp {
            admin_port: admin,
            app_port: app,
            network_seed,
        } && admin == admin_port && app == app_port && network_seed is Some
            && network_seed->Some_0.len() == 36),
        !(before@.step is PickAdminPort || before@.step is ListAppInterfaces || before@.step
            is AttachAppInterface || before@.step is ParseUrls || before@.step is DrawSeed)
            ==> after@ == before@.next(event@),
{
}

/// A step that is given the password is given that of the launch, and a process that is started
/// logs as much as the launch says.
pub proof fn steps_get_the_terms_of_the_launch<E>(
    launch: Launch<String, E>,
    password: Option<String>,
    log_level: Option<LogLevel>,
)
    requires
        call_ensures(Launch::<String, E>::step_password, (&launch,), password),
        call_ensures(Launch::<String, E>::step_log_level, (&launch,), log_level),
    ensures
        password is Some <==> launch.step is InitializeKeystore || launch.step is LaunchLair
            || launch.step is ConnectLair || launch.step is LaunchHolochain,
        password matches Some(given) ==> given@ == launch.password@,
        log_level is Some <==> launch.step is LaunchLair || launch.step is LaunchHolochain,
        log_level matches Some(given) ==> given == launch.log_level,
{
}

} // verus!
