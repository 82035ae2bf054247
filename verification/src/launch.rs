//! The launch of the keystore and of the conductor, from an empty profile to an open app
//! interface.
//!
//! A launch is a row of steps. The step that a `Launch` stands at says what is to be done next;
//! whoever does it reports the outcome as a `LaunchEvent`, and `launch` says what comes then.

use vstd::prelude::*;
use vstd::string::*;

use crate::config::{
    conductor_config, conductor_config_of, optional_text, parsed_url, service_urls, text_result,
    ConductorConfig, Dir, BOOTSTRAP_SERVICE, PROXY_URL,
};
use crate::errors::{AppError, LairKeystoreError, LaunchHolochainError};
use crate::seed::{is_random_uuid, random_network_seed, uuid_chars};
use crate::text::{decimal, decimal_text};

verus! {

/// The password of the keystore.
pub const PASSWORD: &'static str = "pass";

/// The file in the conductor's directory that the configuration is written to.
pub const CONDUCTOR_CONFIG_FILE: &'static str = "conductor-config.yaml";

/// The name of the conductor's binary.
pub const HOLOCHAIN_SIDECAR: &'static str = "holochain-wc-v0.1.6";

/// How long a conductor that was just started is left alone, in milliseconds.
pub const SETTLE_MILLIS: u64 = 100;

/// How long to wait for a conductor that did not answer, in milliseconds.
pub const RETRY_MILLIS: u64 = 5000;

/// What is logged about a conductor that did not answer.
pub const RETRY_NOTICE: &'static str = "[HOLOCHAIN] Could not connect to the AdminWebsocket. Starting another attempt in 5 seconds.";

/// How much the started processes log.
#[derive(Clone, Copy, Debug, PartialEq, Eq, Structural)]
pub enum LogLevel {
    /// Errors.
    Error,
    /// And warnings.
    Warn,
    /// And notes on the progress.
    Info,
    /// And details for debugging.
    Debug,
    /// And everything else.
    Trace,
}

/// A step of a launch. `T` is the type of texts, `E` that of the errors of other components.
pub enum LaunchStep<T, E> {
    /// Look whether a directory is there.
    CheckDir { dir: Dir },
    /// Make a directory, and those above it.
    CreateDir { dir: Dir },
    /// Look whether the keystore was initialized before.
    CheckKeystore,
    /// Initialize the keystore with the password.
    InitializeKeystore,
    /// Start the keystore server, with the password.
    LaunchLair,
    /// Start a client of the keystore server, with the password.
    ConnectLair { lair_url: T },
    /// Pick an unused port for the conductor's admin interface.
    PickAdminPort { lair_url: T },
    /// Parse the addresses of the network services.
    ParseUrls { lair_url: T, admin_port: u16 },
    /// Put a link to the keystore's directory where its path is short.
    LinkLair { config: ConductorConfig<T> },
    /// Write the configuration as YAML.
    SerializeConfig { config: ConductorConfig<T> },
    /// Write the YAML to the configuration file.
    WriteConfig { yaml: T, admin_port: u16 },
    /// Find the conductor's binary.
    FindSidecar { admin_port: u16 },
    /// Start the conductor, with the configuration file and the password.
    LaunchHolochain { admin_port: u16 },
    /// Wait for the conductor that was just started.
    Settle { admin_port: u16 },
    /// Connect to the admin interface.
    Connect { admin_port: u16 },
    /// Log a notice and wait for the conductor that did not answer.
    AwaitRetry { admin_port: u16 },
    /// Connect to the admin interface once more.
    Reconnect { admin_port: u16 },
    /// List the app interfaces that the conductor has open.
    ListAppInterfaces { admin_port: u16 },
    /// Pick an unused port for an app interface.
    PickAppPort { admin_port: u16 },
    /// Open an app interface.
    AttachAppInterface { admin_port: u16, app_port: u16 },
    /// Draw a network seed.
    DrawSeed { admin_port: u16, app_port: u16 },
    /// Install the app, unless it is installed.
    InstallApp { admin_port: u16, app_port: u16, network_seed: Option<T> },
    /// The app can be used.
    Finished { admin_port: u16, app_port: u16 },
    /// The launch failed.
    Failed { error: AppError<T, E> },
    /// The app cannot go on; it ends with this message.
    Aborted { message: T },
}

/// The outcome of a step.
pub enum LaunchEvent<T, E> {
    /// Whether what was looked for is there.
    Exists(bool),
    /// The step is done.
    Done,
    /// The keystore server runs at this address.
    LairUrl(T),
    /// The port that was picked, if one was free.
    Port(Option<u16>),
    /// The bootstrap service and the proxy, or why they cannot be parsed.
    Urls(Result<T, T>, Result<T, T>),
    /// The configuration as YAML.
    Yaml(T),
    /// The ports of the app interfaces.
    AppInterfaces(Vec<u16>),
    /// The network seed that was drawn.
    Seed(T),
    /// The step failed; the error itself.
    Failed(E),
    /// The step failed; how the error shows itself in a message.
    FailedText(T),
}

/// A launch under way.
pub struct Launch<T, E> {
    /// The password of the keystore, which every process of the launch is given.
    pub password: T,
    /// How much the processes log.
    pub log_level: LogLevel,
    /// The app runs on a system of the Unix family.
    pub unix_family: bool,
    /// The next step.
    pub step: LaunchStep<T, E>,
}

impl<E> View for LaunchStep<String, E> {
    type V = LaunchStep<Seq<char>, E>;

    open spec fn view(&self) -> Self::V {
        match *self {
            LaunchStep::CheckDir { dir } => LaunchStep::CheckDir { dir },
            LaunchStep::CreateDir { dir } => LaunchStep::CreateDir { dir },
            LaunchStep::CheckKeystore => LaunchStep::CheckKeystore,
            LaunchStep::InitializeKeystore => LaunchStep::InitializeKeystore,
            LaunchStep::LaunchLair => LaunchStep::LaunchLair,
            LaunchStep::ConnectLair { lair_url } => LaunchStep::ConnectLair { lair_url: lair_url@ },
            LaunchStep::PickAdminPort { lair_url } => {
                LaunchStep::PickAdminPort { lair_url: lair_url@ }
            },
            LaunchStep::ParseUrls { lair_url, admin_port } => {
                LaunchStep::ParseUrls { lair_url: lair_url@, admin_port }
            },
            LaunchStep::LinkLair { config } => LaunchStep::LinkLair { config: config@ },
            LaunchStep::SerializeConfig { config } => {
                LaunchStep::SerializeConfig { config: config@ }
            },
            LaunchStep::WriteConfig { yaml, admin_port } => {
                LaunchStep::WriteConfig { yaml: yaml@, admin_port }
            },
            LaunchStep::FindSidecar { admin_port } => LaunchStep::FindSidecar { admin_port },
            LaunchStep::LaunchHolochain { admin_port } => {
                LaunchStep::LaunchHolochain { admin_port }
            },
            LaunchStep::Settle { admin_port } => LaunchStep::Settle { admin_port },
            LaunchStep::Connect { admin_port } => LaunchStep::Connect { admin_port },
            LaunchStep::AwaitRetry { admin_port } => LaunchStep::AwaitRetry { admin_port },
            LaunchStep::Reconnect { admin_port } => LaunchStep::Reconnect { admin_port },
            LaunchStep::ListAppInterfaces { admin_port } => {
                LaunchStep::ListAppInterfaces { admin_port }
            },
            LaunchStep::PickAppPort { admin_port } => LaunchStep::PickAppPort { admin_port },
            LaunchStep::AttachAppInterface { admin_port, app_port } => {
                LaunchStep::AttachAppInterface { admin_port, app_port }
            },
            LaunchStep::DrawSeed { admin_port, app_port } => {
                LaunchStep::DrawSeed { admin_port, app_port }
            },
            LaunchStep::InstallApp { admin_port, app_port, network_seed } => {
                LaunchStep::InstallApp {
                    admin_port,
                    app_port,
                    network_seed: optional_text(network_seed),
                }
            },
            LaunchStep::Finished { admin_port, app_port } => {
                LaunchStep::Finished { admin_port, app_port }
            },
            LaunchStep::Failed { error } => LaunchStep::Failed { error: error@ },
            LaunchStep::Aborted { message } => LaunchStep::Aborted { message: message@ },
        }
    }
}

impl<E> View for LaunchEvent<String, E> {
    type V = LaunchEvent<Seq<char>, E>;

    open spec fn view(&self) -> Self::V {
        match *self {
            LaunchEvent::Exists(exists) => LaunchEvent::Exists(exists),
            LaunchEvent::Done => LaunchEvent::Done,
            LaunchEvent::LairUrl(url) => LaunchEvent::LairUrl(url@),
            LaunchEvent::Port(port) => LaunchEvent::Port(port),
            LaunchEvent::Urls(bootstrap, proxy) => {
                LaunchEvent::Urls(text_result(bootstrap), text_result(proxy))
            },
            LaunchEvent::Yaml(yaml) => LaunchEvent::Yaml(yaml@),
            LaunchEvent::AppInterfaces(ports) => LaunchEvent::AppInterfaces(ports),
            LaunchEvent::Seed(seed) => LaunchEvent::Seed(seed@),
            LaunchEvent::Failed(error) => LaunchEvent::Failed(error),
            LaunchEvent::FailedText(text) => LaunchEvent::FailedText(text@),
        }
    }
}

impl<E> View for Launch<String, E> {
    type V = Launch<Seq<char>, E>;

    open spec fn view(&self) -> Self::V {
        Launch {
            password: self.password@,
            log_level: self.log_level,
            unix_family: self.unix_family,
            step: self.step@,
        }
    }
}

/// The message of a panic on an error that was not expected.
pub open spec fn expect_message(message: Seq<char>, error: Seq<char>) -> Seq<char> {
    message + ": "@ + error
}

/// The message of a panic on an error that nothing was said about.
pub open spec fn unwrap_message(error: Seq<char>) -> Seq<char> {
    expect_message("called `Result::unwrap()` on an `Err` value"@, error)
}

/// The step after a directory is known to be there: the keystore's comes first, then the
/// conductor's.
pub open spec fn step_after_dir<T, E>(dir: Dir) -> LaunchStep<T, E> {
    match dir {
        Dir::Keystore => LaunchStep::CheckDir { dir: Dir::Conductor },
        Dir::Conductor => LaunchStep::CheckKeystore,
    }
}

/// A launch that failed because the conductor does not answer.
pub open spec fn no_conductor<E>(text: Seq<char>) -> LaunchStep<Seq<char>, E> {
    LaunchStep::Failed {
        error: AppError::LaunchHolochainError(
            LaunchHolochainError::CouldNotConnectToConductor(text),
        ),
    }
}

impl<E> LaunchEvent<Seq<char>, E> {
    /// The step did not give what it was to give.
    pub open spec fn is_failure(self) -> bool {
        match self {
            LaunchEvent::Failed(_) | LaunchEvent::FailedText(_) => true,
            LaunchEvent::Port(port) => port is None,
            LaunchEvent::Urls(bootstrap, proxy) => bootstrap is Err || proxy is Err,
            _ => false,
        }
    }
}

impl<E> LaunchStep<Seq<char>, E> {
    /// Nothing comes after this step.
    pub open spec fn is_end(self) -> bool {
        self is Finished || self is Failed || self is Aborted
    }

    /// The outcome is one that this step can have.
    pub open spec fn answered_by(self, event: LaunchEvent<Seq<char>, E>) -> bool {
        match self {
            LaunchStep::CheckDir { .. } | LaunchStep::CheckKeystore => event is Exists,
            LaunchStep::CreateDir { .. }
            | LaunchStep::InitializeKeystore
            | LaunchStep::LinkLair { .. }
            | LaunchStep::LaunchHolochain { .. }
            | LaunchStep::InstallApp { .. } => event is Done || event is Failed,
            LaunchStep::LaunchLair => event is LairUrl || event is Failed,
            LaunchStep::ConnectLair { .. }
            | LaunchStep::WriteConfig { .. }
            | LaunchStep::FindSidecar { .. }
            | LaunchStep::Connect { .. }
            | LaunchStep::Reconnect { .. }
            | LaunchStep::AttachAppInterface { .. } => event is Done || event is FailedText,
            LaunchStep::PickAdminPort { .. } | LaunchStep::PickAppPort { .. } => event is Port,
            LaunchStep::ParseUrls { .. } => event is Urls,
            LaunchStep::SerializeConfig { .. } => event is Yaml || event is FailedText,
            LaunchStep::Settle { .. } | LaunchStep::AwaitRetry { .. } => event is Done,
            LaunchStep::ListAppInterfaces { .. } => event is AppInterfaces || event is FailedText,
            LaunchStep::DrawSeed { .. } => event is Seed,
            LaunchStep::Finished { .. }
            | LaunchStep::Failed { .. }
            | LaunchStep::Aborted { .. } => false,
        }
    }

    /// The step that follows this one when it gave what it was to give.
    pub open spec fn after_success(
        self,
        event: LaunchEvent<Seq<char>, E>,
        unix_family: bool,
    ) -> Self {
        match self {
            LaunchStep::CheckDir { dir } => {
                if event->Exists_0 {
                    step_after_dir(dir)
                } else {
                    LaunchStep::CreateDir { dir }
                }
            },
            LaunchStep::CreateDir { dir } => step_after_dir(dir),
            LaunchStep::CheckKeystore => {
                if event->Exists_0 {
                    LaunchStep::LaunchLair
                } else {
                    LaunchStep::InitializeKeystore
                }
            },
            LaunchStep::InitializeKeystore => LaunchStep::LaunchLair,
            LaunchStep::LaunchLair => LaunchStep::ConnectLair { lair_url: event->LairUrl_0 },
            LaunchStep::ConnectLair { lair_url } => LaunchStep::PickAdminPort { lair_url },
            LaunchStep::PickAdminPort { lair_url } => {
                LaunchStep::ParseUrls { lair_url, admin_port: event->Port_0->Some_0 }
            },
            LaunchStep::ParseUrls { lair_url, admin_port } => {
                let config = conductor_config_of(
                    lair_url,
                    admin_port,
                    event->Urls_0->Ok_0,
                    event->Urls_1->Ok_0,
                );
                if unix_family {
                    LaunchStep::LinkLair { config }
                } else {
                    LaunchStep::SerializeConfig { config }
                }
            },
            LaunchStep::LinkLair { config } => LaunchStep::SerializeConfig { config },
            LaunchStep::SerializeConfig { config } => {
                LaunchStep::WriteConfig { yaml: event->Yaml_0, admin_port: config.admin_port }
            },
            LaunchStep::WriteConfig { admin_port, .. } => LaunchStep::FindSidecar { admin_port },
            LaunchStep::FindSidecar { admin_port } => LaunchStep::LaunchHolochain { admin_port },
            LaunchStep::LaunchHolochain { admin_port } => LaunchStep::Settle { admin_port },
            LaunchStep::Settle { admin_port } => LaunchStep::Connect { admin_port },
            LaunchStep::Connect { admin_port } => LaunchStep::ListAppInterfaces { admin_port },
            LaunchStep::AwaitRetry { admin_port } => LaunchStep::Reconnect { admin_port },
            LaunchStep::Reconnect { admin_port } => LaunchStep::ListAppInterfaces { admin_port },
            LaunchStep::ListAppInterfaces { admin_port } => {
                let ports = event->AppInterfaces_0@;
                if ports.len() > 0 {
                    LaunchStep::DrawSeed { admin_port, app_port: ports[0] }
                } else {
                    LaunchStep::PickAppPort { admin_port }
                }
            },
            LaunchStep::PickAppPort { admin_port } => {
                LaunchStep::AttachAppInterface { admin_port, app_port: event->Port_0->Some_0 }
            },
            LaunchStep::AttachAppInterface { admin_port, app_port } => {
                LaunchStep::DrawSeed { admin_port, app_port }
            },
            LaunchStep::DrawSeed { admin_port, app_port } => {
                LaunchStep::InstallApp { admin_port, app_port, network_seed: Some(event->Seed_0) }
            },
            LaunchStep::InstallApp { admin_port, app_port, .. } => {
                LaunchStep::Finished { admin_port, app_port }
            },
            end => end,
        }
    }

    /// The step that follows this one when it failed. A keystore without a link is good enough,
    /// and a conductor that does not answer gets a second chance. Where nothing else is said, the
    /// launch fails with the error as it came.
    pub open spec fn after_failure(self, event: LaunchEvent<Seq<char>, E>) -> Self {
        match self {
            LaunchStep::LinkLair { config } => LaunchStep::SerializeConfig { config },
            LaunchStep::Connect { admin_port } => LaunchStep::AwaitRetry { admin_port },
            LaunchStep::ConnectLair { .. } => LaunchStep::Failed {
                error: AppError::LairKeystoreError(
                    LairKeystoreError::SpawnMetaLairClientError(event->FailedText_0),
                ),
            },
            LaunchStep::FindSidecar { .. } => LaunchStep::Failed {
                error: AppError::LaunchHolochainError(
                    LaunchHolochainError::SidecarBinaryCommandError(event->FailedText_0),
                ),
            },
            LaunchStep::Reconnect { .. } => no_conductor(event->FailedText_0),
            LaunchStep::ListAppInterfaces { .. } => {
                no_conductor("Could not list app interfaces: "@ + event->FailedText_0)
            },
            LaunchStep::AttachAppInterface { .. } => {
                no_conductor("Could not attach app interface"@)
            },
            LaunchStep::PickAdminPort { .. } => {
                LaunchStep::Aborted { message: "Cannot find any unused port"@ }
            },
            LaunchStep::PickAppPort { .. } => LaunchStep::Aborted { message: "No ports free"@ },
            LaunchStep::ParseUrls { .. } => LaunchStep::Aborted {
                message: unwrap_message(
                    if event->Urls_0 is Err {
                        event->Urls_0->Err_0
                    } else {
                        event->Urls_1->Err_0
                    },
                ),
            },
            LaunchStep::SerializeConfig { .. } => LaunchStep::Aborted {
                message: expect_message(
                    "Could not convert conductor config to string"@,
                    event->FailedText_0,
                ),
            },
            LaunchStep::WriteConfig { .. } => LaunchStep::Aborted {
                message: expect_message("Could not write conductor config"@, event->FailedText_0),
            },
            _ => LaunchStep::Failed { error: AppError::Passed(event->Failed_0) },
        }
    }

    /// The step that follows this one on an outcome. An outcome that this step cannot have
    /// changes nothing.
    pub open spec fn next(self, event: LaunchEvent<Seq<char>, E>, unix_family: bool) -> Self {
        if !self.answered_by(event) {
            self
        } else if event.is_failure() {
            self.after_failure(event)
        } else {
            self.after_success(event, unix_family)
        }
    }
}

impl<E> Launch<Seq<char>, E> {
    /// A launch that has not begun.
    pub open spec fn initial(password: Seq<char>, unix_family: bool) -> Self {
        Launch {
            password,
            log_level: LogLevel::Warn,
            unix_family,
            step: LaunchStep::CheckDir { dir: Dir::Keystore },
        }
    }

    /// The launch after an outcome of its step.
    pub open spec fn next(self, event: LaunchEvent<Seq<char>, E>) -> Self {
        Launch { step: self.step.next(event, self.unix_family), ..self }
    }
}

fn message_of_expect(message: &str, error: String) -> (text: String)
    ensures
        text@ == expect_message(message@, error@),
{
    message.to_string().concat(": ").concat(error.as_str())
}

fn message_of_unwrap(error: String) -> (text: String)
    ensures
        text@ == unwrap_message(error@),
{
    message_of_expect("called `Result::unwrap()` on an `Err` value", error)
}

fn after_dir<E>(dir: Dir) -> (step: LaunchStep<String, E>)
    ensures
        step@ == step_after_dir::<Seq<char>, E>(dir),
{
    match dir {
        Dir::Keystore => LaunchStep::CheckDir { dir: Dir::Conductor },
        Dir::Conductor => LaunchStep::CheckKeystore,
    }
}

fn conductor_silent<E>(text: String) -> (step: LaunchStep<String, E>)
    ensures
        step@ == no_conductor::<E>(text@),
{
    LaunchStep::Failed {
        error: AppError::LaunchHolochainError(
            LaunchHolochainError::CouldNotConnectToConductor(text),
        ),
    }
}

impl<E> LaunchStep<String, E> {
    fn advance(self, event: LaunchEvent<String, E>, unix_family: bool) -> (step: Self)
        ensures
            step@ == self@.next(event@, unix_family),
    {
        match (self, event) {
            (LaunchStep::CheckDir { dir }, LaunchEvent::Exists(exists)) => {
                if exists {
                    after_dir(dir)
                } else {
                    LaunchStep::CreateDir { dir }
                }
            },
            (LaunchStep::CreateDir { dir }, LaunchEvent::Done) => after_dir(dir),
            (LaunchStep::CreateDir { .. }, LaunchEvent::Failed(error)) => {
                LaunchStep::Failed { error: AppError::Passed(error) }
            },
            (LaunchStep::CheckKeystore, LaunchEvent::Exists(initialized)) => {
                if initialized {
                    LaunchStep::LaunchLair
                } else {
                    LaunchStep::InitializeKeystore
                }
            },
            (LaunchStep::InitializeKeystore, LaunchEvent::Done) => LaunchStep::LaunchLair,
            (LaunchStep::InitializeKeystore, LaunchEvent::Failed(error)) => {
                LaunchStep::Failed { error: AppError::Passed(error) }
            },
            (LaunchStep::LaunchLair, LaunchEvent::LairUrl(lair_url)) => {
                LaunchStep::ConnectLair { lair_url }
            },
            (LaunchStep::LaunchLair, LaunchEvent::Failed(error)) => {
                LaunchStep::Failed { error: AppError::Passed(error) }
            },
            (LaunchStep::ConnectLair { lair_url }, LaunchEvent::Done) => {
                LaunchStep::PickAdminPort { lair_url }
            },
            (LaunchStep::ConnectLair { .. }, LaunchEvent::FailedText(text)) => {
                LaunchStep::Failed {
                    error: AppError::LairKeystoreError(
                        LairKeystoreError::SpawnMetaLairClientError(text),
                    ),
                }
            },
            (LaunchStep::PickAdminPort { lair_url }, LaunchEvent::Port(port)) => {
                match port {
                    Some(admin_port) => LaunchStep::ParseUrls { lair_url, admin_port },
                    None => {
                        LaunchStep::Aborted { message: "Cannot find any unused port".to_string() }
                    },
                }
            },
            (
                LaunchStep::ParseUrls { lair_url, admin_port },
                LaunchEvent::Urls(bootstrap, proxy),
            ) => {
                match (bootstrap, proxy) {
                    (Ok(bootstrap), Ok(proxy)) => {
                        let config = conductor_config(lair_url, admin_port, bootstrap, proxy);
                        if unix_family {
                            LaunchStep::LinkLair { config }
                        } else {
                            LaunchStep::SerializeConfig { config }
                        }
                    },
                    (Err(error), _) => LaunchStep::Aborted { message: message_of_unwrap(error) },
                    (_, Err(error)) => LaunchStep::Aborted { message: message_of_unwrap(error) },
                }
            },
            (LaunchStep::LinkLair { config }, LaunchEvent::Done) => {
                LaunchStep::SerializeConfig { config }
            },
            (LaunchStep::LinkLair { config }, LaunchEvent::Failed(_)) => {
                LaunchStep::SerializeConfig { config }
            },
            (LaunchStep::SerializeConfig { config }, LaunchEvent::Yaml(yaml)) => {
                LaunchStep::WriteConfig { yaml, admin_port: config.admin_port }
            },
            (LaunchStep::SerializeConfig { .. }, LaunchEvent::FailedText(error)) => {
                LaunchStep::Aborted {
                    message: message_of_expect(
                        "Could not convert conductor config to string",
                        error,
                    ),
                }
            },
            (LaunchStep::WriteConfig { admin_port, .. }, LaunchEvent::Done) => {
                LaunchStep::FindSidecar { admin_port }
            },
            (LaunchStep::WriteConfig { .. }, LaunchEvent::FailedText(error)) => {
                LaunchStep::Aborted {
                    message: message_of_expect("Could not write conductor config", error),
                }
            },
            (LaunchStep::FindSidecar { admin_port }, LaunchEvent::Done) => {
                LaunchStep::LaunchHolochain { admin_port }
            },
            (LaunchStep::FindSidecar { .. }, LaunchEvent::FailedText(text)) => {
                LaunchStep::Failed {
                    error: AppError::LaunchHolochainError(
                        LaunchHolochainError::SidecarBinaryCommandError(text),
                    ),
                }
            },
            (LaunchStep::LaunchHolochain { admin_port }, LaunchEvent::Done) => {
                LaunchStep::Settle { admin_port }
            },
            (LaunchStep::LaunchHolochain { .. }, LaunchEvent::Failed(error)) => {
                LaunchStep::Failed { error: AppError::Passed(error) }
            },
            (LaunchStep::Settle { admin_port }, LaunchEvent::Done) => {
                LaunchStep::Connect { admin_port }
            },
            (LaunchStep::Connect { admin_port }, LaunchEvent::Done) => {
                LaunchStep::ListAppInterfaces { admin_port }
            },
            (LaunchStep::Connect { admin_port }, LaunchEvent::FailedText(_)) => {
                LaunchStep::AwaitRetry { admin_port }
            },
            (LaunchStep::AwaitRetry { admin_port }, LaunchEvent::Done) => {
                LaunchStep::Reconnect { admin_port }
            },
            (LaunchStep::Reconnect { admin_port }, LaunchEvent::Done) => {
                LaunchStep::ListAppInterfaces { admin_port }
            },
            (LaunchStep::Reconnect { .. }, LaunchEvent::FailedText(text)) => {
                conductor_silent(text)
            },
            (
                LaunchStep::ListAppInterfaces { admin_port },
                LaunchEvent::AppInterfaces(ports),
            ) => {
                if ports.len() > 0 {
                    LaunchStep::DrawSeed { admin_port, app_port: ports[0] }
                } else {
                    LaunchStep::PickAppPort { admin_port }
                }
            },
            (LaunchStep::ListAppInterfaces { .. }, LaunchEvent::FailedText(text)) => {
                conductor_silent(
                    "Could not list app interfaces: ".to_string().concat(text.as_str()),
                )
            },
            (LaunchStep::PickAppPort { admin_port }, LaunchEvent::Port(port)) => {
                match port {
                    Some(app_port) => LaunchStep::AttachAppInterface { admin_port, app_port },
                    None => LaunchStep::Aborted { message: "No ports free".to_string() },
                }
            },
            (LaunchStep::AttachAppInterface { admin_port, app_port }, LaunchEvent::Done) => {
                LaunchStep::DrawSeed { admin_port, app_port }
            },
            (LaunchStep::AttachAppInterface { .. }, LaunchEvent::FailedText(_)) => {
                conductor_silent("Could not attach app interface".to_string())
            },
            (LaunchStep::DrawSeed { admin_port, app_port }, LaunchEvent::Seed(seed)) => {
                LaunchStep::InstallApp { admin_port, app_port, network_seed: Some(seed) }
            },
            (LaunchStep::InstallApp { admin_port, app_port, .. }, LaunchEvent::Done) => {
                LaunchStep::Finished { admin_port, app_port }
            },
            (LaunchStep::InstallApp { .. }, LaunchEvent::Failed(error)) => {
                LaunchStep::Failed { error: AppError::Passed(error) }
            },
            (step, _) => step,
        }
    }
}

impl<E> Launch<String, E> {
    /// Begins a launch.
    pub fn start(password: String, unix_family: bool) -> (launch: Self)
        ensures
            launch@ == Launch::<Seq<char>, E>::initial(password@, unix_family),
    {
        Launch {
            password,
            log_level: LogLevel::Warn,
            unix_family,
            step: LaunchStep::CheckDir { dir: Dir::Keystore },
        }
    }

    /// Takes a launch on by one outcome.
    pub fn advance(self, event: LaunchEvent<String, E>) -> (launch: Self)
        ensures
            launch@ == self@.next(event@),
    {
        Launch {
            password: self.password,
            log_level: self.log_level,
            unix_family: self.unix_family,
            step: self.step.advance(event, self.unix_family),
        }
    }
}

/// The outcome of parsing the addresses of the network services.
pub open spec fn parsed_urls<E>() -> LaunchEvent<Seq<char>, E> {
    LaunchEvent::Urls(parsed_url(BOOTSTRAP_SERVICE@), parsed_url(PROXY_URL@))
}

/// The outcome of drawing a network seed that stands for the number `n`.
pub open spec fn drawn_seed<E>(n: u128) -> LaunchEvent<Seq<char>, E> {
    LaunchEvent::Seed(uuid_chars(n as nat))
}

/// Takes a launch on by one outcome, and over the steps that need nothing from outside: parsing
/// the addresses of the network services and drawing a network seed.
pub fn launch<E>(before: Launch<String, E>, event: LaunchEvent<String, E>) -> (after: Launch<
    String,
    E,
>)
    ensures
        before@.next(event@).step is ParseUrls ==> after@ == before@.next(event@).next(
            parsed_urls(),
        ),
        before@.next(event@).step is DrawSeed ==> exists|n: u128|
            is_random_uuid(n as nat) && after@ == before@.next(event@).next(
                #[trigger] drawn_seed(n),
            ),
        !(before@.next(event@).step is ParseUrls) && !(before@.next(event@).step is DrawSeed)
            ==> after@ == before@.next(event@),
        !(after@.step is ParseUrls),
        !(after@.step is DrawSeed),
{
    let after = before.advance(event);
    match after.step {
        LaunchStep::ParseUrls { .. } => {
            let (bootstrap, proxy) = service_urls();
            after.advance(LaunchEvent::Urls(bootstrap, proxy))
        },
        LaunchStep::DrawSeed { .. } => {
            let seed = random_network_seed();
            proof {
                let n = choose|n: u128|
                    is_random_uuid(n as nat) && seed@ == #[trigger] uuid_chars(n as nat);
                assert(LaunchEvent::<String, E>::Seed(seed)@ == drawn_seed::<E>(n));
            }
            after.advance(LaunchEvent::Seed(seed))
        },
        _ => after,
    }
}

/// The address of the admin interface on a port.
pub open spec fn admin_url(admin_port: u16) -> Seq<char> {
    "ws://localhost:"@ + decimal_text(admin_port as nat)
}

/// The address to connect to.
pub fn admin_websocket_url(admin_port: u16) -> (url: String)
    ensures
        url@ == admin_url(admin_port),
{
    "ws://localhost:".to_string().concat(decimal(admin_port as u128).as_str())
}

/// The view of an optional text that is fixed.
pub open spec fn optional_str(text: Option<&'static str>) -> Option<Seq<char>> {
    match text {
        Some(text) => Some(text@),
        None => None,
    }
}

impl<E> LaunchStep<Seq<char>, E> {
    /// The directory that this step works on: its own, that of the keystore, or that of the
    /// conductor, where the configuration file is.
    pub open spec fn dir_of(self) -> Option<Dir> {
        match self {
            LaunchStep::CheckDir { dir } | LaunchStep::CreateDir { dir } => Some(dir),
            LaunchStep::InitializeKeystore
            | LaunchStep::LaunchLair
            | LaunchStep::LinkLair { .. } => Some(Dir::Keystore),
            LaunchStep::WriteConfig { .. } | LaunchStep::LaunchHolochain { .. } => Some(
                Dir::Conductor,
            ),
            _ => None,
        }
    }

    /// The name of the file that this step works with: the configuration file, or the binary.
    pub open spec fn file_of(self) -> Option<Seq<char>> {
        match self {
            LaunchStep::WriteConfig { .. } | LaunchStep::LaunchHolochain { .. } => Some(
                CONDUCTOR_CONFIG_FILE@,
            ),
            LaunchStep::FindSidecar { .. } => Some(HOLOCHAIN_SIDECAR@),
            _ => None,
        }
    }

    /// The address of the admin interface, where this step connects to it.
    pub open spec fn url_of(self) -> Option<Seq<char>> {
        match self {
            LaunchStep::Connect { admin_port } | LaunchStep::Reconnect { admin_port } => Some(
                admin_url(admin_port),
            ),
            _ => None,
        }
    }

    /// What this step logs.
    pub open spec fn notice_of(self) -> Option<Seq<char>> {
        match self {
            LaunchStep::AwaitRetry { .. } => Some(RETRY_NOTICE@),
            _ => None,
        }
    }

    /// How long this step waits, in milliseconds.
    pub open spec fn pause_of(self) -> Option<u64> {
        match self {
            LaunchStep::Settle { .. } => Some(SETTLE_MILLIS),
            LaunchStep::AwaitRetry { .. } => Some(RETRY_MILLIS),
            _ => None,
        }
    }

    /// This step is given the password.
    pub open spec fn takes_password(self) -> bool {
        self is InitializeKeystore || self is LaunchLair || self is ConnectLair
            || self is LaunchHolochain
    }

    /// This step starts a process that logs.
    pub open spec fn starts_process(self) -> bool {
        self is LaunchLair || self is LaunchHolochain
    }
}

impl<E> LaunchStep<String, E> {
    /// The directory that this step works on.
    pub fn dir(&self) -> (dir: Option<Dir>)
        ensures
            dir == self@.dir_of(),
    {
        match self {
            LaunchStep::CheckDir { dir } | LaunchStep::CreateDir { dir } => Some(*dir),
            LaunchStep::InitializeKeystore
            | LaunchStep::LaunchLair
            | LaunchStep::LinkLair { .. } => Some(Dir::Keystore),
            LaunchStep::WriteConfig { .. } | LaunchStep::LaunchHolochain { .. } => Some(
                Dir::Conductor,
            ),
            _ => None,
        }
    }

    /// The name of the file that this step works with.
    pub fn file(&self) -> (file: Option<&'static str>)
        ensures
            optional_str(file) == self@.file_of(),
    {
        match self {
            LaunchStep::WriteConfig { .. } | LaunchStep::LaunchHolochain { .. } => Some(
                CONDUCTOR_CONFIG_FILE,
            ),
            LaunchStep::FindSidecar { .. } => Some(HOLOCHAIN_SIDECAR),
            _ => None,
        }
    }

    /// The address of the admin interface, where this step connects to it.
    pub fn url(&self) -> (url: Option<String>)
        ensures
            optional_text(url) == self@.url_of(),
    {
        match self {
            LaunchStep::Connect { admin_port } | LaunchStep::Reconnect { admin_port } => Some(
                admin_websocket_url(*admin_port),
            ),
            _ => None,
        }
    }

    /// What this step logs.
    pub fn notice(&self) -> (notice: Option<&'static str>)
        ensures
            optional_str(notice) == self@.notice_of(),
    {
        match self {
            LaunchStep::AwaitRetry { .. } => Some(RETRY_NOTICE),
            _ => None,
        }
    }

    /// How long this step waits, in milliseconds.
    pub fn pause_millis(&self) -> (millis: Option<u64>)
        ensures
            millis == self@.pause_of(),
    {
        match self {
            LaunchStep::Settle { .. } => Some(SETTLE_MILLIS),
            LaunchStep::AwaitRetry { .. } => Some(RETRY_MILLIS),
            _ => None,
        }
    }
}

impl<E> Launch<String, E> {
    /// The password, if the next step is given it.
    pub fn step_password(&self) -> (password: Option<String>)
        ensures
            optional_text(password) == (if self@.step.takes_password() {
                Some(self@.password)
            } else {
                None
            }),
    {
        match &self.step {
            LaunchStep::InitializeKeystore
            | LaunchStep::LaunchLair
            | LaunchStep::ConnectLair { .. }
            | LaunchStep::LaunchHolochain { .. } => Some(self.password.clone()),
            _ => None,
        }
    }

    /// How much the process logs that the next step starts, if it starts one.
    pub fn step_log_level(&self) -> (log_level: Option<LogLevel>)
        ensures
            log_level == (if self@.step.starts_process() {
                Some(self@.log_level)
            } else {
                None
            }),
    {
        match &self.step {
            LaunchStep::LaunchLair | LaunchStep::LaunchHolochain { .. } => Some(self.log_level),
            _ => None,
        }
    }
}

} // verus!
