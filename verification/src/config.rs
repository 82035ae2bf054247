//! The configuration that the conductor is started with.

use vstd::prelude::*;

verus! {

/// Where the conductor asks for its first peers.
pub const BOOTSTRAP_SERVICE: &'static str = "https://bootstrap.holo.host";

/// The proxy over which the conductor can be reached.
pub const PROXY_URL: &'static str = "kitsune-proxy://f3gH2VMkJ4qvZJOXx0ccL_Zo5n-s_CnBjSzAsEHHDCA/kitsune-quic/h/137.184.142.208/p/5788/--";

/// The directories of the active profile that a launch works on.
#[derive(Clone, Copy, Debug, PartialEq, Eq, Structural)]
pub enum Dir {
    /// The directory of the keystore.
    Keystore,
    /// The directory of the conductor.
    Conductor,
}

/// A QUIC transport. `T` is the type of texts.
pub struct QuicTransport<T> {
    /// The address to listen on; any, if there is none.
    pub bind_to: Option<T>,
    /// The host to make known in place of the own one.
    pub override_host: Option<T>,
    /// The port to make known in place of the own one.
    pub override_port: Option<u16>,
}

/// A transport that goes through a remote proxy, as that proxy's client.
pub struct ProxyTransport<T> {
    /// The transport that reaches the proxy.
    pub sub_transport: QuicTransport<T>,
    /// The proxy.
    pub proxy_url: T,
}

/// The configuration of the conductor, apart from what it keeps at its defaults.
pub struct ConductorConfig<T> {
    /// The directory that the conductor keeps its data in.
    pub environment: Dir,
    /// The address of the keystore server that holds the conductor's keys.
    pub keystore_url: T,
    /// The port of the one admin interface, a websocket.
    pub admin_port: u16,
    /// The bootstrap service.
    pub bootstrap_service: T,
    /// The one transport of the transport pool.
    pub transport: ProxyTransport<T>,
}

/// The view of an optional text.
pub open spec fn optional_text(text: Option<String>) -> Option<Seq<char>> {
    match text {
        Some(text) => Some(text@),
        None => None,
    }
}

impl View for QuicTransport<String> {
    type V = QuicTransport<Seq<char>>;

    open spec fn view(&self) -> Self::V {
        QuicTransport {
            bind_to: optional_text(self.bind_to),
            override_host: optional_text(self.override_host),
            override_port: self.override_port,
        }
    }
}

impl View for ProxyTransport<String> {
    type V = ProxyTransport<Seq<char>>;

    open spec fn view(&self) -> Self::V {
        ProxyTransport { sub_transport: self.sub_transport@, proxy_url: self.proxy_url@ }
    }
}

impl View for ConductorConfig<String> {
    type V = ConductorConfig<Seq<char>>;

    open spec fn view(&self) -> Self::V {
        ConductorConfig {
            environment: self.environment,
            keystore_url: self.keystore_url@,
            admin_port: self.admin_port,
            bootstrap_service: self.bootstrap_service@,
            transport: self.transport@,
        }
    }
}

/// The configuration of a conductor that has its keys at `keystore_url`, listens for its admin on
/// `admin_port` and talks to its peers through `bootstrap_service` and `proxy_url`.
pub open spec fn conductor_config_of<T>(
    keystore_url: T,
    admin_port: u16,
    bootstrap_service: T,
    proxy_url: T,
) -> ConductorConfig<T> {
    ConductorConfig {
        environment: Dir::Conductor,
        keystore_url,
        admin_port,
        bootstrap_service,
        transport: ProxyTransport {
            sub_transport: QuicTransport {
                bind_to: None,
                override_host: None,
                override_port: None,
            },
            proxy_url,
        },
    }
}

/// Puts the configuration together.
pub fn conductor_config(
    keystore_url: String,
    admin_port: u16,
    bootstrap_service: String,
    proxy_url: String,
) -> (config: ConductorConfig<String>)
    ensures
        config@ == conductor_config_of(keystore_url@, admin_port, bootstrap_service@, proxy_url@),
{
    ConductorConfig {
        environment: Dir::Conductor,
        keystore_url,
        admin_port,
        bootstrap_service,
        transport: ProxyTransport {
            sub_transport: QuicTransport {
                bind_to: None,
                override_host: None,
                override_port: None,
            },
            proxy_url,
        },
    }
}

/// What `url2::Url2::try_parse` makes of a text: the address in its normal form, or the debug
/// text of the error.
pub uninterp spec fn parsed_url(text: Seq<char>) -> Result<Seq<char>, Seq<char>>;

/// The view of a text or of what kept it from being one.
pub open spec fn text_result(result: Result<String, String>) -> Result<Seq<char>, Seq<char>> {
    match result {
        Ok(text) => Ok(text@),
        Err(text) => Err(text@),
    }
}

/// `url2::Url2::try_parse`, its result turned to text: a URL by `into_string`, an error by its
/// debug format. Of the outcome only that it depends on the text alone is claimed.
#[verifier::external_body]
fn try_parse_url(text: &str) -> (url: Result<String, String>)
    ensures
        text_result(url) == parsed_url(text@),
{
    match url2::Url2::try_parse(text) {
        Ok(url) => Ok(url.into_string()),
        Err(error) => Err(format!("{:?}", error)),
    }
}

/// The bootstrap service and the proxy, as parsed addresses in that order.
pub fn service_urls() -> (urls: (Result<String, String>, Result<String, String>))
    ensures
        text_result(urls.0) == parsed_url(BOOTSTRAP_SERVICE@),
        text_result(urls.1) == parsed_url(PROXY_URL@),
{
    (try_parse_url(BOOTSTRAP_SERVICE), try_parse_url(PROXY_URL))
}

/// A configuration holds what it is made of, each in its place, and the conductor's directory; of
/// its transport nothing is overridden.
pub proof fn config_holds_what_it_is_made_of<T>(
    keystore_url: T,
    admin_port: u16,
    bootstrap_service: T,
    proxy_url: T,
)
    ensures
        ({
            let config = conductor_config_of(
                keystore_url,
                admin_port,
                bootstrap_service,
                proxy_url,
            );
            &&& config.environment == Dir::Conductor
            &&& config.keystore_url == keystore_url
            &&& config.admin_port == admin_port
            &&& config.bootstrap_service == bootstrap_service
            &&& config.transport.proxy_url == proxy_url
            &&& config.transport.sub_transport.bind_to is None
            &&& config.transport.sub_transport.override_host is None
            &&& config.transport.sub_transport.override_port is None
        }),
{
}

} // verus!
