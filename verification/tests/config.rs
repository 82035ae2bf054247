use word_condenser::config::{conductor_config, service_urls, Dir};

#[test]
fn service_urls_are_in_normal_form() {
    let (bootstrap, proxy) = service_urls();
    assert_eq!(bootstrap, Ok("https://bootstrap.holo.host/".to_string()));
    assert_eq!(
        proxy,
        Ok("kitsune-proxy://f3gH2VMkJ4qvZJOXx0ccL_Zo5n-s_CnBjSzAsEHHDCA/kitsune-quic/h/137.184.142.208/p/5788/--".to_string())
    );
}

#[test]
fn config_names_its_parts() {
    let config = conductor_config(
        "unix:///tmp/lair/socket?k=abc".to_string(),
        4444,
        "https://bootstrap.holo.host/".to_string(),
        "kitsune-proxy://x".to_string(),
    );
    assert_eq!(config.environment, Dir::Conductor);
    assert_eq!(config.keystore_url, "unix:///tmp/lair/socket?k=abc");
    assert_eq!(config.admin_port, 4444);
    assert_eq!(config.bootstrap_service, "https://bootstrap.holo.host/");
    assert_eq!(config.transport.proxy_url, "kitsune-proxy://x");
    assert_eq!(config.transport.sub_transport.bind_to, None);
    assert_eq!(config.transport.sub_transport.override_host, None);
    assert_eq!(config.transport.sub_transport.override_port, None);
}
