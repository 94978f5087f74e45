use raft_mem_coordination::config::{BasicAuth, Config, TlsConfig};
use raft_mem_coordination::network::Network;

#[test]
fn from_params_sets_only_id_and_addr() {
    let cfg = Config::from_params(7, "127.0.0.1:8000".to_string());
    assert_eq!(cfg.id, 7);
    assert_eq!(cfg.addr, "127.0.0.1:8000");
    assert!(cfg.tls.is_none());
    assert!(cfg.peer_addr.is_empty());
    assert!(cfg.basic_auth.is_none());
    assert!(cfg.heartbeat_interval.is_none());
    assert!(cfg.election_timeout.is_none());
    assert!(cfg.tls().is_none());
    assert!(cfg.basic_auth().is_none());
}

#[test]
fn accessors_return_configured_values() {
    let mut cfg = Config::from_params(1, "a:1".to_string());
    cfg.tls = Some(TlsConfig::SelfSigned { cert_dir: "/tmp/certs".to_string() });
    cfg.basic_auth = Some(BasicAuth { user: "u".to_string(), password: "p".to_string() });
    match cfg.tls() {
        Some(TlsConfig::SelfSigned { cert_dir }) => assert_eq!(cert_dir, "/tmp/certs"),
        _ => panic!("expected self-signed TLS"),
    }
    let auth = cfg.basic_auth().expect("credentials");
    assert_eq!(auth.user, "u");
    assert_eq!(auth.password, "p");
}

#[test]
fn network_uses_https_exactly_with_tls() {
    let mut cfg = Config::from_params(1, "a:1".to_string());
    let plain = Network::from_config(&cfg);
    assert!(!plain.uses_https());
    assert_eq!(plain.scheme(), "http");
    cfg.tls = Some(TlsConfig::Files { cert_file: "c.pem".to_string(), key_file: "k.pem".to_string() });
    let secure = Network::from_config(&cfg);
    assert!(secure.uses_https());
    assert_eq!(secure.scheme(), "https");
}
