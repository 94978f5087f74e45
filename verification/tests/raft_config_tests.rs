use raft_mem_coordination::config::Config;
use raft_mem_coordination::raft_config::{
    raft_config, raft_timings, RaftConfigError, ELECTION_TIMEOUT_MS, HEARTBEAT_INTERVAL_MS,
};

#[test]
fn timings_default_when_unset() {
    let cfg = Config::from_params(1, "a:1".to_string());
    let t = raft_timings(&cfg);
    assert_eq!(t.heartbeat_interval, HEARTBEAT_INTERVAL_MS);
    assert_eq!(t.heartbeat_interval, 500);
    assert_eq!(t.election_timeout_min, 3000);
    assert_eq!(t.election_timeout_max, ELECTION_TIMEOUT_MS);
}

#[test]
fn timings_follow_configuration() {
    let mut cfg = Config::from_params(1, "a:1".to_string());
    cfg.heartbeat_interval = Some(100);
    cfg.election_timeout = Some(1000);
    let t = raft_timings(&cfg);
    assert_eq!(t.heartbeat_interval, 100);
    assert_eq!(t.election_timeout_min, 1000);
    assert_eq!(t.election_timeout_max, 1000);
}

#[test]
fn raft_config_is_rejected_for_equal_election_timeouts() {
    let cfg = Config::from_params(1, "a:1".to_string());
    match raft_config(&cfg) {
        Err(RaftConfigError::ElectionTimeout { min, max }) => {
            assert_eq!(min, 3000);
            assert_eq!(max, 3000);
        }
        _ => panic!("expected an election timeout error"),
    }
    let mut cfg = Config::from_params(1, "a:1".to_string());
    cfg.heartbeat_interval = Some(5000);
    cfg.election_timeout = Some(10);
    match raft_config(&cfg) {
        Err(RaftConfigError::ElectionTimeout { min, max }) => {
            assert_eq!(min, 10);
            assert_eq!(max, 10);
        }
        _ => panic!("expected an election timeout error"),
    }
}
