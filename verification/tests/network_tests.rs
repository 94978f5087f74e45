use raft_mem_coordination::config::{Config, TlsConfig};
use raft_mem_coordination::network::addrs::target_addrs;
use raft_mem_coordination::network::coordinate::{create_request, delete_request, CoordinateRequest};
use raft_mem_coordination::network::raft_network_impl::RaftRpc;
use raft_mem_coordination::network::rpc::{
    finish_reply, rpc_url, RpcAttempts, RpcError, SendFailure,
};
use raft_mem_coordination::network::Network;

#[test]
fn single_address_is_kept() {
    assert_eq!(target_addrs("127.0.0.1:21001"), vec!["127.0.0.1:21001"]);
}

#[test]
fn addresses_split_on_semicolons_skipping_empty_pieces() {
    assert_eq!(target_addrs("a:1;b:2"), vec!["a:1", "b:2"]);
    assert_eq!(target_addrs(";a:1;;b:2;"), vec!["a:1", "b:2"]);
}

#[test]
fn address_without_pieces_is_used_whole() {
    assert_eq!(target_addrs(""), vec![""]);
    assert_eq!(target_addrs(";;"), vec![";;"]);
}

#[test]
fn url_joins_scheme_address_and_path() {
    assert_eq!(rpc_url("http", "a:1", "raft-vote"), "http://a:1/raft-vote");
}

#[test]
fn rpc_paths() {
    assert_eq!(RaftRpc::AppendEntries.uri(), "raft-append");
    assert_eq!(RaftRpc::InstallSnapshot.uri(), "raft-snapshot");
    assert_eq!(RaftRpc::Vote.uri(), "raft-vote");
}

#[test]
fn rpc_tries_addresses_in_order_and_reports_last_failure() {
    let mut cfg = Config::from_params(1, "x:0".to_string());
    cfg.tls = Some(TlsConfig::SelfSigned { cert_dir: "d".to_string() });
    let network = Network::from_config(&cfg);
    let conn = network.new_client(3, "a:1;b:2".to_string());
    assert_eq!(conn.target, 3);
    assert_eq!(conn.target_addr, "a:1;b:2");
    let mut attempts = conn.start_rpc(RaftRpc::AppendEntries);
    assert_eq!(attempts.current_url(), "https://a:1/raft-append");
    let r: Option<RpcError<&str, ()>> = attempts.after_send_failure(SendFailure::Connect("refused"));
    assert!(r.is_none());
    assert_eq!(attempts.current_url(), "https://b:2/raft-append");
    let r: Option<RpcError<&str, ()>> = attempts.after_send_failure(SendFailure::Other("timeout"));
    assert!(matches!(r, Some(RpcError::Network("timeout"))));
    assert_eq!(attempts.current_url(), "https://b:2/raft-append");
}

#[test]
fn rpc_to_single_address_gives_up_unreachable() {
    let network = Network::from_config(&Config::from_params(1, "x:0".to_string()));
    let mut attempts = RpcAttempts::start(&network, "a:1", "raft-vote");
    assert_eq!(attempts.current_url(), "http://a:1/raft-vote");
    let r: Option<RpcError<&str, ()>> = attempts.after_send_failure(SendFailure::Connect("refused"));
    assert!(matches!(r, Some(RpcError::Unreachable("refused"))));
}

#[test]
fn replies_become_results() {
    let ok: Result<Result<u32, &str>, &str> = Ok(Ok(5));
    assert!(matches!(finish_reply(2, ok), Ok(5)));
    let remote: Result<Result<u32, &str>, &str> = Ok(Err("not leader"));
    assert!(matches!(finish_reply(2, remote), Err(RpcError::Remote { target: 2, source: "not leader" })));
    let bad: Result<Result<u32, &str>, &str> = Err("bad json");
    assert!(matches!(finish_reply(2, bad), Err(RpcError::Network("bad json"))));
}

#[test]
fn coordinate_writes() {
    match create_request("k".to_string(), "v".to_string()) {
        CoordinateRequest::SetKey { key, value } => {
            assert_eq!(key, "k");
            assert_eq!(value, "v");
        }
    }
    match delete_request("k".to_string()) {
        CoordinateRequest::SetKey { key, value } => {
            assert_eq!(key, "k");
            assert_eq!(value, "");
        }
    }
}

#[test]
fn a_reply_ends_the_rpc() {
    let network = Network::from_config(&Config::from_params(1, "x:0".to_string()));
    let attempts = RpcAttempts::start(&network, "a:1;b:2", "raft-vote");
    let remote: Result<Result<u32, &str>, &str> = Ok(Err("stale term"));
    assert!(matches!(
        attempts.finish(4, remote),
        Err(RpcError::Remote { target: 4, source: "stale term" })
    ));
    let attempts = RpcAttempts::start(&network, "a:1;b:2", "raft-vote");
    let ok: Result<Result<u32, &str>, &str> = Ok(Ok(9));
    assert!(matches!(attempts.finish(4, ok), Ok(9)));
}
