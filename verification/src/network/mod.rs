//! Peer-to-peer Raft networking.

pub mod addrs;
pub mod coordinate;
pub mod raft_network_impl;
pub mod rpc;

pub use raft_network_impl::Network;
pub use raft_network_impl::NetworkConnection;
