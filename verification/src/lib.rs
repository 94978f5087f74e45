//! Verified core of a Raft-replicated coordination service: node configuration,
//! Raft timing settings, TLS material handling and the peer RPC addressing and
//! retry rules.

pub mod certgen;
pub mod config;
pub mod network;
pub mod raft_config;
pub mod rustls_setup;
pub mod tls;

use vstd::prelude::*;

verus! {

/// Identifier of a Raft node.
pub type NodeId = u64;

} // verus!
