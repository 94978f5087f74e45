//! How a node reaches its peers: the URL scheme, the addresses of a peer and
//! the order in which they are tried.

use vstd::prelude::*;

use crate::config::Config;
use crate::network::addrs::peer_addresses;
use crate::network::rpc::{rpc_urls_of, RpcAttempts};
use crate::NodeId;

verus! {

/// The Raft network of this node: how RPCs to peers are sent.
#[derive(Clone, Copy)]
pub struct Network {
    pub(crate) use_https: bool,
}

impl Network {
    /// Whether peer RPCs go over HTTPS.
    pub closed spec fn calls_over_https(self) -> bool {
        self.use_https
    }

    /// The network of a node with the given configuration: peers are called
    /// over HTTPS exactly when the node itself serves TLS.
    pub fn from_config(config: &Config) -> (r: Network)
        ensures
            r.calls_over_https() == config.tls is Some,
    {
        Network { use_https: config.tls.is_some() }
    }

    /// Whether peers are called over HTTPS.
    pub fn uses_https(&self) -> (r: bool)
        ensures
            r == self.calls_over_https(),
    {
        self.use_https
    }

    /// The URL scheme of peer RPCs.
    pub fn scheme(&self) -> (r: &'static str)
        ensures
            self.calls_over_https() ==> r@ == "https"@,
            !self.calls_over_https() ==> r@ == "http"@,
    {
        if self.use_https {
            "https"
        } else {
            "http"
        }
    }

    /// A connection from this node to peer `target`, whose address field is
    /// `target_addr`.
    pub fn new_client(&self, target: NodeId, target_addr: String) -> (r: NetworkConnection)
        ensures
            r.owner == *self,
            r.target == target,
            r.target_addr == target_addr,
    {
        NetworkConnection { owner: *self, target, target_addr }
    }
}

/// The Raft RPCs a node sends to its peers.
#[derive(Clone, Copy, PartialEq, Eq, Structural, Debug)]
pub enum RaftRpc {
    AppendEntries,
    InstallSnapshot,
    Vote,
}

/// The endpoint path of each Raft RPC.
pub open spec fn rpc_uri_of(rpc: RaftRpc) -> Seq<char> {
    match rpc {
        RaftRpc::AppendEntries => "raft-append"@,
        RaftRpc::InstallSnapshot => "raft-snapshot"@,
        RaftRpc::Vote => "raft-vote"@,
    }
}

impl RaftRpc {
    /// The endpoint path of this RPC on the peer.
    pub fn uri(&self) -> (r: &'static str)
        ensures
            r@ == rpc_uri_of(*self),
    {
        match self {
            RaftRpc::AppendEntries => "raft-append",
            RaftRpc::InstallSnapshot => "raft-snapshot",
            RaftRpc::Vote => "raft-vote",
        }
    }
}

/// A connection to one peer, through which Raft RPCs are sent.
pub struct NetworkConnection {
    pub owner: Network,
    pub target: NodeId,
    pub target_addr: String,
}

impl NetworkConnection {
    /// Starts the RPC `rpc` to this connection's peer: its URLs are the
    /// peer's addresses, each with the network's scheme and the RPC's path.
    pub fn start_rpc(&self, rpc: RaftRpc) -> (r: RpcAttempts)
        ensures
            r.urls() == rpc_urls_of(
                if self.owner.calls_over_https() {
                    "https"@
                } else {
                    "http"@
                },
                self.target_addr@,
                rpc_uri_of(rpc),
            ),
            r.current() == 0,
            r.urls().len() >= 1,
            r.urls().len() == peer_addresses(self.target_addr@).len(),
            forall|i: int|
                0 <= i < peer_addresses(self.target_addr@).len() ==> #[trigger] r.urls()[i] == (
                if self.owner.calls_over_https() {
                    "https"@
                } else {
                    "http"@
                }) + "://"@ + peer_addresses(self.target_addr@)[i] + "/"@ + rpc_uri_of(rpc),
    {
        RpcAttempts::start(&self.owner, self.target_addr.as_str(), rpc.uri())
    }
}

} // verus!
