//! The node's configuration, as loaded from a YAML file or built from parameters.

use std::collections::HashMap;

use vstd::prelude::*;

use crate::NodeId;

verus! {

/// Configuration of one node of the cluster.
#[derive(Debug, Clone)]
pub struct Config {
    /// Raft identifier of this node.
    pub id: NodeId,
    /// Address the HTTP server binds to.
    pub addr: String,
    /// TLS settings; `None` serves plain HTTP.
    pub tls: Option<TlsConfig>,
    /// Known addresses of the peers, by node id.
    pub peer_addr: HashMap<NodeId, Vec<String>>,
    /// Credentials for basic authentication, if any.
    pub basic_auth: Option<BasicAuth>,
    /// Raft heartbeat interval in milliseconds; a default applies when absent.
    pub heartbeat_interval: Option<u64>,
    /// Raft election timeout in milliseconds; a default applies when absent.
    pub election_timeout: Option<u64>,
}

/// Where the server's TLS certificate and key come from.
#[derive(Debug, Clone)]
pub enum TlsConfig {
    /// A certificate chain and a private key read from PEM files.
    Files { cert_file: String, key_file: String },
    /// A self-signed certificate kept in (and generated into) a directory.
    SelfSigned { cert_dir: String },
}

/// Basic authentication credentials.
#[derive(Debug, Clone)]
pub struct BasicAuth {
    pub user: String,
    pub password: String,
}

impl Config {
    /// The configured basic authentication credentials, if any.
    pub fn basic_auth(&self) -> (r: Option<&BasicAuth>)
        ensures
            r is Some <==> self.basic_auth is Some,
            r is Some ==> *r->0 == self.basic_auth->0,
    {
        self.basic_auth.as_ref()
    }

    /// The configured TLS settings, if any.
    pub fn tls(&self) -> (r: Option<&TlsConfig>)
        ensures
            r is Some <==> self.tls is Some,
            r is Some ==> *r->0 == self.tls->0,
    {
        self.tls.as_ref()
    }

    /// A configuration with the given id and address and nothing else set:
    /// no TLS, no peers, no credentials and default Raft timings.
    pub fn from_params(id: NodeId, addr: String) -> (r: Self)
        ensures
            r.id == id,
            r.addr == addr,
            r.tls is None,
            r.peer_addr@ == Map::<NodeId, Vec<String>>::empty(),
            r.basic_auth is None,
            r.heartbeat_interval is None,
            r.election_timeout is None,
    {
        Self {
            id,
            addr,
            tls: None,
            peer_addr: HashMap::new(),
            heartbeat_interval: None,
            election_timeout: None,
            basic_auth: None,
        }
    }
}

} // verus!
