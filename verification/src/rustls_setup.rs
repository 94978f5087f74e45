//! The rustls server configuration built from a certificate chain and a
//! private key, and rustls' refusal of them.
//!
//! Both record the chain and key they came from; only this module creates
//! them.

use tokio_rustls::rustls::pki_types::{
    CertificateDer, PrivateKeyDer, PrivatePkcs1KeyDer, PrivatePkcs8KeyDer,
};
use tokio_rustls::rustls::ServerConfig;

use vstd::prelude::*;

use crate::tls::{KeyView, PrivateKey};

verus! {

/// Declares rustls' server configuration type, which this module builds.
#[verifier::external_type_specification]
#[verifier::external_body]
pub struct ExServerConfig(ServerConfig);

/// A rustls server configuration, with the certificate chain and the private
/// key it presents.
pub struct TlsServerConfig {
    config: ServerConfig,
    chain: Ghost<Seq<Seq<u8>>>,
    key: Ghost<KeyView>,
    verifies_clients: Ghost<bool>,
}

impl TlsServerConfig {
    /// The DER bytes of the certificate chain the configuration presents.
    pub closed spec fn chain(self) -> Seq<Seq<u8>> {
        self.chain@
    }

    /// The private key the configuration presents.
    pub closed spec fn key(self) -> KeyView {
        self.key@
    }

    /// Whether the configuration asks clients for certificates.
    pub closed spec fn verifies_clients(self) -> bool {
        self.verifies_clients@
    }

    /// The rustls server configuration itself.
    pub fn into_config(self) -> (r: ServerConfig) {
        self.config
    }
}

/// rustls' refusal of a certificate chain and private key: its message and
/// the chain and key it refused.
#[derive(Debug, Clone)]
pub struct RustlsRefusal {
    message: String,
    chain: Vec<Vec<u8>>,
    key: PrivateKey,
}

impl RustlsRefusal {
    /// rustls' error message.
    pub closed spec fn message(self) -> Seq<char> {
        self.message@
    }

    /// The DER bytes of the refused certificate chain.
    pub closed spec fn chain(self) -> Seq<Seq<u8>> {
        self.chain.deep_view()
    }

    /// The refused private key.
    pub closed spec fn key(self) -> KeyView {
        self.key@
    }

    /// rustls' error message.
    pub fn message_text(&self) -> (r: String)
        ensures
            r@ == self.message(),
    {
        self.message.clone()
    }
}

/// Builds a rustls server configuration without client authentication that
/// presents `certs` with `key`, in the key's own encoding, through
/// `ServerConfig::builder`, `with_no_client_auth` and `with_single_cert`.
/// Claimed: a success records the chain and key it presents and that clients
/// are not asked for certificates; a failure is rustls' refusal of exactly
/// that chain and key. Which of the two happens is not claimed: it also
/// rests on the process-wide crypto provider.
#[verifier::external_body]
pub(crate) fn server_config_with_single_cert(certs: Vec<Vec<u8>>, key: PrivateKey) -> (r: Result<
    TlsServerConfig,
    RustlsRefusal,
>)
    ensures
        r matches Ok(c) ==> c.chain() == certs.deep_view() && c.key() == key@
            && !c.verifies_clients(),
        r matches Err(e) ==> e.chain() == certs.deep_view() && e.key() == key@,
{
    let ghost (chain, key_view) = (certs.deep_view(), key@);
    let chain_der: Vec<CertificateDer<'static>> = certs.iter().cloned().map(CertificateDer::from).collect();
    let key_der = match &key {
        PrivateKey::Pkcs8(k) => PrivateKeyDer::Pkcs8(PrivatePkcs8KeyDer::from(k.clone())),
        PrivateKey::Pkcs1(k) => PrivateKeyDer::Pkcs1(PrivatePkcs1KeyDer::from(k.clone())),
    };
    match ServerConfig::builder().with_no_client_auth().with_single_cert(chain_der, key_der) {
        Ok(config) => Ok(TlsServerConfig { config, chain: Ghost(chain), key: Ghost(key_view), verifies_clients: Ghost(false) }),
        Err(e) => Err(RustlsRefusal { message: e.to_string(), chain: certs, key }),
    }
}

} // verus!
