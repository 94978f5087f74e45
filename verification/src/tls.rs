//! The server's TLS material: certificate chains and private keys read from
//! PEM text, the rustls server configuration made of them, and the
//! self-signed certificate a node generates for itself.
//!
//! Reading and writing files is left to the caller, which hands over the PEM
//! text it read and stores the PEM text generated here.


use vstd::prelude::*;

use crate::certgen::{
    certificate_params, certificate_pem, generate_key_pair, key_pair_pem, rcgen_accepts_subject_alt_names,
    self_signed_certificate, CertRequestView, IssuedCertificate,
};
pub use crate::certgen::CertRequest;
use crate::rustls_setup::server_config_with_single_cert;
pub use crate::rustls_setup::{RustlsRefusal, TlsServerConfig};

verus! {

/// Name of the generated certificate's file within the certificate directory.
pub const GENERATED_CERT_FILE: &'static str = "cert.pem";

/// Name of the generated key's file within the certificate directory.
pub const GENERATED_KEY_FILE: &'static str = "key.pem";

/// The host name a generated certificate is issued for.
pub const SELF_SIGNED_HOST: &'static str = "localhost";

/// The common name of a generated certificate's subject.
pub const SELF_SIGNED_COMMON_NAME: &'static str = "raft-mem-coordination";

/// A failure to read or build TLS material: malformed PEM, no usable key, or
/// a certificate and key that rustls or rcgen refuse.
#[derive(Debug, Clone)]
pub struct TlsError {
    pub message: String,
    /// rustls' refusal of a certificate chain and key, when that is the cause.
    pub refusal: Option<RustlsRefusal>,
}

/// A DER-encoded private key.
#[derive(Debug, Clone)]
pub enum PrivateKey {
    /// A PKCS#8 key.
    Pkcs8(Vec<u8>),
    /// A PKCS#1 (RSA) key.
    Pkcs1(Vec<u8>),
}

/// What a private key is: its encoding and its DER bytes.
pub ghost enum KeyView {
    Pkcs8(Seq<u8>),
    Pkcs1(Seq<u8>),
}

impl View for PrivateKey {
    type V = KeyView;

    open spec fn view(&self) -> KeyView {
        match self {
            PrivateKey::Pkcs8(k) => KeyView::Pkcs8(k@),
            PrivateKey::Pkcs1(k) => KeyView::Pkcs1(k@),
        }
    }
}

/// A generated self-signed certificate and its key, as PEM text, with the
/// certificate they were made from.
pub struct SelfSignedPem {
    pub cert_pem: String,
    pub key_pem: String,
    pub certificate: IssuedCertificate,
}

impl SelfSignedPem {
    /// The request the certificate was issued for.
    pub open spec fn issued_for(self) -> CertRequestView {
        self.certificate.request()
    }

    /// The DER bytes of the certificate.
    pub open spec fn certificate_der(self) -> Seq<u8> {
        self.certificate.der()
    }

    /// The PKCS#8 DER bytes of the key pair whose public key the certificate
    /// carries and which signed it.
    pub open spec fn signing_key(self) -> Seq<u8> {
        self.certificate.signing_key()
    }
}

/// What `rustls_pemfile::certs` collects from PEM text `pem`: the DER bytes of
/// every certificate in order, or the message of the first error.
pub uninterp spec fn pem_certificates(pem: Seq<u8>) -> Result<Seq<Seq<u8>>, Seq<char>>;

/// The first item `rustls_pemfile::pkcs8_private_keys` yields for PEM text
/// `pem`: none, the key's DER bytes, or an error message.
pub uninterp spec fn pem_first_pkcs8_key(pem: Seq<u8>) -> Option<Result<Seq<u8>, Seq<char>>>;

/// The first item `rustls_pemfile::rsa_private_keys` yields for PEM text
/// `pem`: none, the key's DER bytes, or an error message.
pub uninterp spec fn pem_first_rsa_key(pem: Seq<u8>) -> Option<Result<Seq<u8>, Seq<char>>>;

/// The UTF-8 bytes of a text.
pub open spec fn text_bytes(text: Seq<char>) -> Seq<u8> {
    vstd::utf8::encode_utf8(text)
}

/// The view of a collected list of certificates or its error message.
pub open spec fn certs_view(r: Result<Vec<Vec<u8>>, String>) -> Result<Seq<Seq<u8>>, Seq<char>> {
    match r {
        Ok(c) => Ok(c.deep_view()),
        Err(m) => Err(m@),
    }
}

/// The view of a first key found, or of the error in its place.
pub open spec fn found_key_view(r: Option<Result<Vec<u8>, String>>) -> Option<
    Result<Seq<u8>, Seq<char>>,
> {
    match r {
        None => None,
        Some(Ok(k)) => Some(Ok(k@)),
        Some(Err(m)) => Some(Err(m@)),
    }
}

/// The message of a TLS result's error, or the value of its success.
pub open spec fn tls_result_view<T, V>(r: Result<T, TlsError>, f: spec_fn(T) -> V) -> Result<
    V,
    Seq<char>,
> {
    match r {
        Ok(t) => Ok(f(t)),
        Err(e) => Err(e.message@),
    }
}

/// The private key taken from PEM text whose first PKCS#8 item is `pkcs8`
/// and whose first RSA item is `rsa`: a PKCS#8 key is preferred; an error
/// in the PKCS#8 items is reported; only when there is no PKCS#8 item does
/// an RSA key count; with neither, no key is found.
pub open spec fn key_choice(
    pkcs8: Option<Result<Seq<u8>, Seq<char>>>,
    rsa: Option<Result<Seq<u8>, Seq<char>>>,
) -> Result<KeyView, Seq<char>> {
    match pkcs8 {
        Some(Ok(k)) => Ok(KeyView::Pkcs8(k)),
        Some(Err(m)) => Err(m),
        None => match rsa {
            Some(Ok(k)) => Ok(KeyView::Pkcs1(k)),
            Some(Err(m)) => Err(m),
            None => Err("no private key found"@),
        },
    }
}

/// Calls `rustls_pemfile::certs` on `pem` and collects the certificates'
/// DER bytes, stopping at the first error. Claimed: the result is
/// `pem_certificates` of the bytes.
#[verifier::external_body]
fn parse_pem_certificates(pem: &[u8]) -> (r: Result<Vec<Vec<u8>>, String>)
    ensures
        certs_view(r) == pem_certificates(pem@),
{
    rustls_pemfile::certs(&mut &pem[..]).map(|c| c.map(|c| c.to_vec())).collect::<
        Result<Vec<Vec<u8>>, _>,
    >().map_err(|e| e.to_string())
}

/// Takes the first item of `rustls_pemfile::pkcs8_private_keys` on `pem`.
/// Claimed: the result is `pem_first_pkcs8_key` of the bytes.
#[verifier::external_body]
fn parse_first_pkcs8_key(pem: &[u8]) -> (r: Option<Result<Vec<u8>, String>>)
    ensures
        found_key_view(r) == pem_first_pkcs8_key(pem@),
{
    rustls_pemfile::pkcs8_private_keys(&mut &pem[..]).next().map(
        |k| k.map(|k| k.secret_pkcs8_der().to_vec()).map_err(|e| e.to_string()),
    )
}

/// Takes the first item of `rustls_pemfile::rsa_private_keys` on `pem`.
/// Claimed: the result is `pem_first_rsa_key` of the bytes.
#[verifier::external_body]
fn parse_first_rsa_key(pem: &[u8]) -> (r: Option<Result<Vec<u8>, String>>)
    ensures
        found_key_view(r) == pem_first_rsa_key(pem@),
{
    rustls_pemfile::rsa_private_keys(&mut &pem[..]).next().map(
        |k| k.map(|k| k.secret_pkcs1_der().to_vec()).map_err(|e| e.to_string()),
    )
}

/// The certificate chain in PEM text `pem`, as DER bytes in order, or the
/// error met while reading it.
pub fn certs_from_pem(pem: &[u8]) -> (r: Result<Vec<Vec<u8>>, TlsError>)
    ensures
        tls_result_view(r, |c: Vec<Vec<u8>>| c.deep_view()) == pem_certificates(pem@),
        r matches Err(e) ==> e.refusal is None,
{
    match parse_pem_certificates(pem) {
        Ok(c) => Ok(c),
        Err(m) => Err(TlsError { message: m, refusal: None }),
    }
}

/// The private key chosen from the first PKCS#8 item `pkcs8` and the first
/// RSA item `rsa` of some PEM text (see `key_choice`).
pub fn select_private_key(
    pkcs8: Option<Result<Vec<u8>, String>>,
    rsa: Option<Result<Vec<u8>, String>>,
) -> (r: Result<PrivateKey, TlsError>)
    ensures
        tls_result_view(r, |k: PrivateKey| k@) == key_choice(
            found_key_view(pkcs8),
            found_key_view(rsa),
        ),
        r matches Err(e) ==> e.refusal is None,
{
    match pkcs8 {
        Some(Ok(k)) => Ok(PrivateKey::Pkcs8(k)),
        Some(Err(m)) => Err(TlsError { message: m, refusal: None }),
        None => match rsa {
            Some(Ok(k)) => Ok(PrivateKey::Pkcs1(k)),
            Some(Err(m)) => Err(TlsError { message: m, refusal: None }),
            None => Err(TlsError { message: String::from_str("no private key found"), refusal: None }),
        },
    }
}

/// The private key in PEM text `pem`: its first PKCS#8 key, else its first
/// RSA key (see `key_choice`).
pub fn private_key_from_pem(pem: &[u8]) -> (r: Result<PrivateKey, TlsError>)
    ensures
        tls_result_view(r, |k: PrivateKey| k@) == key_choice(
            pem_first_pkcs8_key(pem@),
            pem_first_rsa_key(pem@),
        ),
        r matches Err(e) ==> e.refusal is None,
{
    let pkcs8 = parse_first_pkcs8_key(pem);
    let rsa = if pkcs8.is_none() {
        parse_first_rsa_key(pem)
    } else {
        None
    };
    select_private_key(pkcs8, rsa)
}

/// The TLS server configuration presenting the certificate chain `certs`
/// with `key`, its encoding as given, to clients that are not asked for
/// certificates; or rustls' refusal of exactly that chain and key.
pub fn server_config(certs: Vec<Vec<u8>>, key: PrivateKey) -> (r: Result<TlsServerConfig, TlsError>)
    ensures
        r matches Ok(c) ==> c.chain() == certs.deep_view() && c.key() == key@
            && !c.verifies_clients(),
        r matches Err(e) ==> e.refusal matches Some(rf) && rf.chain() == certs.deep_view()
            && rf.key() == key@ && e.message@ == rf.message(),
{
    match server_config_with_single_cert(certs, key) {
        Ok(c) => Ok(c),
        Err(rf) => {
            let message = rf.message_text();
            Err(TlsError { message, refusal: Some(rf) })
        },
    }
}

/// The TLS server configuration presenting the certificate chain in PEM text
/// `cert_pem` with the private key in PEM text `key_pem`. A chain that cannot
/// be read fails with its error; then a key that cannot be found fails with
/// its error; then rustls decides, and on success it presents exactly the
/// chain and the key read.
pub fn load_server_config(cert_pem: &[u8], key_pem: &[u8]) -> (r: Result<TlsServerConfig, TlsError>)
    ensures
        pem_certificates(cert_pem@) matches Err(m) ==> (r matches Err(e) && e.message@ == m
            && e.refusal is None),
        pem_certificates(cert_pem@) is Ok ==> (key_choice(
            pem_first_pkcs8_key(key_pem@),
            pem_first_rsa_key(key_pem@),
        ) matches Err(m) ==> (r matches Err(e) && e.message@ == m && e.refusal is None)),
        r matches Err(e) ==> (e.refusal matches Some(rf) ==> {
            &&& pem_certificates(cert_pem@) == Ok::<Seq<Seq<u8>>, Seq<char>>(rf.chain())
            &&& key_choice(pem_first_pkcs8_key(key_pem@), pem_first_rsa_key(key_pem@)) == Ok::<
                KeyView,
                Seq<char>,
            >(rf.key())
        }),
        r matches Ok(c) ==> {
            &&& pem_certificates(cert_pem@) == Ok::<Seq<Seq<u8>>, Seq<char>>(c.chain())
            &&& key_choice(pem_first_pkcs8_key(key_pem@), pem_first_rsa_key(key_pem@)) == Ok::<
                KeyView,
                Seq<char>,
            >(c.key())
            &&& !c.verifies_clients()
        },
{
    let certs = match certs_from_pem(cert_pem) {
        Ok(c) => c,
        Err(e) => return Err(e),
    };
    let key = match private_key_from_pem(key_pem) {
        Ok(k) => k,
        Err(e) => return Err(e),
    };
    assert(pem_certificates(cert_pem@) == Ok::<Seq<Seq<u8>>, Seq<char>>(certs.deep_view()));
    assert(key_choice(pem_first_pkcs8_key(key_pem@), pem_first_rsa_key(key_pem@)) == Ok::<
        KeyView,
        Seq<char>,
    >(key@));
    server_config(certs, key)
}

/// Whether a node must generate its self-signed certificate: when either the
/// certificate file or the key file is missing.
pub fn must_generate_self_signed(cert_exists: bool, key_exists: bool) -> (r: bool)
    ensures
        r == (!cert_exists || !key_exists),
{
    !cert_exists || !key_exists
}

/// The request a node's self-signed certificate is issued for: the host
/// `SELF_SIGNED_HOST` as its only subject alternative name and
/// `SELF_SIGNED_COMMON_NAME` as its subject's common name.
pub fn self_signed_request() -> (r: CertRequest)
    ensures
        r@ == (CertRequestView {
            names: seq![SELF_SIGNED_HOST@],
            common_name: SELF_SIGNED_COMMON_NAME@,
        }),
{
    let names = vec![String::from_str(SELF_SIGNED_HOST)];
    let r = CertRequest { subject_alt_names: names, common_name: String::from_str(SELF_SIGNED_COMMON_NAME) };
    assert(r@.names =~= seq![SELF_SIGNED_HOST@]);
    r
}

/// Generates a certificate for `self_signed_request()`, signed by a fresh
/// key pair whose public key it carries; both as PEM text. On success the
/// certificate text holds exactly that one certificate and the key text
/// begins with that key pair, as PKCS#8. Fails when rcgen refuses the host
/// name or cannot generate the key or sign.
pub fn generate_self_signed_pem() -> (r: Result<SelfSignedPem, TlsError>)
    ensures
        !rcgen_accepts_subject_alt_names(seq![SELF_SIGNED_HOST@]) ==> r is Err,
        r matches Ok(p) ==> {
            &&& p.issued_for() == (CertRequestView {
                names: seq![SELF_SIGNED_HOST@],
                common_name: SELF_SIGNED_COMMON_NAME@,
            })
            &&& pem_certificates(text_bytes(p.cert_pem@)) == Ok::<Seq<Seq<u8>>, Seq<char>>(
                seq![p.certificate_der()],
            )
            &&& pem_first_pkcs8_key(text_bytes(p.key_pem@)) == Some(
                Ok::<Seq<u8>, Seq<char>>(p.signing_key()),
            )
        },
{
    let request = self_signed_request();
    let params = match certificate_params(request) {
        Ok(p) => p,
        Err(m) => return Err(TlsError { message: m, refusal: None }),
    };
    let key_pair = match generate_key_pair() {
        Ok(k) => k,
        Err(m) => return Err(TlsError { message: m, refusal: None }),
    };
    let certificate = match self_signed_certificate(params, &key_pair) {
        Ok(c) => c,
        Err(m) => return Err(TlsError { message: m, refusal: None }),
    };
    let cert_pem = certificate_pem(&certificate);
    let key_pem = key_pair_pem(&key_pair);
    Ok(SelfSignedPem { cert_pem, key_pem, certificate })
}

} // verus!
