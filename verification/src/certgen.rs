//! Certificate generation through rcgen: parameters made from a plain
//! request, fresh key pairs, self-signed certificates and their PEM text.
//!
//! The values here record, as plain bytes or ghost data, what they were made
//! from; only the functions of this module create them.

use vstd::prelude::*;

use crate::tls::{pem_certificates, pem_first_pkcs8_key, text_bytes};

verus! {

/// Declares rcgen's certificate parameters.
#[verifier::external_type_specification]
#[verifier::external_body]
pub struct ExCertificateParams(rcgen::CertificateParams);

/// Declares rcgen's key pair.
#[verifier::external_type_specification]
#[verifier::external_body]
pub struct ExKeyPair(rcgen::KeyPair);

/// Declares rcgen's certificate.
#[verifier::external_type_specification]
#[verifier::external_body]
pub struct ExCertificate(rcgen::Certificate);

/// What a certificate is requested for: its subject alternative names and
/// the common name of its subject.
#[derive(Debug, Clone)]
pub struct CertRequest {
    pub subject_alt_names: Vec<String>,
    pub common_name: String,
}

/// The names and common name of a certificate request.
pub ghost struct CertRequestView {
    pub names: Seq<Seq<char>>,
    pub common_name: Seq<char>,
}

impl View for CertRequest {
    type V = CertRequestView;

    open spec fn view(&self) -> CertRequestView {
        CertRequestView {
            names: self.subject_alt_names.deep_view(),
            common_name: self.common_name@,
        }
    }
}

/// Whether `rcgen::CertificateParams::new` accepts these subject
/// alternative names: each is taken as an IP address when it parses as one,
/// else as a DNS name, which must be ASCII; an IP address is ASCII too, so
/// the names are accepted exactly when all of them are ASCII.
pub open spec fn rcgen_accepts_subject_alt_names(names: Seq<Seq<char>>) -> bool {
    forall|i: int| 0 <= i < names.len() ==> vstd::utf8::is_ascii_chars(#[trigger] names[i])
}

/// rcgen's certificate parameters, with the request they were made from.
pub struct SigningParams {
    params: rcgen::CertificateParams,
    request: Ghost<CertRequestView>,
}

impl SigningParams {
    /// The request the parameters were made from.
    pub closed spec fn request(self) -> CertRequestView {
        self.request@
    }
}

/// An rcgen key pair, with its PKCS#8 DER bytes.
pub struct GeneratedKey {
    pair: rcgen::KeyPair,
    pkcs8_der: Vec<u8>,
}

impl GeneratedKey {
    /// The key pair's PKCS#8 DER bytes.
    pub closed spec fn pkcs8(self) -> Seq<u8> {
        self.pkcs8_der@
    }
}

/// An rcgen certificate, with its DER bytes, the request it was issued for
/// and the PKCS#8 DER bytes of the key pair that signed it.
pub struct IssuedCertificate {
    cert: rcgen::Certificate,
    der: Vec<u8>,
    request: Ghost<CertRequestView>,
    signing_key: Ghost<Seq<u8>>,
}

impl IssuedCertificate {
    /// The certificate's DER bytes.
    pub closed spec fn der(self) -> Seq<u8> {
        self.der@
    }

    /// The request the certificate was issued for.
    pub closed spec fn request(self) -> CertRequestView {
        self.request@
    }

    /// The PKCS#8 DER bytes of the key pair whose public key the certificate
    /// carries and which signed it.
    pub closed spec fn signing_key(self) -> Seq<u8> {
        self.signing_key@
    }
}

/// Calls `rcgen::CertificateParams::new` with the request's subject
/// alternative names and sets the parameters' distinguished name to a fresh
/// `rcgen::DistinguishedName` holding only the request's common name.
/// Claimed: it succeeds exactly when rcgen accepts the names, and the
/// parameters record the request they were made from.
#[verifier::external_body]
pub(crate) fn certificate_params(request: CertRequest) -> (r: Result<SigningParams, String>)
    ensures
        r is Ok <==> rcgen_accepts_subject_alt_names(request@.names),
        r matches Ok(p) ==> p.request() == request@,
{
    let ghost view = request@;
    let mut params = rcgen::CertificateParams::new(request.subject_alt_names).map_err(|e| e.to_string())?;
    params.distinguished_name = rcgen::DistinguishedName::new();
    params.distinguished_name.push(rcgen::DnType::CommonName, request.common_name);
    Ok(SigningParams { params, request: Ghost(view) })
}

/// Calls `rcgen::KeyPair::generate` and keeps the pair with its PKCS#8 DER
/// bytes (`serialize_der`). Nothing is claimed of the key: it is random.
#[verifier::external_body]
pub(crate) fn generate_key_pair() -> (r: Result<GeneratedKey, String>) {
    let pair = rcgen::KeyPair::generate().map_err(|e| e.to_string())?;
    let pkcs8_der = pair.serialize_der();
    Ok(GeneratedKey { pair, pkcs8_der })
}

/// Calls `rcgen::CertificateParams::self_signed` with the key pair. Claimed,
/// from rcgen's source: the certificate carries the key pair's public key
/// and is signed with it; it records its DER bytes (`der`), the request its
/// parameters were made from and the key pair's PKCS#8 bytes. Whether signing
/// succeeds is not claimed: it rests on the random key.
#[verifier::external_body]
pub(crate) fn self_signed_certificate(params: SigningParams, key: &GeneratedKey) -> (r: Result<
    IssuedCertificate,
    String,
>)
    ensures
        r matches Ok(c) ==> c.request() == params.request() && c.signing_key() == key.pkcs8(),
{
    let ghost signing_key = key.pkcs8_der@;
    let cert = params.params.self_signed(&key.pair).map_err(|e| e.to_string())?;
    let der = cert.der().to_vec();
    Ok(IssuedCertificate { cert, der, request: params.request, signing_key: Ghost(signing_key) })
}

/// Calls `rcgen::Certificate::pem`. Claimed, from rcgen's source: the text is
/// one PEM section labelled `CERTIFICATE` holding the certificate's DER bytes,
/// so `rustls_pemfile::certs` reads exactly that certificate from it.
#[verifier::external_body]
pub(crate) fn certificate_pem(cert: &IssuedCertificate) -> (r: String)
    ensures
        pem_certificates(text_bytes(r@)) is Ok,
        pem_certificates(text_bytes(r@))->Ok_0 == seq![cert.der()],
{
    cert.cert.pem()
}

/// Calls `rcgen::KeyPair::serialize_pem`. Claimed, from rcgen's source: the
/// text is one PEM section labelled `PRIVATE KEY` holding the pair's PKCS#8
/// DER bytes, so the first item `rustls_pemfile::pkcs8_private_keys` reads
/// from it is exactly that key.
#[verifier::external_body]
pub(crate) fn key_pair_pem(key: &GeneratedKey) -> (r: String)
    ensures
        pem_first_pkcs8_key(text_bytes(r@)) is Some,
        pem_first_pkcs8_key(text_bytes(r@))->Some_0 is Ok,
        pem_first_pkcs8_key(text_bytes(r@))->Some_0->Ok_0 == key.pkcs8(),
{
    key.pair.serialize_pem()
}

} // verus!
