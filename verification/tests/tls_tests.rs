use raft_mem_coordination::tls::{
    certs_from_pem, generate_self_signed_pem, load_server_config, must_generate_self_signed,
    private_key_from_pem, self_signed_request, select_private_key, server_config, PrivateKey,
    GENERATED_CERT_FILE, GENERATED_KEY_FILE,
};

#[test]
fn generated_file_names() {
    assert_eq!(GENERATED_CERT_FILE, "cert.pem");
    assert_eq!(GENERATED_KEY_FILE, "key.pem");
}

#[test]
fn generation_needed_when_either_file_missing() {
    assert!(!must_generate_self_signed(true, true));
    assert!(must_generate_self_signed(false, true));
    assert!(must_generate_self_signed(true, false));
    assert!(must_generate_self_signed(false, false));
}

#[test]
fn generated_material_loads_into_a_server_config() {
    let pem = generate_self_signed_pem().expect("generation");
    assert!(pem.cert_pem.contains("BEGIN CERTIFICATE"));
    let certs = certs_from_pem(pem.cert_pem.as_bytes()).expect("certs");
    assert_eq!(certs.len(), 1);
    let key = private_key_from_pem(pem.key_pem.as_bytes()).expect("key");
    assert!(matches!(key, PrivateKey::Pkcs8(_)));
    assert!(load_server_config(pem.cert_pem.as_bytes(), pem.key_pem.as_bytes()).is_ok());
}

#[test]
fn text_without_pem_sections_has_no_certificates() {
    let certs = certs_from_pem(b"hello\n").expect("no error");
    assert!(certs.is_empty());
}

#[test]
fn malformed_certificate_is_an_error() {
    let bad = b"-----BEGIN CERTIFICATE-----\n!!!!\n-----END CERTIFICATE-----\n";
    assert!(certs_from_pem(bad).is_err());
    let pem = generate_self_signed_pem().expect("generation");
    assert!(load_server_config(bad, pem.key_pem.as_bytes()).is_err());
}

#[test]
fn missing_key_is_reported() {
    let pem = generate_self_signed_pem().expect("generation");
    let err = private_key_from_pem(pem.cert_pem.as_bytes()).err().expect("no key");
    assert_eq!(err.message, "no private key found");
    let err = load_server_config(pem.cert_pem.as_bytes(), pem.cert_pem.as_bytes()).err().expect("no key");
    assert_eq!(err.message, "no private key found");
}

#[test]
fn pkcs8_key_is_preferred_over_rsa() {
    let k = select_private_key(Some(Ok(vec![1])), Some(Ok(vec![2]))).expect("key");
    assert!(matches!(k, PrivateKey::Pkcs8(ref d) if d == &vec![1]));
    let k = select_private_key(None, Some(Ok(vec![2]))).expect("key");
    assert!(matches!(k, PrivateKey::Pkcs1(ref d) if d == &vec![2]));
    let e = select_private_key(Some(Err("bad".to_string())), Some(Ok(vec![2]))).err().expect("error");
    assert_eq!(e.message, "bad");
    let e = select_private_key(None, Some(Err("worse".to_string()))).err().expect("error");
    assert_eq!(e.message, "worse");
    let e = select_private_key(None, None).err().expect("error");
    assert_eq!(e.message, "no private key found");
}

#[test]
fn self_signed_request_names_localhost() {
    let req = self_signed_request();
    assert_eq!(req.subject_alt_names, vec!["localhost".to_string()]);
    assert_eq!(req.common_name, "raft-mem-coordination");
}

#[test]
fn server_config_from_parsed_material() {
    let pem = generate_self_signed_pem().expect("generation");
    let certs = certs_from_pem(pem.cert_pem.as_bytes()).expect("certs");
    let key = private_key_from_pem(pem.key_pem.as_bytes()).expect("key");
    assert!(server_config(certs, key).is_ok());
    let key = private_key_from_pem(pem.key_pem.as_bytes()).expect("key");
    assert!(server_config(Vec::new(), key).is_err());
}
