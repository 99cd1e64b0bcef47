use remote_console::error::{AppError, CredentialStage};
use remote_console::tls::{get_cn_from_cert, setup_tls_with_client_auth};

fn self_signed_pair() -> (Vec<u8>, Vec<u8>) {
    let key_pair = rcgen::KeyPair::generate().unwrap();
    let cert = rcgen::CertificateParams::new(vec!["localhost".to_string()])
        .unwrap()
        .self_signed(&key_pair)
        .unwrap();
    (cert.pem().into_bytes(), key_pair.serialize_pem().into_bytes())
}

#[test]
fn well_formed_artifacts_build_a_configuration() {
    let (cert_pem, key_pem) = self_signed_pair();
    let (ca_pem, _) = self_signed_pair();
    let r = setup_tls_with_client_auth(&cert_pem, &key_pem, &ca_pem);
    assert!(r.is_ok());
}

#[test]
fn malformed_server_certificate_is_classified() {
    let (_, key_pem) = self_signed_pair();
    let (ca_pem, _) = self_signed_pair();
    let r = setup_tls_with_client_auth(b"not a certificate", &key_pem, &ca_pem);
    assert_eq!(
        r.err().unwrap(),
        AppError::CredentialError(CredentialStage::ServerCertificate)
    );
}

#[test]
fn malformed_private_key_is_classified() {
    let (cert_pem, _) = self_signed_pair();
    let (ca_pem, _) = self_signed_pair();
    let r = setup_tls_with_client_auth(&cert_pem, b"not a key", &ca_pem);
    assert_eq!(
        r.err().unwrap(),
        AppError::CredentialError(CredentialStage::PrivateKey)
    );
}

#[test]
fn certificate_handed_in_as_key_is_classified() {
    let (cert_pem, _) = self_signed_pair();
    let (ca_pem, _) = self_signed_pair();
    let r = setup_tls_with_client_auth(&cert_pem, &cert_pem, &ca_pem);
    assert_eq!(
        r.err().unwrap(),
        AppError::CredentialError(CredentialStage::PrivateKey)
    );
}

#[test]
fn malformed_ca_certificate_is_classified() {
    let (cert_pem, key_pem) = self_signed_pair();
    let r = setup_tls_with_client_auth(&cert_pem, &key_pem, b"not a CA");
    assert_eq!(
        r.err().unwrap(),
        AppError::CredentialError(CredentialStage::CaCertificate)
    );
}

#[test]
fn mismatched_key_and_certificate_are_rejected_at_the_build_step() {
    let (cert_pem, _) = self_signed_pair();
    let (_, other_key_pem) = self_signed_pair();
    let (ca_pem, _) = self_signed_pair();
    let r = setup_tls_with_client_auth(&cert_pem, &other_key_pem, &ca_pem);
    assert_eq!(
        r.err().unwrap(),
        AppError::CredentialError(CredentialStage::ServerConfig)
    );
}

#[test]
fn common_name_is_read_from_the_leaf_certificate() {
    let key_pair = rcgen::KeyPair::generate().unwrap();
    let mut params = rcgen::CertificateParams::new(vec!["localhost".to_string()]).unwrap();
    params
        .distinguished_name
        .push(rcgen::DnType::CommonName, "svsm-client");
    let cert = params.self_signed(&key_pair).unwrap();
    let chain = vec![cert.der().to_vec()];
    assert_eq!(get_cn_from_cert(&chain), Some("svsm-client".to_string()));
}

#[test]
fn certificate_without_common_name_yields_nothing() {
    let key_pair = rcgen::KeyPair::generate().unwrap();
    let mut params = rcgen::CertificateParams::new(vec!["localhost".to_string()]).unwrap();
    params.distinguished_name = rcgen::DistinguishedName::new();
    let cert = params.self_signed(&key_pair).unwrap();
    let chain = vec![cert.der().to_vec()];
    assert_eq!(get_cn_from_cert(&chain), None);
}

#[test]
fn empty_chain_yields_nothing() {
    let chain: Vec<Vec<u8>> = Vec::new();
    assert_eq!(get_cn_from_cert(&chain), None);
}

#[test]
fn garbage_der_yields_nothing() {
    let chain = vec![b"garbage".to_vec()];
    assert_eq!(get_cn_from_cert(&chain), None);
}
