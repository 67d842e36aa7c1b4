use kaws::error::{ErrorKind, KawsError};
use kaws::pki::{
    Certificate, CertificateAuthority, CertificateSigningRequest, CfsslGencertResponse, PrivateKey,
};

#[test]
fn artifacts_keep_their_bytes() {
    assert_eq!(Certificate::from(vec![1, 2, 3]).as_bytes(), &[1, 2, 3]);
    assert_eq!(CertificateSigningRequest::from(vec![4, 5]).as_bytes(), &[4, 5]);
    assert_eq!(PrivateKey::from(vec![6]).as_bytes(), &[6]);
    assert_eq!(Certificate::from(Vec::new()).as_bytes(), &[] as &[u8]);
}

#[test]
fn artifacts_give_their_bytes_up() {
    assert_eq!(Certificate::from(vec![1, 2, 3]).into_bytes(), vec![1, 2, 3]);
    assert_eq!(CertificateSigningRequest::from(vec![4, 5]).into_bytes(), vec![4, 5]);
    assert_eq!(PrivateKey::from(vec![6]).into_bytes(), vec![6]);
}

#[test]
fn authority_from_the_engines_answer() {
    let authority =
        CertificateAuthority::from(CfsslGencertResponse { cert: b"CERT".to_vec(), key: b"KEY".to_vec() });
    assert_eq!(authority.as_bytes(), b"CERT");
    assert_eq!(authority.key().as_bytes(), b"KEY");
    let (cert, key) = authority.into_parts();
    assert_eq!(cert.as_bytes(), b"CERT");
    assert_eq!(key.as_bytes(), b"KEY");
}

#[test]
fn authority_of_a_certificate_and_key() {
    let authority =
        CertificateAuthority::new(Certificate::from(vec![1]), PrivateKey::from(vec![2, 3]));
    assert_eq!(authority.as_bytes(), &[1]);
    assert_eq!(authority.key().as_bytes(), &[2, 3]);
}

#[test]
fn error_keeps_its_message() {
    let error = KawsError::new("something failed".to_string());
    assert_eq!(error.kind(), ErrorKind::Other);
    assert_eq!(error.description(), "something failed");
    assert_eq!(error.message, "something failed");
}

#[test]
fn error_of_a_kind() {
    let error = KawsError::of_kind(ErrorKind::Filesystem, "disk full".to_string());
    assert_eq!(error.kind(), ErrorKind::Filesystem);
    assert_eq!(error.description(), "disk full");
}
