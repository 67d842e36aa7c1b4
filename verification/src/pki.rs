//! The artifacts of the public key infrastructure, each a run of bytes as
//! the issuance engine produced it.

use vstd::prelude::*;
use vstd::std_specs::convert::FromSpec;

verus! {

/// A certificate in PEM form. Not sensitive.
pub struct Certificate(Vec<u8>);

/// A certificate together with the key that signs under it: the root of
/// trust of one domain.
pub struct CertificateAuthority {
    cert: Certificate,
    key: PrivateKey,
}

/// A certificate signing request in PEM form. Not sensitive.
pub struct CertificateSigningRequest(Vec<u8>);

/// A private key. Sensitive: only its sealed form may rest on disk, but for
/// an administrator's own key.
pub struct PrivateKey(Vec<u8>);

/// What the engine answers to a request for a certificate and its key.
pub struct CfsslGencertResponse {
    pub cert: Vec<u8>,
    pub key: Vec<u8>,
}

/// What the engine answers to a request to sign.
pub struct CfsslSignResponse {
    pub cert: Vec<u8>,
}

/// What the engine answers to a request for a signing request and its key.
pub struct CfsslGenkeyResponse {
    pub csr: Vec<u8>,
    pub key: Vec<u8>,
}

impl View for Certificate {
    type V = Seq<u8>;

    closed spec fn view(&self) -> Seq<u8> {
        self.0@
    }
}

impl View for CertificateSigningRequest {
    type V = Seq<u8>;

    closed spec fn view(&self) -> Seq<u8> {
        self.0@
    }
}

impl View for PrivateKey {
    type V = Seq<u8>;

    closed spec fn view(&self) -> Seq<u8> {
        self.0@
    }
}

impl Certificate {
    /// The certificate's bytes.
    pub fn as_bytes(&self) -> (bytes: &[u8])
        ensures
            bytes@ == self@,
    {
        self.0.as_slice()
    }
}

impl Certificate {
    /// Gives up the certificate for its bytes.
    pub fn into_bytes(self) -> (bytes: Vec<u8>)
        ensures
            bytes@ == self@,
    {
        self.0
    }
}

impl From<Vec<u8>> for Certificate {
    fn from(vec: Vec<u8>) -> (certificate: Certificate) {
        Certificate(vec)
    }
}

impl vstd::std_specs::convert::FromSpecImpl<Vec<u8>> for Certificate {
    open spec fn obeys_from_spec() -> bool {
        true
    }

    closed spec fn from_spec(vec: Vec<u8>) -> Certificate {
        Certificate(vec)
    }
}

impl CertificateSigningRequest {
    /// The request's bytes.
    pub fn as_bytes(&self) -> (bytes: &[u8])
        ensures
            bytes@ == self@,
    {
        self.0.as_slice()
    }
}

impl CertificateSigningRequest {
    /// Gives up the request for its bytes.
    pub fn into_bytes(self) -> (bytes: Vec<u8>)
        ensures
            bytes@ == self@,
    {
        self.0
    }
}

impl From<Vec<u8>> for CertificateSigningRequest {
    fn from(vec: Vec<u8>) -> (request: CertificateSigningRequest) {
        CertificateSigningRequest(vec)
    }
}

impl vstd::std_specs::convert::FromSpecImpl<Vec<u8>> for CertificateSigningRequest {
    open spec fn obeys_from_spec() -> bool {
        true
    }

    closed spec fn from_spec(vec: Vec<u8>) -> CertificateSigningRequest {
        CertificateSigningRequest(vec)
    }
}

impl PrivateKey {
    /// The key's bytes.
    pub fn as_bytes(&self) -> (bytes: &[u8])
        ensures
            bytes@ == self@,
    {
        self.0.as_slice()
    }
}

impl PrivateKey {
    /// Gives up the key for its bytes.
    pub fn into_bytes(self) -> (bytes: Vec<u8>)
        ensures
            bytes@ == self@,
    {
        self.0
    }
}

impl From<Vec<u8>> for PrivateKey {
    fn from(vec: Vec<u8>) -> (key: PrivateKey) {
        PrivateKey(vec)
    }
}

impl vstd::std_specs::convert::FromSpecImpl<Vec<u8>> for PrivateKey {
    open spec fn obeys_from_spec() -> bool {
        true
    }

    closed spec fn from_spec(vec: Vec<u8>) -> PrivateKey {
        PrivateKey(vec)
    }
}

/// Converting bytes into an artifact keeps them as they are.
pub proof fn from_bytes_keeps_them(vec: Vec<u8>)
    ensures
        (<Certificate as FromSpec<Vec<u8>>>::from_spec(vec))@ == vec@,
        (<CertificateSigningRequest as FromSpec<Vec<u8>>>::from_spec(vec))@ == vec@,
        (<PrivateKey as FromSpec<Vec<u8>>>::from_spec(vec))@ == vec@,
{
}

impl CertificateAuthority {
    /// The authority's certificate.
    pub closed spec fn cert_bytes(&self) -> Seq<u8> {
        self.cert@
    }

    /// The authority's signing key.
    pub closed spec fn key_bytes(&self) -> Seq<u8> {
        self.key@
    }

    /// An authority of the given certificate and key.
    pub fn new(cert: Certificate, key: PrivateKey) -> (authority: CertificateAuthority)
        ensures
            authority.cert_bytes() == cert@,
            authority.key_bytes() == key@,
    {
        CertificateAuthority { cert, key }
    }

    /// The bytes of the authority's certificate; the key is not among them.
    pub fn as_bytes(&self) -> (bytes: &[u8])
        ensures
            bytes@ == self.cert_bytes(),
    {
        self.cert.as_bytes()
    }

    /// The authority's signing key.
    pub fn key(&self) -> (key: &PrivateKey)
        ensures
            key@ == self.key_bytes(),
    {
        &self.key
    }

    /// Gives up the authority for its certificate and key.
    pub fn into_parts(self) -> (parts: (Certificate, PrivateKey))
        ensures
            parts.0@ == self.cert_bytes(),
            parts.1@ == self.key_bytes(),
    {
        (self.cert, self.key)
    }
}

impl From<CfsslGencertResponse> for CertificateAuthority {
    fn from(raw: CfsslGencertResponse) -> (authority: CertificateAuthority) {
        CertificateAuthority { cert: Certificate(raw.cert), key: PrivateKey(raw.key) }
    }
}

impl vstd::std_specs::convert::FromSpecImpl<CfsslGencertResponse> for CertificateAuthority {
    open spec fn obeys_from_spec() -> bool {
        true
    }

    closed spec fn from_spec(raw: CfsslGencertResponse) -> CertificateAuthority {
        CertificateAuthority { cert: Certificate(raw.cert), key: PrivateKey(raw.key) }
    }
}

/// An authority made from the engine's answer holds the answer's
/// certificate and key.
pub proof fn authority_from_response(raw: CfsslGencertResponse)
    ensures
        (<CertificateAuthority as FromSpec<CfsslGencertResponse>>::from_spec(raw)).cert_bytes() == raw.cert@,
        <CertificateAuthority as FromSpec<CfsslGencertResponse>>::from_spec(raw).key_bytes() == raw.key@,
{
}

} // verus!
