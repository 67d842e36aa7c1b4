//! Where each artifact of a cluster rests on disk, and in what form.
//!
//! Certificates and signing requests rest as they are. The key of an
//! authority or of a service rests sealed and nowhere else: the only way
//! to place one is to hand over its sealed blob. An administrator's key is
//! the administrator's own and rests as it is.

use vstd::prelude::*;
use crate::envelope::EncryptedBlob;
use crate::pki::{Certificate, CertificateSigningRequest, PrivateKey};

verus! {

/// An independent hierarchy of trust. Each has one authority of its own.
#[derive(Clone, Copy, Debug, PartialEq, Eq, Structural)]
pub enum TrustDomain {
    Kubernetes,
    EtcdClient,
    EtcdPeer,
}

/// A holder of a certificate within a domain: the authority, or a role
/// that receives a leaf certificate.
#[derive(Clone, Copy, Debug, PartialEq, Eq, Structural)]
pub enum Subject {
    Ca,
    Masters,
    Nodes,
    Client,
    Server,
    Peer,
}

/// What is written to a file.
pub enum Contents {
    /// Bytes that anyone may read.
    Plain(Vec<u8>),
    /// A sealed secret.
    Sealed(EncryptedBlob),
}

/// A file to write: where, and what.
pub struct Placement {
    pub path: String,
    pub contents: Contents,
}

impl TrustDomain {
    /// What the file names of the domain begin with.
    pub open spec fn prefix_text(self) -> Seq<char> {
        match self {
            TrustDomain::Kubernetes => ""@,
            TrustDomain::EtcdClient => "etcd-"@,
            TrustDomain::EtcdPeer => "etcd-peer-"@,
        }
    }

    /// Whether `subject` holds a certificate in this domain.
    pub open spec fn has(self, subject: Subject) -> bool {
        match self {
            TrustDomain::Kubernetes => subject == Subject::Ca || subject == Subject::Masters
                || subject == Subject::Nodes,
            TrustDomain::EtcdClient => subject == Subject::Ca || subject == Subject::Client
                || subject == Subject::Server,
            TrustDomain::EtcdPeer => subject == Subject::Ca || subject == Subject::Peer,
        }
    }

    /// What the file names of the domain begin with.
    pub fn prefix(self) -> (text: &'static str)
        ensures
            text@ == self.prefix_text(),
    {
        match self {
            TrustDomain::Kubernetes => "",
            TrustDomain::EtcdClient => "etcd-",
            TrustDomain::EtcdPeer => "etcd-peer-",
        }
    }

    /// Whether `subject` holds a certificate in this domain.
    pub fn holds(self, subject: Subject) -> (held: bool)
        ensures
            held == self.has(subject),
    {
        match self {
            TrustDomain::Kubernetes => match subject {
                Subject::Ca | Subject::Masters | Subject::Nodes => true,
                _ => false,
            },
            TrustDomain::EtcdClient => match subject {
                Subject::Ca | Subject::Client | Subject::Server => true,
                _ => false,
            },
            TrustDomain::EtcdPeer => match subject {
                Subject::Ca | Subject::Peer => true,
                _ => false,
            },
        }
    }
}

impl Subject {
    /// The subject's name, as it is written in file names and commands.
    pub open spec fn name_text(self) -> Seq<char> {
        match self {
            Subject::Ca => "ca"@,
            Subject::Masters => "masters"@,
            Subject::Nodes => "nodes"@,
            Subject::Client => "client"@,
            Subject::Server => "server"@,
            Subject::Peer => "peer"@,
        }
    }

    /// The subject's name, as it is written in file names and commands.
    pub fn name(self) -> (text: &'static str)
        ensures
            text@ == self.name_text(),
    {
        match self {
            Subject::Ca => "ca",
            Subject::Masters => "masters",
            Subject::Nodes => "nodes",
            Subject::Client => "client",
            Subject::Server => "server",
            Subject::Peer => "peer",
        }
    }
}

/// The directory of a cluster's artifacts, with the separator after it.
pub open spec fn cluster_directory(cluster: Seq<char>) -> Seq<char> {
    "clusters/"@ + cluster + "/"@
}

/// What the names of a subject's files begin with.
pub open spec fn stem(domain: TrustDomain, subject: Subject) -> Seq<char> {
    domain.prefix_text() + subject.name_text()
}

/// Where a subject's certificate rests.
pub open spec fn certificate_file(cluster: Seq<char>, domain: TrustDomain, subject: Subject) -> Seq<
    char,
> {
    cluster_directory(cluster) + stem(domain, subject) + ".pem"@
}

/// Where a subject's sealed key rests.
pub open spec fn sealed_key_file(cluster: Seq<char>, domain: TrustDomain, subject: Subject) -> Seq<
    char,
> {
    cluster_directory(cluster) + stem(domain, subject) + "-key-encrypted.base64"@
}

/// Where an administrator's key rests.
pub open spec fn admin_key_file(cluster: Seq<char>, admin: Seq<char>) -> Seq<char> {
    cluster_directory(cluster) + admin + "-key.pem"@
}

/// Where an administrator's signing request rests.
pub open spec fn admin_request_file(cluster: Seq<char>, admin: Seq<char>) -> Seq<char> {
    cluster_directory(cluster) + admin + "-csr.pem"@
}

/// Where an administrator's certificate rests.
pub open spec fn admin_certificate_file(cluster: Seq<char>, admin: Seq<char>) -> Seq<char> {
    cluster_directory(cluster) + admin + ".pem"@
}

/// The path of a cluster's directory followed by `name` and `suffix`.
fn cluster_file(cluster: &str, prefix: &str, name: &str, suffix: &str) -> (path: String)
    ensures
        path@ == cluster_directory(cluster@) + (prefix@ + name@) + suffix@,
{
    let mut path = String::from_str("clusters/");
    path.append(cluster);
    path.append("/");
    path.append(prefix);
    path.append(name);
    path.append(suffix);
    assert(path@ =~= cluster_directory(cluster@) + (prefix@ + name@) + suffix@);
    path
}

/// The directory that holds a cluster's artifacts.
pub fn cluster_directory_path(cluster: &str) -> (path: String)
    ensures
        path@ == "clusters/"@ + cluster@,
{
    String::from_str("clusters/").concat(cluster)
}

/// Where the certificate of `subject` in `domain` rests.
pub fn certificate_path(cluster: &str, domain: TrustDomain, subject: Subject) -> (path: String)
    ensures
        path@ == certificate_file(cluster@, domain, subject),
{
    cluster_file(cluster, domain.prefix(), subject.name(), ".pem")
}

/// Where the sealed key of `subject` in `domain` rests.
pub fn sealed_key_path(cluster: &str, domain: TrustDomain, subject: Subject) -> (path: String)
    ensures
        path@ == sealed_key_file(cluster@, domain, subject),
{
    cluster_file(cluster, domain.prefix(), subject.name(), "-key-encrypted.base64")
}

/// Where the key of the administrator `admin` rests.
pub fn admin_key_path(cluster: &str, admin: &str) -> (path: String)
    ensures
        path@ == admin_key_file(cluster@, admin@),
{
    proof {
        reveal_strlit("");
        assert(""@ + admin@ =~= admin@);
    }
    cluster_file(cluster, "", admin, "-key.pem")
}

/// Where the signing request of the administrator `admin` rests.
pub fn admin_request_path(cluster: &str, admin: &str) -> (path: String)
    ensures
        path@ == admin_request_file(cluster@, admin@),
{
    proof {
        reveal_strlit("");
        assert(""@ + admin@ =~= admin@);
    }
    cluster_file(cluster, "", admin, "-csr.pem")
}

/// Where the certificate of the administrator `admin` rests.
pub fn admin_certificate_path(cluster: &str, admin: &str) -> (path: String)
    ensures
        path@ == admin_certificate_file(cluster@, admin@),
{
    proof {
        reveal_strlit("");
        assert(""@ + admin@ =~= admin@);
    }
    cluster_file(cluster, "", admin, ".pem")
}

/// The certificate of `subject` in `domain`, to rest as it is.
pub fn place_certificate(
    cluster: &str,
    domain: TrustDomain,
    subject: Subject,
    certificate: Certificate,
) -> (placement: Placement)
    ensures
        placement.path@ == certificate_file(cluster@, domain, subject),
        placement.contents matches Contents::Plain(bytes) && bytes@ == certificate@,
{
    Placement {
        path: certificate_path(cluster, domain, subject),
        contents: Contents::Plain(certificate.into_bytes()),
    }
}

/// The key of `subject` in `domain`, to rest sealed. There is no other way
/// to place such a key.
pub fn place_key(cluster: &str, domain: TrustDomain, subject: Subject, blob: EncryptedBlob) -> (placement:
    Placement)
    ensures
        placement.path@ == sealed_key_file(cluster@, domain, subject),
        placement.contents == Contents::Sealed(blob),
{
    Placement { path: sealed_key_path(cluster, domain, subject), contents: Contents::Sealed(blob) }
}

/// An administrator's key, to rest as it is: it is not held in escrow.
pub fn place_admin_key(cluster: &str, admin: &str, key: PrivateKey) -> (placement: Placement)
    ensures
        placement.path@ == admin_key_file(cluster@, admin@),
        placement.contents matches Contents::Plain(bytes) && bytes@ == key@,
{
    Placement { path: admin_key_path(cluster, admin), contents: Contents::Plain(key.into_bytes()) }
}

/// An administrator's signing request, to rest as it is.
pub fn place_admin_request(cluster: &str, admin: &str, request: CertificateSigningRequest) -> (placement:
    Placement)
    ensures
        placement.path@ == admin_request_file(cluster@, admin@),
        placement.contents matches Contents::Plain(bytes) && bytes@ == request@,
{
    Placement {
        path: admin_request_path(cluster, admin),
        contents: Contents::Plain(request.into_bytes()),
    }
}

/// An administrator's certificate, to rest as it is.
pub fn place_admin_certificate(cluster: &str, admin: &str, certificate: Certificate) -> (placement:
    Placement)
    ensures
        placement.path@ == admin_certificate_file(cluster@, admin@),
        placement.contents matches Contents::Plain(bytes) && bytes@ == certificate@,
{
    Placement {
        path: admin_certificate_path(cluster, admin),
        contents: Contents::Plain(certificate.into_bytes()),
    }
}

/// Texts that begin alike and are equal end alike.
proof fn same_start_same_rest(start: Seq<char>, one: Seq<char>, other: Seq<char>)
    requires
        start + one == start + other,
    ensures
        one == other,
{
    assert(one =~= (start + one).subrange(start.len() as int, (start + one).len() as int));
    assert(other =~= (start + other).subrange(start.len() as int, (start + other).len() as int));
}

/// Texts that end alike and are equal begin alike.
proof fn same_end_same_rest(one: Seq<char>, other: Seq<char>, end: Seq<char>)
    requires
        one + end == other + end,
    ensures
        one == other,
{
    assert((one + end).len() == (other + end).len());
    assert(one =~= (one + end).subrange(0, one.len() as int));
    assert(other =~= (other + end).subrange(0, other.len() as int));
}

/// No two subjects of any domains share a stem.
proof fn stems_differ(d1: TrustDomain, s1: Subject, d2: TrustDomain, s2: Subject)
    requires
        stem(d1, s1) == stem(d2, s2),
    ensures
        d1 == d2,
        s1 == s2,
{
    reveal_strlit("");
    reveal_strlit("etcd-");
    reveal_strlit("etcd-peer-");
    reveal_strlit("ca");
    reveal_strlit("masters");
    reveal_strlit("nodes");
    reveal_strlit("client");
    reveal_strlit("server");
    reveal_strlit("peer");
    let one = stem(d1, s1);
    let other = stem(d2, s2);
    assert(one.len() == other.len());
    assert(one[0] == other[0]);
    assert(one[1] == other[1]);
    if one.len() > 5 {
        assert(one[5] == other[5]);
    }
    if one.len() > 11 {
        assert(one[10] == other[10]);
        assert(one[11] == other[11]);
    }
}

/// Within a cluster every certificate and every sealed key has a file of
/// its own: two artifacts rest at one path only if they are the same
/// artifact of the same subject of the same domain. So no authority can
/// take the place of another's, and no sealed key that of a certificate.
pub proof fn files_are_distinct(
    cluster: Seq<char>,
    d1: TrustDomain,
    s1: Subject,
    d2: TrustDomain,
    s2: Subject,
)
    ensures
        certificate_file(cluster, d1, s1) == certificate_file(cluster, d2, s2) ==> d1 == d2 && s1
            == s2,
        sealed_key_file(cluster, d1, s1) == sealed_key_file(cluster, d2, s2) ==> d1 == d2 && s1
            == s2,
        certificate_file(cluster, d1, s1) != sealed_key_file(cluster, d2, s2),
{
    let directory = cluster_directory(cluster);
    if certificate_file(cluster, d1, s1) == certificate_file(cluster, d2, s2) {
        same_end_same_rest(directory + stem(d1, s1), directory + stem(d2, s2), ".pem"@);
        same_start_same_rest(directory, stem(d1, s1), stem(d2, s2));
        stems_differ(d1, s1, d2, s2);
    }
    if sealed_key_file(cluster, d1, s1) == sealed_key_file(cluster, d2, s2) {
        same_end_same_rest(
            directory + stem(d1, s1),
            directory + stem(d2, s2),
            "-key-encrypted.base64"@,
        );
        same_start_same_rest(directory, stem(d1, s1), stem(d2, s2));
        stems_differ(d1, s1, d2, s2);
    }
    if certificate_file(cluster, d1, s1) == sealed_key_file(cluster, d2, s2) {
        reveal_strlit(".pem");
        reveal_strlit("-key-encrypted.base64");
        let one = certificate_file(cluster, d1, s1);
        let other = sealed_key_file(cluster, d2, s2);
        assert(one.last() == ".pem"@[3]);
        assert(other.last() == "-key-encrypted.base64"@[20]);
    }
}

/// An administrator's files lie apart from every subject's, but for one
/// meeting: the administrator's certificate rests where a subject's
/// certificate does exactly when the administrator bears that subject's
/// stem as a name (`ca`, `masters`, `etcd-ca` and the like). The key and
/// the signing request of an administrator never rest where anything of a
/// subject does, and nothing of an administrator rests where a sealed key
/// does.
pub proof fn admin_files_meet_subjects_only_by_name(
    cluster: Seq<char>,
    admin: Seq<char>,
    domain: TrustDomain,
    subject: Subject,
)
    ensures
        admin_certificate_file(cluster, admin) == certificate_file(cluster, domain, subject)
            <==> admin == stem(domain, subject),
        admin_key_file(cluster, admin) != certificate_file(cluster, domain, subject),
        admin_request_file(cluster, admin) != certificate_file(cluster, domain, subject),
        admin_certificate_file(cluster, admin) != sealed_key_file(cluster, domain, subject),
        admin_key_file(cluster, admin) != sealed_key_file(cluster, domain, subject),
        admin_request_file(cluster, admin) != sealed_key_file(cluster, domain, subject),
{
    let directory = cluster_directory(cluster);
    let held = stem(domain, subject);
    reveal_strlit("");
    reveal_strlit("etcd-");
    reveal_strlit("etcd-peer-");
    reveal_strlit("ca");
    reveal_strlit("masters");
    reveal_strlit("nodes");
    reveal_strlit("client");
    reveal_strlit("server");
    reveal_strlit("peer");
    reveal_strlit(".pem");
    reveal_strlit("-key.pem");
    reveal_strlit("-csr.pem");
    reveal_strlit("-key-encrypted.base64");
    if admin_certificate_file(cluster, admin) == certificate_file(cluster, domain, subject) {
        same_end_same_rest(directory + admin, directory + held, ".pem"@);
        same_start_same_rest(directory, admin, held);
    }
    if admin_key_file(cluster, admin) == certificate_file(cluster, domain, subject) {
        assert(directory + admin + "-key.pem"@ =~= directory + (admin + "-key"@) + ".pem"@) by {
            reveal_strlit("-key");
            assert("-key.pem"@ =~= "-key"@ + ".pem"@);
        }
        same_end_same_rest(directory + (admin + "-key"@), directory + held, ".pem"@);
        same_start_same_rest(directory, admin + "-key"@, held);
        reveal_strlit("-key");
        assert(held.last() == 'y');
    }
    if admin_request_file(cluster, admin) == certificate_file(cluster, domain, subject) {
        assert(directory + admin + "-csr.pem"@ =~= directory + (admin + "-csr"@) + ".pem"@) by {
            reveal_strlit("-csr");
            assert("-csr.pem"@ =~= "-csr"@ + ".pem"@);
        }
        same_end_same_rest(directory + (admin + "-csr"@), directory + held, ".pem"@);
        same_start_same_rest(directory, admin + "-csr"@, held);
        reveal_strlit("-csr");
        assert(held[held.len() - 2] == 's');
    }
    let sealed = sealed_key_file(cluster, domain, subject);
    assert(sealed.last() == "-key-encrypted.base64"@[20]);
    assert(admin_certificate_file(cluster, admin).last() == ".pem"@[3]);
    assert(admin_key_file(cluster, admin).last() == "-key.pem"@[7]);
    assert(admin_request_file(cluster, admin).last() == "-csr.pem"@[7]);
}

} // verus!
