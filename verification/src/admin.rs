//! The credentials of a human administrator: a signing request and key of
//! the administrator's own making, a certificate signed by the cluster's
//! Kubernetes authority, and the local configuration that uses them.

use vstd::prelude::*;
use crate::store::{
    admin_certificate_file,
    admin_certificate_path,
    admin_key_file,
    admin_key_path,
    admin_request_file,
    admin_request_path,
    certificate_file,
    certificate_path,
    cluster_directory_path,
    sealed_key_file,
    sealed_key_path,
    Subject,
    TrustDomain,
};

verus! {

/// An administrator of a cluster.
pub struct Admin {
    pub cluster: String,
    pub admin: String,
}

/// What creating an administrator's credentials takes: a signing request
/// under the administrator's name, and where it and its key rest. The key
/// rests as it is; it is not held in escrow.
pub struct Creation {
    pub directory: String,
    pub common_name: String,
    pub key_path: String,
    pub request_path: String,
}

/// What signing an administrator's request takes: the request, the
/// Kubernetes authority's certificate and sealed key, and where the
/// certificate rests.
pub struct Signing {
    pub request_path: String,
    pub authority_certificate_path: String,
    pub authority_sealed_key_path: String,
    pub certificate_path: String,
}

/// The name under which the local tool knows a cluster.
pub open spec fn context_name(cluster: Seq<char>) -> Seq<char> {
    "kaws-"@ + cluster
}

/// The name under which the local tool knows an administrator of a cluster.
pub open spec fn user_name(cluster: Seq<char>, admin: Seq<char>) -> Seq<char> {
    "kaws-"@ + cluster + "-"@ + admin
}

/// The three commands that configure the local tool: the cluster with its
/// endpoint and authority, the administrator's credentials, and the
/// context that joins the two.
pub open spec fn install_commands(cluster: Seq<char>, admin: Seq<char>, domain: Seq<char>) -> Seq<
    Seq<Seq<char>>,
> {
    seq![
        seq![
            "config"@,
            "set-cluster"@,
            context_name(cluster),
            "--server=https://kubernetes."@ + domain,
            "--certificate-authority="@ + certificate_file(
                cluster,
                TrustDomain::Kubernetes,
                Subject::Ca,
            ),
            "--embed-certs=true"@,
        ],
        seq![
            "config"@,
            "set-credentials"@,
            user_name(cluster, admin),
            "--client-certificate="@ + admin_certificate_file(cluster, admin),
            "--client-key="@ + admin_key_file(cluster, admin),
            "--embed-certs=true"@,
        ],
        seq![
            "config"@,
            "set-context"@,
            context_name(cluster),
            "--cluster="@ + context_name(cluster),
            "--user="@ + user_name(cluster, admin),
        ],
    ]
}

/// What is said once the credentials are created.
pub open spec fn created_text() -> Seq<char> {
    "Certificate signing request created! Commit changes to Git and ask an\nadministrator to generate your client certificate."@
}

/// What is said once the request is signed.
pub open spec fn signed_text(cluster: Seq<char>, admin: Seq<char>) -> Seq<char> {
    "Client certificate for administrator \""@ + admin + "\" created for cluster \""@ + cluster
        + "\"!\nCommit changes to Git and ask the administrator to run `kaws admin install`."@
}

/// What is said once the credentials are installed.
pub open spec fn installed_text(cluster: Seq<char>, admin: Seq<char>) -> Seq<char> {
    "Admin credentials for user \""@ + admin + "\" installed for cluster \""@ + cluster
        + "\"!\nTo activate these settings as the current context, run:\n\nkubectl config use-context kaws-"@
        + cluster
        + "\n\nIf the kubectl configuration file is ever removed or changed accidentally,\njust run this command again to regenerate or reconfigure it."@
}

impl Admin {
    /// The administrator `admin` of `cluster`.
    pub fn new(cluster: &str, admin: &str) -> (made: Admin)
        ensures
            made.cluster@ == cluster@,
            made.admin@ == admin@,
    {
        Admin { cluster: String::from_str(cluster), admin: String::from_str(admin) }
    }

    fn context(&self) -> (name: String)
        ensures
            name@ == context_name(self.cluster@),
    {
        String::from_str("kaws-").concat(self.cluster.as_str())
    }

    fn user(&self) -> (name: String)
        ensures
            name@ == user_name(self.cluster@, self.admin@),
    {
        let mut name = String::from_str("kaws-");
        name.append(self.cluster.as_str());
        name.append("-");
        name.append(self.admin.as_str());
        name
    }

    /// What creating the administrator's credentials takes.
    pub fn create(&self) -> (creation: Creation)
        ensures
            creation.directory@ == "clusters/"@ + self.cluster@,
            creation.common_name@ == self.admin@,
            creation.key_path@ == admin_key_file(self.cluster@, self.admin@),
            creation.request_path@ == admin_request_file(self.cluster@, self.admin@),
    {
        Creation {
            directory: cluster_directory_path(self.cluster.as_str()),
            common_name: self.admin.clone(),
            key_path: admin_key_path(self.cluster.as_str(), self.admin.as_str()),
            request_path: admin_request_path(self.cluster.as_str(), self.admin.as_str()),
        }
    }

    /// What signing the administrator's request takes. The authority is
    /// that of the Kubernetes domain of the administrator's own cluster.
    pub fn sign(&self) -> (signing: Signing)
        ensures
            signing.request_path@ == admin_request_file(self.cluster@, self.admin@),
            signing.authority_certificate_path@ == certificate_file(
                self.cluster@,
                TrustDomain::Kubernetes,
                Subject::Ca,
            ),
            signing.authority_sealed_key_path@ == sealed_key_file(
                self.cluster@,
                TrustDomain::Kubernetes,
                Subject::Ca,
            ),
            signing.certificate_path@ == admin_certificate_file(self.cluster@, self.admin@),
    {
        Signing {
            request_path: admin_request_path(self.cluster.as_str(), self.admin.as_str()),
            authority_certificate_path: certificate_path(
                self.cluster.as_str(),
                TrustDomain::Kubernetes,
                Subject::Ca,
            ),
            authority_sealed_key_path: sealed_key_path(
                self.cluster.as_str(),
                TrustDomain::Kubernetes,
                Subject::Ca,
            ),
            certificate_path: admin_certificate_path(self.cluster.as_str(), self.admin.as_str()),
        }
    }

    /// The argument lists with which the local tool is run, in turn, to
    /// install the credentials for a cluster served under `domain`.
    pub fn install(&self, domain: &str) -> (commands: Vec<Vec<String>>)
        ensures
            commands.deep_view() == install_commands(self.cluster@, self.admin@, domain@),
    {
        let cluster = self.cluster.as_str();
        let admin = self.admin.as_str();

        let mut set_cluster: Vec<String> = Vec::new();
        set_cluster.push(String::from_str("config"));
        set_cluster.push(String::from_str("set-cluster"));
        set_cluster.push(self.context());
        set_cluster.push(String::from_str("--server=https://kubernetes.").concat(domain));
        set_cluster.push(
            String::from_str("--certificate-authority=").concat(
                certificate_path(cluster, TrustDomain::Kubernetes, Subject::Ca).as_str(),
            ),
        );
        set_cluster.push(String::from_str("--embed-certs=true"));

        let mut set_credentials: Vec<String> = Vec::new();
        set_credentials.push(String::from_str("config"));
        set_credentials.push(String::from_str("set-credentials"));
        set_credentials.push(self.user());
        set_credentials.push(
            String::from_str("--client-certificate=").concat(
                admin_certificate_path(cluster, admin).as_str(),
            ),
        );
        set_credentials.push(
            String::from_str("--client-key=").concat(admin_key_path(cluster, admin).as_str()),
        );
        set_credentials.push(String::from_str("--embed-certs=true"));

        let mut set_context: Vec<String> = Vec::new();
        set_context.push(String::from_str("config"));
        set_context.push(String::from_str("set-context"));
        set_context.push(self.context());
        set_context.push(String::from_str("--cluster=").concat(self.context().as_str()));
        set_context.push(String::from_str("--user=").concat(self.user().as_str()));

        let ghost expected = install_commands(self.cluster@, self.admin@, domain@);
        assert(set_cluster.deep_view() =~= expected[0]);
        assert(set_credentials.deep_view() =~= expected[1]);
        assert(set_context.deep_view() =~= expected[2]);

        let mut commands: Vec<Vec<String>> = Vec::new();
        commands.push(set_cluster);
        commands.push(set_credentials);
        commands.push(set_context);
        assert(commands.deep_view() =~= expected);
        commands
    }

    /// What to tell the operator once the credentials are created.
    pub fn created_message(&self) -> (message: String)
        ensures
            message@ == created_text(),
    {
        String::from_str(
            "Certificate signing request created! Commit changes to Git and ask an\nadministrator to generate your client certificate.",
        )
    }

    /// What to tell the operator once the request is signed.
    pub fn signed_message(&self) -> (message: String)
        ensures
            message@ == signed_text(self.cluster@, self.admin@),
    {
        let mut message = String::from_str("Client certificate for administrator \"");
        message.append(self.admin.as_str());
        message.append("\" created for cluster \"");
        message.append(self.cluster.as_str());
        message.append(
            "\"!\nCommit changes to Git and ask the administrator to run `kaws admin install`.",
        );
        message
    }

    /// What to tell the operator once the credentials are installed.
    pub fn installed_message(&self) -> (message: String)
        ensures
            message@ == installed_text(self.cluster@, self.admin@),
    {
        let mut message = String::from_str("Admin credentials for user \"");
        message.append(self.admin.as_str());
        message.append("\" installed for cluster \"");
        message.append(self.cluster.as_str());
        message.append(
            "\"!\nTo activate these settings as the current context, run:\n\nkubectl config use-context kaws-",
        );
        message.append(self.cluster.as_str());
        message.append(
            "\n\nIf the kubectl configuration file is ever removed or changed accidentally,\njust run this command again to regenerate or reconfigure it.",
        );
        message
    }
}

} // verus!
