//! A new repository for the clusters of one organisation: the directories
//! and files that it begins with.

use vstd::prelude::*;

verus! {

/// Where the Terraform module is taken from unless the operator names
/// another source.
pub const DEFAULT_TERRAFORM_SOURCE: &'static str =
    "github.com/InQuicker/kaws//terraform?ref=v0.1.0";

/// What the module file holds before the module's source.
pub const MODULE_HEAD: &'static str = "module \"kaws\" {\n    source = \"";

/// What the module file holds after the module's source: the variables
/// that are handed on to the module, and their declarations.
pub const MODULE_TAIL: &'static str =
    "\"\n\n    cluster = \"${var.cluster}\"\n    coreos_ami = \"${var.coreos_ami}\"\n    domain = \"${var.domain}\"\n    etcd_01_initial_cluster_state = \"${var.etcd_01_initial_cluster_state}\"\n    etcd_02_initial_cluster_state = \"${var.etcd_02_initial_cluster_state}\"\n    etcd_03_initial_cluster_state = \"${var.etcd_03_initial_cluster_state}\"\n    instance_size = \"${var.instance_size}\"\n    masters_max_size = \"${var.masters_max_size}\"\n    masters_min_size = \"${var.masters_min_size}\"\n    nodes_max_size = \"${var.nodes_max_size}\"\n    nodes_min_size = \"${var.nodes_min_size}\"\n    region = \"${var.region}\"\n    ssh_key = \"${var.ssh_key}\"\n    version = \"${var.version}\"\n    zone_id = \"${var.zone_id}\"\n}\n\nvariable \"cluster\" {\n  description = \"The target cluster's name, e.g. `production`\"\n}\n\nvariable \"coreos_ami\" {\n  description = \"The AMI ID for the CoreOS image to use for servers, e.g. `ami-1234abcd`\"\n}\n\nvariable \"domain\" {\n  description = \"The domain name for the cluster, e.g. `example.com`\"\n}\n\nvariable \"etcd_01_initial_cluster_state\" {\n  description = \"The initial cluster state for the first etcd node. One of `new` or `existing`\"\n}\n\nvariable \"etcd_02_initial_cluster_state\" {\n  description = \"The initial cluster state for the second etcd node. One of `new` or `existing`\"\n}\n\nvariable \"etcd_03_initial_cluster_state\" {\n  description = \"The initial cluster state for the third etcd node. One of `new` or `existing`\"\n}\n\nvariable \"instance_size\" {\n  description = \"The EC2 instance size, e.g. `m3.medium`\"\n}\n\nvariable \"masters_max_size\" {\n  description = \"The maximum number of EC2 instances the Kubernetes masters may autoscale to\"\n}\n\nvariable \"masters_min_size\" {\n  description = \"The minimum number of EC2 instances the Kubernetes masters may autoscale to\"\n}\n\nvariable \"nodes_max_size\" {\n  description = \"The maximum number of EC2 instances the Kubernetes nodes may autoscale to\"\n}\n\nvariable \"nodes_min_size\" {\n  description = \"The minimum number of EC2 instances the Kubernetes nodes may autoscale to\"\n}\n\nvariable \"region\" {\n  description = \"The AWS Region where the cluster will live, e.g. `us-east-1`\"\n}\n\nvariable \"ssh_key\" {\n  description = \"Name of the SSH key in AWS that should have acccess to EC2 instances, e.g. `jimmy`\"\n}\n\nvariable \"version\" {\n  description = \"Version of Kubernetes to use, e.g. `1.0.0`\"\n}\n\nvariable \"zone_id\" {\n  description = \"Zone ID of the Route 53 hosted zone, e.g. `Z111111QQQQQQQ`\"\n}\n";

/// A repository to be created.
pub struct Repository {
    name: String,
    terraform_source: String,
}

/// What a new repository begins with.
pub struct Scaffold {
    /// The directories to create, with those above them.
    pub directories: Vec<String>,
    /// The files to write, each with its contents.
    pub files: Vec<(String, String)>,
    /// What to tell the operator afterwards.
    pub message: String,
}

impl Repository {
    /// The repository's name, which is also its directory.
    pub closed spec fn name_text(&self) -> Seq<char> {
        self.name@
    }

    /// Where the repository takes the Terraform module from.
    pub closed spec fn source_text(&self) -> Seq<char> {
        self.terraform_source@
    }

    /// A repository of the given name, with the Terraform module from
    /// `terraform_source` or, where none is named, from the default.
    pub fn new(name: &str, terraform_source: Option<&str>) -> (repository: Repository)
        ensures
            repository.name_text() == name@,
            repository.source_text() == (match terraform_source {
                Some(source) => source@,
                None => DEFAULT_TERRAFORM_SOURCE@,
            }),
    {
        Repository {
            name: String::from_str(name),
            terraform_source: match terraform_source {
                Some(source) => String::from_str(source),
                None => String::from_str(DEFAULT_TERRAFORM_SOURCE),
            },
        }
    }

    /// What creating the repository takes: a directory for the clusters
    /// and one for the module, a file that keeps Terraform's own directory
    /// out of version control, and the module file.
    pub fn create(&self) -> (scaffold: Scaffold)
        ensures
            scaffold.directories.deep_view() == seq![
                self.name_text() + "/clusters"@,
                self.name_text() + "/terraform/kaws"@,
            ],
            scaffold.files.deep_view() == seq![
                (self.name_text() + "/.gitignore"@, ".terraform\n"@),
                (
                    self.name_text() + "/terraform/kaws/main.tf"@,
                    MODULE_HEAD@ + self.source_text() + MODULE_TAIL@,
                ),
            ],
            scaffold.message@ == "New repository \""@ + self.name_text() + "\" created!"@,
    {
        let name = self.name.as_str();
        let mut directories: Vec<String> = Vec::new();
        directories.push(String::from_str(name).concat("/clusters"));
        directories.push(String::from_str(name).concat("/terraform/kaws"));
        assert(directories.deep_view() =~= seq![
            self.name_text() + "/clusters"@,
            self.name_text() + "/terraform/kaws"@,
        ]);

        let mut module = String::from_str(MODULE_HEAD);
        module.append(self.terraform_source.as_str());
        module.append(MODULE_TAIL);

        let mut files: Vec<(String, String)> = Vec::new();
        files.push((String::from_str(name).concat("/.gitignore"), String::from_str(".terraform\n")));
        files.push((String::from_str(name).concat("/terraform/kaws/main.tf"), module));
        assert(files.deep_view() =~= seq![
            (self.name_text() + "/.gitignore"@, ".terraform\n"@),
            (
                self.name_text() + "/terraform/kaws/main.tf"@,
                MODULE_HEAD@ + self.source_text() + MODULE_TAIL@,
            ),
        ]);

        let mut message = String::from_str("New repository \"");
        message.append(name);
        message.append("\" created!");
        Scaffold { directories, files, message }
    }
}

} // verus!
