use kaws::repository::{Repository, DEFAULT_TERRAFORM_SOURCE, MODULE_HEAD, MODULE_TAIL};

fn module(source: &str) -> String {
    let mut text = String::from(r#"module "kaws" {
    source = ""#);
    text.push_str(source);
    text.push_str(r#""

    cluster = "${var.cluster}"
    coreos_ami = "${var.coreos_ami}"
    domain = "${var.domain}"
    etcd_01_initial_cluster_state = "${var.etcd_01_initial_cluster_state}"
    etcd_02_initial_cluster_state = "${var.etcd_02_initial_cluster_state}"
    etcd_03_initial_cluster_state = "${var.etcd_03_initial_cluster_state}"
    instance_size = "${var.instance_size}"
    masters_max_size = "${var.masters_max_size}"
    masters_min_size = "${var.masters_min_size}"
    nodes_max_size = "${var.nodes_max_size}"
    nodes_min_size = "${var.nodes_min_size}"
    region = "${var.region}"
    ssh_key = "${var.ssh_key}"
    version = "${var.version}"
    zone_id = "${var.zone_id}"
}

variable "cluster" {
  description = "The target cluster's name, e.g. `production`"
}

variable "coreos_ami" {
  description = "The AMI ID for the CoreOS image to use for servers, e.g. `ami-1234abcd`"
}

variable "domain" {
  description = "The domain name for the cluster, e.g. `example.com`"
}

variable "etcd_01_initial_cluster_state" {
  description = "The initial cluster state for the first etcd node. One of `new` or `existing`"
}

variable "etcd_02_initial_cluster_state" {
  description = "The initial cluster state for the second etcd node. One of `new` or `existing`"
}

variable "etcd_03_initial_cluster_state" {
  description = "The initial cluster state for the third etcd node. One of `new` or `existing`"
}

variable "instance_size" {
  description = "The EC2 instance size, e.g. `m3.medium`"
}

variable "masters_max_size" {
  description = "The maximum number of EC2 instances the Kubernetes masters may autoscale to"
}

variable "masters_min_size" {
  description = "The minimum number of EC2 instances the Kubernetes masters may autoscale to"
}

variable "nodes_max_size" {
  description = "The maximum number of EC2 instances the Kubernetes nodes may autoscale to"
}

variable "nodes_min_size" {
  description = "The minimum number of EC2 instances the Kubernetes nodes may autoscale to"
}

variable "region" {
  description = "The AWS Region where the cluster will live, e.g. `us-east-1`"
}

variable "ssh_key" {
  description = "Name of the SSH key in AWS that should have acccess to EC2 instances, e.g. `jimmy`"
}

variable "version" {
  description = "Version of Kubernetes to use, e.g. `1.0.0`"
}

variable "zone_id" {
  description = "Zone ID of the Route 53 hosted zone, e.g. `Z111111QQQQQQQ`"
}
"#);
    text
}

#[test]
fn repository_with_the_default_source() {
    let scaffold = Repository::new("infrastructure", None).create();
    assert_eq!(
        scaffold.directories,
        vec!["infrastructure/clusters", "infrastructure/terraform/kaws"]
    );
    assert_eq!(scaffold.files.len(), 2);
    assert_eq!(scaffold.files[0].0, "infrastructure/.gitignore");
    assert_eq!(scaffold.files[0].1, ".terraform\n");
    assert_eq!(scaffold.files[1].0, "infrastructure/terraform/kaws/main.tf");
    assert_eq!(scaffold.files[1].1, module("github.com/InQuicker/kaws//terraform?ref=v0.1.0"));
    assert_eq!(scaffold.message, "New repository \"infrastructure\" created!");
}

#[test]
fn repository_with_a_source_of_its_own() {
    let scaffold = Repository::new("infra", Some("../terraform")).create();
    assert_eq!(scaffold.files[1].1, module("../terraform"));
    assert!(scaffold.files[1].1.starts_with("module \"kaws\" {\n    source = \"../terraform\"\n"));
    assert!(scaffold.files[1].1.contains("    zone_id = \"${var.zone_id}\"\n}\n\nvariable \"cluster\" {\n"));
    assert!(scaffold.files[1].1.ends_with("e.g. `Z111111QQQQQQQ`\"\n}\n"));
}

#[test]
fn module_text() {
    assert_eq!(DEFAULT_TERRAFORM_SOURCE, "github.com/InQuicker/kaws//terraform?ref=v0.1.0");
    assert_eq!(MODULE_HEAD, "module \"kaws\" {\n    source = \"");
    assert_eq!(MODULE_TAIL.matches("variable \"").count(), 15);
    assert_eq!(MODULE_TAIL.matches("${var.").count(), 15);
}
