use kaws::error::ErrorKind;
use kaws::issuance::Operation;
use kaws::orchestrator::{
    common_name, contains_step, generate_all_plan, produced_ledger, refusal_error, remaining_plan,
    subject_alternative_names, task, Ledger, PkiStep, Refusal,
};
use kaws::store::{Subject, TrustDomain};

fn step(domain: TrustDomain, subject: Subject) -> PkiStep {
    PkiStep { domain, subject }
}

#[test]
fn all_is_generated_domain_by_domain_authority_first() {
    assert_eq!(
        generate_all_plan(),
        vec![
            step(TrustDomain::Kubernetes, Subject::Ca),
            step(TrustDomain::Kubernetes, Subject::Masters),
            step(TrustDomain::Kubernetes, Subject::Nodes),
            step(TrustDomain::EtcdClient, Subject::Ca),
            step(TrustDomain::EtcdClient, Subject::Client),
            step(TrustDomain::EtcdClient, Subject::Server),
            step(TrustDomain::EtcdPeer, Subject::Ca),
            step(TrustDomain::EtcdPeer, Subject::Peer),
        ]
    );
}

#[test]
fn the_whole_plan_can_be_carried_out_from_nothing() {
    let mut ledger = Ledger::new();
    for step in generate_all_plan() {
        assert_eq!(ledger.record(step), Ok(()));
    }
    assert_eq!(ledger, Ledger { kubernetes: true, etcd_client: true, etcd_peer: true });
}

#[test]
fn a_failure_midway_leaves_what_was_done() {
    let mut ledger = Ledger::new();
    for step in generate_all_plan().into_iter().take(4) {
        ledger.record(step).unwrap();
    }
    assert_eq!(ledger, Ledger { kubernetes: true, etcd_client: true, etcd_peer: false });
    assert_eq!(ledger.check(step(TrustDomain::EtcdClient, Subject::Client)), Ok(()));
    assert_eq!(
        ledger.check(step(TrustDomain::EtcdPeer, Subject::Peer)),
        Err(Refusal::AuthorityMissing)
    );
}

#[test]
fn an_authority_is_not_generated_twice() {
    let mut ledger = Ledger::new();
    let authority = step(TrustDomain::Kubernetes, Subject::Ca);
    assert_eq!(ledger.record(authority), Ok(()));
    let before = ledger;
    assert_eq!(ledger.record(authority), Err(Refusal::AuthorityExists));
    assert_eq!(ledger, before);
    assert!(ledger.authority_issued(TrustDomain::Kubernetes));
}

#[test]
fn a_leaf_needs_the_authority_of_its_own_domain() {
    let mut ledger = Ledger::new();
    ledger.record(step(TrustDomain::EtcdClient, Subject::Ca)).unwrap();
    assert_eq!(
        ledger.record(step(TrustDomain::Kubernetes, Subject::Masters)),
        Err(Refusal::AuthorityMissing)
    );
    assert_eq!(ledger.record(step(TrustDomain::EtcdClient, Subject::Server)), Ok(()));
    assert_eq!(ledger.record(step(TrustDomain::EtcdClient, Subject::Server)), Ok(()));
    assert_eq!(ledger, Ledger { kubernetes: false, etcd_client: true, etcd_peer: false });
}

#[test]
fn a_stranger_to_the_domain_is_refused() {
    let ledger = Ledger { kubernetes: true, etcd_client: true, etcd_peer: true };
    assert_eq!(ledger.check(step(TrustDomain::Kubernetes, Subject::Peer)), Err(Refusal::Stranger));
    assert_eq!(ledger.check(step(TrustDomain::EtcdPeer, Subject::Server)), Err(Refusal::Stranger));
    assert_eq!(ledger.check(step(TrustDomain::EtcdClient, Subject::Nodes)), Err(Refusal::Stranger));
}

#[test]
fn refusals_are_worded() {
    for refusal in [Refusal::Stranger, Refusal::AuthorityExists, Refusal::AuthorityMissing] {
        assert_eq!(refusal_error(refusal).kind, ErrorKind::Other);
    }
    assert_eq!(
        refusal_error(Refusal::AuthorityExists).message,
        "The trust domain has a certificate authority; it is not generated anew."
    );
    assert_eq!(
        refusal_error(Refusal::AuthorityMissing).message,
        "The trust domain has no certificate authority to sign with."
    );
    assert_eq!(
        refusal_error(Refusal::Stranger).message,
        "The subject holds no certificate in this trust domain."
    );
}

#[test]
fn common_names_tell_cluster_domain_and_subject() {
    assert_eq!(common_name("demo", step(TrustDomain::Kubernetes, Subject::Ca)), "kaws-ca-demo");
    assert_eq!(
        common_name("demo", step(TrustDomain::Kubernetes, Subject::Masters)),
        "kaws-masters-demo"
    );
    assert_eq!(
        common_name("demo", step(TrustDomain::EtcdClient, Subject::Server)),
        "kaws-etcd-server-demo"
    );
    assert_eq!(
        common_name("demo", step(TrustDomain::EtcdPeer, Subject::Ca)),
        "kaws-etcd-peer-ca-demo"
    );
}

#[test]
fn only_the_masters_are_given_hostnames() {
    for step in generate_all_plan() {
        let san = subject_alternative_names("demo.example.com", step);
        if step == (PkiStep { domain: TrustDomain::Kubernetes, subject: Subject::Masters }) {
            assert_eq!(san, Some(vec!["kubernetes.demo.example.com".to_string()]));
        } else {
            assert_eq!(san, None);
        }
    }
}

#[test]
fn task_for_an_authority() {
    let task = task("demo", "example.com", step(TrustDomain::EtcdClient, Subject::Ca));
    assert_eq!(task.operation, Operation::GenerateAuthority);
    assert_eq!(task.common_name, "kaws-etcd-ca-demo");
    assert_eq!(task.san, None);
    assert_eq!(task.authority, None);
    assert_eq!(task.certificate_path, "clusters/demo/etcd-ca.pem");
    assert_eq!(task.sealed_key_path, "clusters/demo/etcd-ca-key-encrypted.base64");
}

#[test]
fn task_for_the_masters() {
    let task = task("demo", "demo.example.com", step(TrustDomain::Kubernetes, Subject::Masters));
    assert_eq!(task.operation, Operation::GenerateLeaf);
    assert_eq!(task.common_name, "kaws-masters-demo");
    assert_eq!(task.san, Some(vec!["kubernetes.demo.example.com".to_string()]));
    assert_eq!(
        task.authority,
        Some((
            "clusters/demo/ca.pem".to_string(),
            "clusters/demo/ca-key-encrypted.base64".to_string()
        ))
    );
    assert_eq!(task.certificate_path, "clusters/demo/masters.pem");
    assert_eq!(task.sealed_key_path, "clusters/demo/masters-key-encrypted.base64");
}

#[test]
fn a_leaf_is_signed_by_its_own_domains_authority() {
    let task = task("demo", "example.com", step(TrustDomain::EtcdPeer, Subject::Peer));
    assert_eq!(
        task.authority,
        Some((
            "clusters/demo/etcd-peer-ca.pem".to_string(),
            "clusters/demo/etcd-peer-ca-key-encrypted.base64".to_string()
        ))
    );
    let task = task_of_server();
    assert_eq!(task.0, "clusters/demo/etcd-ca.pem");
    assert_ne!(task.0, "clusters/demo/ca.pem");
}

fn task_of_server() -> (String, String) {
    task("demo", "example.com", step(TrustDomain::EtcdClient, Subject::Server)).authority.unwrap()
}

#[test]
fn with_nothing_issued_all_is_left() {
    assert_eq!(remaining_plan(&[]), generate_all_plan());
    assert_eq!(produced_ledger(&[]), Ledger::new());
}

#[test]
fn generating_all_goes_on_where_it_stopped() {
    let produced: Vec<PkiStep> = generate_all_plan().into_iter().take(4).collect();
    assert_eq!(
        remaining_plan(&produced),
        vec![
            step(TrustDomain::EtcdClient, Subject::Client),
            step(TrustDomain::EtcdClient, Subject::Server),
            step(TrustDomain::EtcdPeer, Subject::Ca),
            step(TrustDomain::EtcdPeer, Subject::Peer),
        ]
    );
    assert_eq!(
        produced_ledger(&produced),
        Ledger { kubernetes: true, etcd_client: true, etcd_peer: false }
    );
    assert_eq!(remaining_plan(&generate_all_plan()), Vec::<PkiStep>::new());
}

#[test]
fn what_is_left_can_always_be_carried_out() {
    let plan = generate_all_plan();
    for bits in 0..(1u32 << plan.len()) {
        let produced: Vec<PkiStep> = plan
            .iter()
            .enumerate()
            .filter(|(i, _)| bits >> i & 1 == 1)
            .map(|(_, step)| *step)
            .collect();
        let left = remaining_plan(&produced);
        let mut ledger = produced_ledger(&produced);
        for step in &left {
            assert!(!produced.contains(step));
            assert_eq!(ledger.record(*step), Ok(()));
        }
        assert_eq!(left.len() + produced.len(), plan.len());
        let expected: Vec<PkiStep> =
            plan.iter().filter(|step| !produced.contains(step)).copied().collect();
        assert_eq!(left, expected);
    }
}

#[test]
fn a_step_is_found_among_steps() {
    let steps = [step(TrustDomain::EtcdPeer, Subject::Ca), step(TrustDomain::Kubernetes, Subject::Nodes)];
    assert!(contains_step(&steps, step(TrustDomain::Kubernetes, Subject::Nodes)));
    assert!(contains_step(&steps, step(TrustDomain::EtcdPeer, Subject::Ca)));
    assert!(!contains_step(&steps, step(TrustDomain::EtcdPeer, Subject::Peer)));
    assert!(!contains_step(&[], step(TrustDomain::Kubernetes, Subject::Ca)));
}
