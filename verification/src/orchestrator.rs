//! Which certificates a cluster needs, in what order they are issued, and
//! what each issuance asks for.
//!
//! A domain begins without an authority, is given one once, and from then
//! on issues leaf certificates under it as often as asked. Nothing here
//! issues a second authority for a domain or takes one away.

use vstd::prelude::*;
use crate::error::{ErrorKind, KawsError};
use crate::issuance::Operation;
use crate::store::{
    certificate_file,
    files_are_distinct,
    certificate_path,
    sealed_key_file,
    sealed_key_path,
    stem,
    Subject,
    TrustDomain,
};

verus! {

/// One issuance: a subject of a domain.
#[derive(Clone, Copy, Debug, PartialEq, Eq, Structural)]
pub struct PkiStep {
    pub domain: TrustDomain,
    pub subject: Subject,
}

/// Which domains of a cluster have their authority.
#[derive(Clone, Copy, Debug, PartialEq, Eq, Structural)]
pub struct Ledger {
    pub kubernetes: bool,
    pub etcd_client: bool,
    pub etcd_peer: bool,
}

/// Why a step may not be taken.
#[derive(Clone, Copy, Debug, PartialEq, Eq, Structural)]
pub enum Refusal {
    /// The subject holds no certificate in the domain.
    Stranger,
    /// The domain has its authority; a second would replace the root.
    AuthorityExists,
    /// The domain has no authority to sign a leaf.
    AuthorityMissing,
}

/// All that issuing for one step takes: what to ask of the engine, which
/// authority to load for it, and where the results rest.
pub struct Task {
    pub operation: Operation,
    pub common_name: String,
    /// The hostnames that the certificate is to be valid for.
    pub san: Option<Vec<String>>,
    /// The certificate and sealed key of the signing authority.
    pub authority: Option<(String, String)>,
    pub certificate_path: String,
    pub sealed_key_path: String,
}

/// Every issuance of a new cluster, in the order in which they are made:
/// domain by domain, the authority before its leaves.
pub open spec fn whole_plan() -> Seq<PkiStep> {
    seq![
        PkiStep { domain: TrustDomain::Kubernetes, subject: Subject::Ca },
        PkiStep { domain: TrustDomain::Kubernetes, subject: Subject::Masters },
        PkiStep { domain: TrustDomain::Kubernetes, subject: Subject::Nodes },
        PkiStep { domain: TrustDomain::EtcdClient, subject: Subject::Ca },
        PkiStep { domain: TrustDomain::EtcdClient, subject: Subject::Client },
        PkiStep { domain: TrustDomain::EtcdClient, subject: Subject::Server },
        PkiStep { domain: TrustDomain::EtcdPeer, subject: Subject::Ca },
        PkiStep { domain: TrustDomain::EtcdPeer, subject: Subject::Peer },
    ]
}

/// The common name of a subject's certificate.
pub open spec fn common_name_text(cluster: Seq<char>, step: PkiStep) -> Seq<char> {
    "kaws-"@ + stem(step.domain, step.subject) + "-"@ + cluster
}

/// The hostnames of a subject's certificate: the masters of Kubernetes
/// serve its API under one name within the cluster's DNS domain; no other
/// subject is given any.
pub open spec fn hostnames(dns_domain: Seq<char>, step: PkiStep) -> Option<Seq<Seq<char>>> {
    if step.domain == TrustDomain::Kubernetes && step.subject == Subject::Masters {
        Some(seq!["kubernetes."@ + dns_domain])
    } else {
        None
    }
}

impl Ledger {
    /// Whether `domain` has its authority.
    pub open spec fn has_authority(self, domain: TrustDomain) -> bool {
        match domain {
            TrustDomain::Kubernetes => self.kubernetes,
            TrustDomain::EtcdClient => self.etcd_client,
            TrustDomain::EtcdPeer => self.etcd_peer,
        }
    }

    /// The ledger with the authority of `domain` entered.
    pub open spec fn with_authority(self, domain: TrustDomain) -> Ledger {
        match domain {
            TrustDomain::Kubernetes => Ledger { kubernetes: true, ..self },
            TrustDomain::EtcdClient => Ledger { etcd_client: true, ..self },
            TrustDomain::EtcdPeer => Ledger { etcd_peer: true, ..self },
        }
    }

    /// Why `step` may not be taken, if it may not.
    pub open spec fn refusal(self, step: PkiStep) -> Option<Refusal> {
        if !step.domain.has(step.subject) {
            Some(Refusal::Stranger)
        } else if step.subject == Subject::Ca {
            if self.has_authority(step.domain) {
                Some(Refusal::AuthorityExists)
            } else {
                None
            }
        } else if self.has_authority(step.domain) {
            None
        } else {
            Some(Refusal::AuthorityMissing)
        }
    }

    /// The ledger once `step` has been taken.
    pub open spec fn taken(self, step: PkiStep) -> Ledger {
        if step.subject == Subject::Ca {
            self.with_authority(step.domain)
        } else {
            self
        }
    }

    /// The ledger of a cluster for which nothing was issued.
    pub fn new() -> (ledger: Ledger)
        ensures
            ledger == (Ledger { kubernetes: false, etcd_client: false, etcd_peer: false }),
    {
        Ledger { kubernetes: false, etcd_client: false, etcd_peer: false }
    }

    /// Whether `domain` has its authority.
    pub fn authority_issued(&self, domain: TrustDomain) -> (issued: bool)
        ensures
            issued == self.has_authority(domain),
    {
        match domain {
            TrustDomain::Kubernetes => self.kubernetes,
            TrustDomain::EtcdClient => self.etcd_client,
            TrustDomain::EtcdPeer => self.etcd_peer,
        }
    }

    /// Decides whether `step` may be taken as things stand.
    pub fn check(&self, step: PkiStep) -> (verdict: Result<(), Refusal>)
        ensures
            match verdict {
                Ok(_) => self.refusal(step) is None,
                Err(refusal) => self.refusal(step) == Some(refusal),
            },
    {
        if !step.domain.holds(step.subject) {
            Err(Refusal::Stranger)
        } else if step.subject == Subject::Ca {
            if self.authority_issued(step.domain) {
                Err(Refusal::AuthorityExists)
            } else {
                Ok(())
            }
        } else if self.authority_issued(step.domain) {
            Ok(())
        } else {
            Err(Refusal::AuthorityMissing)
        }
    }

    /// Enters a step that was taken. A step that may not be taken leaves
    /// the ledger as it was.
    pub fn record(&mut self, step: PkiStep) -> (verdict: Result<(), Refusal>)
        ensures
            match verdict {
                Ok(_) => old(self).refusal(step) is None && *final(self) == old(self).taken(step),
                Err(refusal) => old(self).refusal(step) == Some(refusal) && *final(self) == *old(
                    self,
                ),
            },
    {
        match self.check(step) {
            Ok(_) => {
                if step.subject == Subject::Ca {
                    match step.domain {
                        TrustDomain::Kubernetes => {
                            self.kubernetes = true;
                        },
                        TrustDomain::EtcdClient => {
                            self.etcd_client = true;
                        },
                        TrustDomain::EtcdPeer => {
                            self.etcd_peer = true;
                        },
                    }
                }
                Ok(())
            },
            Err(refusal) => Err(refusal),
        }
    }
}

/// The failure that a refusal amounts to.
pub fn refusal_error(refusal: Refusal) -> (error: KawsError)
    ensures
        error.kind == ErrorKind::Other,
        error.message@ == (match refusal {
            Refusal::Stranger => "The subject holds no certificate in this trust domain."@,
            Refusal::AuthorityExists =>
                "The trust domain has a certificate authority; it is not generated anew."@,
            Refusal::AuthorityMissing =>
                "The trust domain has no certificate authority to sign with."@,
        }),
{
    match refusal {
        Refusal::Stranger => KawsError::new(
            String::from_str("The subject holds no certificate in this trust domain."),
        ),
        Refusal::AuthorityExists => KawsError::new(
            String::from_str(
                "The trust domain has a certificate authority; it is not generated anew.",
            ),
        ),
        Refusal::AuthorityMissing => KawsError::new(
            String::from_str("The trust domain has no certificate authority to sign with."),
        ),
    }
}

/// Every issuance of a new cluster, in order.
pub fn generate_all_plan() -> (plan: Vec<PkiStep>)
    ensures
        plan@ == whole_plan(),
{
    let mut plan: Vec<PkiStep> = Vec::new();
    plan.push(PkiStep { domain: TrustDomain::Kubernetes, subject: Subject::Ca });
    plan.push(PkiStep { domain: TrustDomain::Kubernetes, subject: Subject::Masters });
    plan.push(PkiStep { domain: TrustDomain::Kubernetes, subject: Subject::Nodes });
    plan.push(PkiStep { domain: TrustDomain::EtcdClient, subject: Subject::Ca });
    plan.push(PkiStep { domain: TrustDomain::EtcdClient, subject: Subject::Client });
    plan.push(PkiStep { domain: TrustDomain::EtcdClient, subject: Subject::Server });
    plan.push(PkiStep { domain: TrustDomain::EtcdPeer, subject: Subject::Ca });
    plan.push(PkiStep { domain: TrustDomain::EtcdPeer, subject: Subject::Peer });
    assert(plan@ =~= whole_plan());
    plan
}

/// The whole plan as far as its first `count` steps, without the steps in
/// `produced`.
pub open spec fn plan_without(produced: Seq<PkiStep>, count: int) -> Seq<PkiStep>
    decreases count,
{
    if count <= 0 {
        Seq::empty()
    } else {
        let earlier = plan_without(produced, count - 1);
        let step = whole_plan()[count - 1];
        if produced.contains(step) {
            earlier
        } else {
            earlier.push(step)
        }
    }
}

/// What is left of the whole plan once the steps in `produced` have been
/// taken: the other steps, in the plan's order.
pub open spec fn remaining(produced: Seq<PkiStep>) -> Seq<PkiStep> {
    plan_without(produced, whole_plan().len() as int)
}

/// The ledger of a cluster for which the steps in `produced` were taken.
pub open spec fn ledger_of(produced: Seq<PkiStep>) -> Ledger {
    Ledger {
        kubernetes: produced.contains(
            PkiStep { domain: TrustDomain::Kubernetes, subject: Subject::Ca },
        ),
        etcd_client: produced.contains(
            PkiStep { domain: TrustDomain::EtcdClient, subject: Subject::Ca },
        ),
        etcd_peer: produced.contains(
            PkiStep { domain: TrustDomain::EtcdPeer, subject: Subject::Ca },
        ),
    }
}

/// Decides whether `step` is among `steps`.
pub fn contains_step(steps: &[PkiStep], step: PkiStep) -> (found: bool)
    ensures
        found == steps@.contains(step),
{
    let mut i: usize = 0;
    while i < steps.len()
        invariant
            i <= steps.len(),
            forall|j: int| 0 <= j < i ==> steps@[j] != step,
        decreases steps.len() - i,
    {
        if steps[i] == step {
            return true;
        }
        i = i + 1;
    }
    false
}

/// The ledger of a cluster for which the steps in `produced` were taken.
pub fn produced_ledger(produced: &[PkiStep]) -> (ledger: Ledger)
    ensures
        ledger == ledger_of(produced@),
{
    Ledger {
        kubernetes: contains_step(
            produced,
            PkiStep { domain: TrustDomain::Kubernetes, subject: Subject::Ca },
        ),
        etcd_client: contains_step(
            produced,
            PkiStep { domain: TrustDomain::EtcdClient, subject: Subject::Ca },
        ),
        etcd_peer: contains_step(
            produced,
            PkiStep { domain: TrustDomain::EtcdPeer, subject: Subject::Ca },
        ),
    }
}

/// What is left to issue for a cluster where the steps in `produced` were
/// taken before: generating all goes on where it stopped, and issues
/// nothing a second time.
pub fn remaining_plan(produced: &[PkiStep]) -> (plan: Vec<PkiStep>)
    ensures
        plan@ == remaining(produced@),
{
    let whole = generate_all_plan();
    let mut plan: Vec<PkiStep> = Vec::new();
    let mut i: usize = 0;
    while i < whole.len()
        invariant
            whole@ == whole_plan(),
            i <= whole.len(),
            plan@ == plan_without(produced@, i as int),
        decreases whole.len() - i,
    {
        if !contains_step(produced, whole[i]) {
            plan.push(whole[i]);
        }
        i = i + 1;
    }
    plan
}

/// The common name of the certificate of `step` in `cluster`.
pub fn common_name(cluster: &str, step: PkiStep) -> (name: String)
    ensures
        name@ == common_name_text(cluster@, step),
{
    let mut name = String::from_str("kaws-");
    name.append(step.domain.prefix());
    name.append(step.subject.name());
    name.append("-");
    name.append(cluster);
    assert(name@ =~= common_name_text(cluster@, step));
    name
}

/// The hostnames of the certificate of `step`, where it has any.
pub fn subject_alternative_names(dns_domain: &str, step: PkiStep) -> (san: Option<Vec<String>>)
    ensures
        san.deep_view() == hostnames(dns_domain@, step),
{
    if step.domain == TrustDomain::Kubernetes && step.subject == Subject::Masters {
        let mut names: Vec<String> = Vec::new();
        names.push(String::from_str("kubernetes.").concat(dns_domain));
        assert(names.deep_view() =~= seq!["kubernetes."@ + dns_domain@]);
        Some(names)
    } else {
        None
    }
}

/// What the engine is asked for a step: an authority for the domain's
/// own, a leaf for any other subject.
pub open spec fn operation_of(step: PkiStep) -> Operation {
    if step.subject == Subject::Ca {
        Operation::GenerateAuthority
    } else {
        Operation::GenerateLeaf
    }
}

/// All that issuing for `step` takes. A leaf is signed by the authority of
/// its own domain and no other; the results rest at the subject's own
/// paths, the key sealed.
pub fn task(cluster: &str, dns_domain: &str, step: PkiStep) -> (task: Task)
    ensures
        task.operation == operation_of(step),
        task.common_name@ == common_name_text(cluster@, step),
        task.san.deep_view() == hostnames(dns_domain@, step),
        match task.authority {
            Some(files) => step.subject != Subject::Ca && files.0@ == certificate_file(
                cluster@,
                step.domain,
                Subject::Ca,
            ) && files.1@ == sealed_key_file(cluster@, step.domain, Subject::Ca),
            None => step.subject == Subject::Ca,
        },
        task.certificate_path@ == certificate_file(cluster@, step.domain, step.subject),
        task.sealed_key_path@ == sealed_key_file(cluster@, step.domain, step.subject),
{
    let authority = if step.subject == Subject::Ca {
        None
    } else {
        Some(
            (
                certificate_path(cluster, step.domain, Subject::Ca),
                sealed_key_path(cluster, step.domain, Subject::Ca),
            ),
        )
    };
    let operation = if step.subject == Subject::Ca {
        Operation::GenerateAuthority
    } else {
        Operation::GenerateLeaf
    };
    Task {
        operation,
        common_name: common_name(cluster, step),
        san: subject_alternative_names(dns_domain, step),
        authority,
        certificate_path: certificate_path(cluster, step.domain, step.subject),
        sealed_key_path: sealed_key_path(cluster, step.domain, step.subject),
    }
}

/// A leaf is signed within its own domain: the certificate and sealed key
/// of the authority that signs it are the files of no other domain's
/// authority.
pub proof fn leaves_are_signed_within_their_domain(
    cluster: Seq<char>,
    step: PkiStep,
    other: TrustDomain,
)
    requires
        other != step.domain,
    ensures
        certificate_file(cluster, step.domain, Subject::Ca) != certificate_file(
            cluster,
            other,
            Subject::Ca,
        ),
        sealed_key_file(cluster, step.domain, Subject::Ca) != sealed_key_file(
            cluster,
            other,
            Subject::Ca,
        ),
{
    files_are_distinct(cluster, step.domain, Subject::Ca, other, Subject::Ca);
}

/// The ledger after `steps` were taken in turn from `ledger`.
pub open spec fn ledger_after(ledger: Ledger, steps: Seq<PkiStep>) -> Ledger
    decreases steps.len(),
{
    if steps.len() == 0 {
        ledger
    } else {
        ledger_after(ledger, steps.drop_last()).taken(steps.last())
    }
}

/// Whether each of `steps` may be taken in turn from `ledger`.
pub open spec fn admitted(ledger: Ledger, steps: Seq<PkiStep>) -> bool
    decreases steps.len(),
{
    steps.len() > 0 ==> admitted(ledger, steps.drop_last()) && ledger_after(
        ledger,
        steps.drop_last(),
    ).refusal(steps.last()) is None
}

/// No step takes an authority away, and none that may be taken gives a
/// domain a second one: a domain that has its authority keeps it, and an
/// authority is issued only to a domain that has none.
pub proof fn authority_is_kept(ledger: Ledger, step: PkiStep, domain: TrustDomain)
    ensures
        ledger.has_authority(domain) ==> ledger.taken(step).has_authority(domain),
        ledger.refusal(step) is None && step.subject == Subject::Ca ==> !ledger.has_authority(
            step.domain,
        ),
        ledger.refusal(step) is None && step.subject != Subject::Ca ==> ledger.has_authority(
            step.domain,
        ) && ledger.taken(step) == ledger,
{
}

/// Along any steps that may be taken in turn, the authority of a domain is
/// issued once at most, and only to a domain that had none to begin with.
pub proof fn admitted_steps_are_ordered(ledger: Ledger, steps: Seq<PkiStep>, i: int, j: int)
    requires
        admitted(ledger, steps),
        0 <= i < j < steps.len(),
        steps[i].domain == steps[j].domain,
    ensures
        steps[j].subject != Subject::Ca || steps[i].subject != Subject::Ca,
        steps[j].subject == Subject::Ca ==> !ledger.has_authority(steps[j].domain),
    decreases steps.len(),
{
    let earlier = steps.drop_last();
    if j < steps.len() - 1 {
        admitted_steps_are_ordered(ledger, earlier, i, j);
    } else {
        authority_stays(ledger, earlier, i);
        authority_grows(ledger, earlier, steps[j].domain);
    }
}

/// Once a step has issued an authority, the domain has it ever after.
proof fn authority_stays(ledger: Ledger, steps: Seq<PkiStep>, i: int)
    requires
        0 <= i < steps.len(),
    ensures
        steps[i].subject == Subject::Ca ==> ledger_after(ledger, steps).has_authority(
            steps[i].domain,
        ),
    decreases steps.len(),
{
    if i < steps.len() - 1 {
        authority_stays(ledger, steps.drop_last(), i);
    }
}

/// A domain that had its authority to begin with has it ever after.
proof fn authority_grows(ledger: Ledger, steps: Seq<PkiStep>, domain: TrustDomain)
    ensures
        ledger.has_authority(domain) ==> ledger_after(ledger, steps).has_authority(domain),
    decreases steps.len(),
{
    if steps.len() > 0 {
        authority_grows(ledger, steps.drop_last(), domain);
    }
}

/// A domain has its authority only if it had one to begin with or a step
/// issued it.
proof fn authority_has_a_source(ledger: Ledger, steps: Seq<PkiStep>, domain: TrustDomain)
    requires
        ledger_after(ledger, steps).has_authority(domain),
    ensures
        ledger.has_authority(domain) || exists|i: int|
            0 <= i < steps.len() && #[trigger] steps[i] == (PkiStep {
                domain,
                subject: Subject::Ca,
            }),
    decreases steps.len(),
{
    if steps.len() > 0 {
        let earlier = steps.drop_last();
        if ledger_after(ledger, earlier).has_authority(domain) {
            authority_has_a_source(ledger, earlier, domain);
            if !ledger.has_authority(domain) {
                let i = choose|i: int|
                    0 <= i < earlier.len() && #[trigger] earlier[i] == (PkiStep {
                        domain,
                        subject: Subject::Ca,
                    });
                assert(steps[i] == earlier[i]);
            }
        } else {
            assert(steps[steps.len() - 1] == (PkiStep { domain, subject: Subject::Ca }));
        }
    }
}

/// Along any steps that may be taken in turn, every leaf is issued under
/// an authority of its own domain that was there to begin with or was
/// issued by an earlier step.
pub proof fn leaves_follow_their_authority(ledger: Ledger, steps: Seq<PkiStep>, j: int)
    requires
        admitted(ledger, steps),
        0 <= j < steps.len(),
        steps[j].subject != Subject::Ca,
    ensures
        ledger.has_authority(steps[j].domain) || exists|i: int|
            0 <= i < j && #[trigger] steps[i] == (PkiStep {
                domain: steps[j].domain,
                subject: Subject::Ca,
            }),
    decreases steps.len(),
{
    let earlier = steps.drop_last();
    if j < steps.len() - 1 {
        leaves_follow_their_authority(ledger, earlier, j);
        if !ledger.has_authority(steps[j].domain) {
            let i = choose|i: int|
                0 <= i < j && #[trigger] earlier[i] == (PkiStep {
                    domain: earlier[j].domain,
                    subject: Subject::Ca,
                });
            assert(steps[i] == earlier[i]);
        }
    } else {
        authority_has_a_source(ledger, earlier, steps[j].domain);
        if !ledger.has_authority(steps[j].domain) {
            let i = choose|i: int|
                0 <= i < earlier.len() && #[trigger] earlier[i] == (PkiStep {
                    domain: steps[j].domain,
                    subject: Subject::Ca,
                });
            assert(steps[i] == earlier[i]);
        }
    }
}

/// The whole plan can be carried out on a cluster for which nothing was
/// issued, and it leaves no subject of any domain out and issues for none
/// twice.
pub proof fn whole_plan_is_sound()
    ensures
        admitted(Ledger { kubernetes: false, etcd_client: false, etcd_peer: false }, whole_plan()),
        forall|domain: TrustDomain, subject: Subject|
            domain.has(subject) ==> exists|i: int|
                0 <= i < whole_plan().len() && #[trigger] whole_plan()[i] == (PkiStep {
                    domain,
                    subject,
                }),
        forall|i: int, j: int|
            0 <= i < j < whole_plan().len() ==> whole_plan()[i] != whole_plan()[j],
        forall|i: int|
            0 <= i < whole_plan().len() ==> (#[trigger] whole_plan()[i]).domain.has(
                whole_plan()[i].subject,
            ),
{
    let empty = Ledger { kubernetes: false, etcd_client: false, etcd_peer: false };
    let plan = whole_plan();
    let first7 = plan.drop_last();
    let first6 = first7.drop_last();
    let first5 = first6.drop_last();
    let first4 = first5.drop_last();
    let first3 = first4.drop_last();
    let first2 = first3.drop_last();
    let first1 = first2.drop_last();
    let first0 = first1.drop_last();
    assert(first0.len() == 0);
    assert(admitted(empty, first0));
    assert(ledger_after(empty, first0) == empty);
    assert(admitted(empty, first1));
    assert(admitted(empty, first2));
    assert(admitted(empty, first3));
    assert(admitted(empty, first4));
    assert(admitted(empty, first5));
    assert(admitted(empty, first6));
    assert(admitted(empty, first7));
    assert forall|domain: TrustDomain, subject: Subject| domain.has(subject) implies exists|i: int|
        0 <= i < whole_plan().len() && #[trigger] whole_plan()[i] == (PkiStep {
            domain,
            subject,
        }) by {
        let step = PkiStep { domain, subject };
        let i: int = match domain {
            TrustDomain::Kubernetes => match subject {
                Subject::Ca => 0,
                Subject::Masters => 1,
                _ => 2,
            },
            TrustDomain::EtcdClient => match subject {
                Subject::Ca => 3,
                Subject::Client => 4,
                _ => 5,
            },
            TrustDomain::EtcdPeer => match subject {
                Subject::Ca => 6,
                _ => 7,
            },
        };
        assert(whole_plan()[i] == step);
    }
}

/// Where in the whole plan the authority of a domain is issued.
spec fn authority_place(domain: TrustDomain) -> int {
    match domain {
        TrustDomain::Kubernetes => 0,
        TrustDomain::EtcdClient => 3,
        TrustDomain::EtcdPeer => 6,
    }
}

/// What is left of the plan's first `count` steps can be carried out, and
/// afterwards a domain has its authority exactly where it had it before or
/// its place in the plan is among those steps.
proof fn plan_without_is_admitted(produced: Seq<PkiStep>, count: int)
    requires
        0 <= count <= whole_plan().len(),
    ensures
        admitted(ledger_of(produced), plan_without(produced, count)),
        forall|domain: TrustDomain|
            #[trigger] ledger_after(ledger_of(produced), plan_without(produced, count)).has_authority(
                domain,
            ) == (ledger_of(produced).has_authority(domain) || authority_place(domain) < count),
    decreases count,
{
    if count > 0 {
        plan_without_is_admitted(produced, count - 1);
        let ledger = ledger_of(produced);
        let earlier = plan_without(produced, count - 1);
        let step = whole_plan()[count - 1];
        let reached = ledger_after(ledger, earlier);
        assert(reached.has_authority(step.domain) == (ledger.has_authority(step.domain)
            || authority_place(step.domain) < count - 1));
        if !produced.contains(step) {
            let left = earlier.push(step);
            assert(left.drop_last() =~= earlier);
            assert(left.last() == step);
            assert(reached.refusal(step) is None);
        }
        assert forall|domain: TrustDomain|
            #[trigger] ledger_after(ledger, plan_without(produced, count)).has_authority(domain)
                == (ledger.has_authority(domain) || authority_place(domain) < count) by {
            assert(reached.has_authority(domain) == (ledger.has_authority(domain)
                || authority_place(domain) < count - 1));
        }
    }
}

/// Whatever was issued before, what is left of the whole plan can be
/// carried out from there: no authority that exists is issued again, and
/// every leaf that is left finds its authority in place when its turn
/// comes. What was issued before is not among the steps that are left.
pub proof fn remaining_plan_is_admitted(produced: Seq<PkiStep>)
    ensures
        admitted(ledger_of(produced), remaining(produced)),
        forall|i: int|
            0 <= i < remaining(produced).len() ==> !produced.contains(
                #[trigger] remaining(produced)[i],
            ),
        produced.len() == 0 ==> remaining(produced) == whole_plan(),
{
    plan_without_is_admitted(produced, whole_plan().len() as int);
    plan_without_holds_none_of(produced, whole_plan().len() as int);
    if produced.len() == 0 {
        plan_without_nothing(whole_plan().len() as int);
        assert(produced =~= Seq::<PkiStep>::empty());
        assert(whole_plan().take(whole_plan().len() as int) =~= whole_plan());
    }
}

/// What is left of the plan holds no step that was taken before.
proof fn plan_without_holds_none_of(produced: Seq<PkiStep>, count: int)
    requires
        0 <= count <= whole_plan().len(),
    ensures
        forall|i: int|
            0 <= i < plan_without(produced, count).len() ==> !produced.contains(
                #[trigger] plan_without(produced, count)[i],
            ),
    decreases count,
{
    if count > 0 {
        plan_without_holds_none_of(produced, count - 1);
        let earlier = plan_without(produced, count - 1);
        let left = plan_without(produced, count);
        assert forall|i: int| 0 <= i < left.len() implies !produced.contains(#[trigger] left[i]) by {
            if i < earlier.len() {
                assert(left[i] == earlier[i]);
            }
        }
    }
}

/// With nothing taken before, all of the plan is left.
proof fn plan_without_nothing(count: int)
    requires
        0 <= count <= whole_plan().len(),
    ensures
        plan_without(Seq::empty(), count) =~= whole_plan().take(count),
    decreases count,
{
    if count > 0 {
        plan_without_nothing(count - 1);
        assert(whole_plan().take(count) =~= whole_plan().take(count - 1).push(
            whole_plan()[count - 1],
        ));
    } else {
        assert(whole_plan().take(0) =~= Seq::<PkiStep>::empty());
    }
}

} // verus!
