//! Rotation of the master key: every sealed key of a cluster is opened
//! under the key it was sealed with and sealed again under the new one.
//!
//! The sealed keys are taken one after the other, each through four
//! stages. The first failure ends the rotation where it stands: what was
//! rewritten stays rewritten and the rest stays as it was, so that the
//! rotation can be run again while both master keys can still be used.

use vstd::prelude::*;
use crate::orchestrator::{whole_plan, PkiStep};
use crate::store::{sealed_key_file, sealed_key_path, Subject, TrustDomain};

verus! {

/// What is done to one sealed key.
#[derive(Clone, Copy, Debug, PartialEq, Eq, Structural)]
pub enum RotationStage {
    /// Read the file and open the blob's frame.
    Read,
    /// Have the service decrypt under the current master key.
    Unwrap,
    /// Have the service encrypt under the new master key.
    Rewrap,
    /// Put the new blob in the place of the old, all or nothing.
    Write,
}

/// How a rotation ended.
#[derive(Clone, Copy, Debug, PartialEq, Eq, Structural)]
pub enum RotationVerdict {
    /// Every sealed key rests under the new master key.
    Complete,
    /// A stage failed for the sealed key of this number; the keys before it
    /// rest under the new master key, this one and those after it under
    /// the old.
    Stopped { artifact: usize, stage: RotationStage },
}

/// What the caller is to do next.
#[derive(Clone, Copy, Debug, PartialEq, Eq, Structural)]
pub enum RotationAction {
    Perform { artifact: usize, stage: RotationStage },
    Finish(RotationVerdict),
    /// The rotation is over.
    Nothing,
}

/// A rotation in progress.
#[derive(Clone, Copy, Debug, PartialEq, Eq, Structural)]
pub struct Rotation {
    /// How many sealed keys there are.
    pub total: usize,
    /// The number of the sealed key that is being worked on.
    pub artifact: usize,
    pub stage: RotationStage,
    pub finished: bool,
}

/// The sealed keys of a cluster, in the order in which they are rotated.
pub open spec fn sealed_key_files(cluster: Seq<char>) -> Seq<Seq<char>> {
    whole_plan().map_values(|step: PkiStep| sealed_key_file(cluster, step.domain, step.subject))
}

/// The paths of the sealed keys of `cluster`.
pub fn sealed_keys(cluster: &str) -> (paths: Vec<String>)
    ensures
        paths.deep_view() == sealed_key_files(cluster@),
{
    let mut paths: Vec<String> = Vec::new();
    paths.push(sealed_key_path(cluster, TrustDomain::Kubernetes, Subject::Ca));
    paths.push(sealed_key_path(cluster, TrustDomain::Kubernetes, Subject::Masters));
    paths.push(sealed_key_path(cluster, TrustDomain::Kubernetes, Subject::Nodes));
    paths.push(sealed_key_path(cluster, TrustDomain::EtcdClient, Subject::Ca));
    paths.push(sealed_key_path(cluster, TrustDomain::EtcdClient, Subject::Client));
    paths.push(sealed_key_path(cluster, TrustDomain::EtcdClient, Subject::Server));
    paths.push(sealed_key_path(cluster, TrustDomain::EtcdPeer, Subject::Ca));
    paths.push(sealed_key_path(cluster, TrustDomain::EtcdPeer, Subject::Peer));
    assert(paths.deep_view() =~= sealed_key_files(cluster@));
    paths
}

impl Rotation {
    /// The rotation and first action for `total` sealed keys.
    pub open spec fn initial(total: usize) -> (Rotation, RotationAction) {
        if total == 0 {
            (
                Rotation { total, artifact: 0, stage: RotationStage::Read, finished: true },
                RotationAction::Finish(RotationVerdict::Complete),
            )
        } else {
            (
                Rotation { total, artifact: 0, stage: RotationStage::Read, finished: false },
                RotationAction::Perform { artifact: 0, stage: RotationStage::Read },
            )
        }
    }

    /// The rotation at the next stage of the same sealed key.
    pub open spec fn at_stage(self, stage: RotationStage) -> (Rotation, RotationAction) {
        (
            Rotation { total: self.total, artifact: self.artifact, stage, finished: false },
            RotationAction::Perform { artifact: self.artifact, stage },
        )
    }

    /// The rotation and action that follow the report of a stage.
    pub open spec fn next(self, succeeded: bool) -> (Rotation, RotationAction) {
        if self.finished {
            (self, RotationAction::Nothing)
        } else if !succeeded {
            (
                Rotation { finished: true, ..self },
                RotationAction::Finish(
                    RotationVerdict::Stopped { artifact: self.artifact, stage: self.stage },
                ),
            )
        } else {
            match self.stage {
                RotationStage::Read => self.at_stage(RotationStage::Unwrap),
                RotationStage::Unwrap => self.at_stage(RotationStage::Rewrap),
                RotationStage::Rewrap => self.at_stage(RotationStage::Write),
                RotationStage::Write => if self.artifact >= self.total || self.artifact + 1
                    == self.total {
                    (
                        Rotation { finished: true, ..self },
                        RotationAction::Finish(RotationVerdict::Complete),
                    )
                } else {
                    (
                        Rotation {
                            total: self.total,
                            artifact: (self.artifact + 1) as usize,
                            stage: RotationStage::Read,
                            finished: false,
                        },
                        RotationAction::Perform {
                            artifact: (self.artifact + 1) as usize,
                            stage: RotationStage::Read,
                        },
                    )
                },
            }
        }
    }

    /// Begins the rotation of `total` sealed keys.
    pub fn start(total: usize) -> (begun: (Rotation, RotationAction))
        ensures
            begun == Rotation::initial(total),
    {
        if total == 0 {
            (
                Rotation { total, artifact: 0, stage: RotationStage::Read, finished: true },
                RotationAction::Finish(RotationVerdict::Complete),
            )
        } else {
            (
                Rotation { total, artifact: 0, stage: RotationStage::Read, finished: false },
                RotationAction::Perform { artifact: 0, stage: RotationStage::Read },
            )
        }
    }

    fn go_to(self, stage: RotationStage) -> (gone: (Rotation, RotationAction))
        ensures
            gone == self.at_stage(stage),
    {
        (
            Rotation { total: self.total, artifact: self.artifact, stage, finished: false },
            RotationAction::Perform { artifact: self.artifact, stage },
        )
    }

    /// Takes the report of the pending stage and decides what follows.
    pub fn step(self, succeeded: bool) -> (followed: (Rotation, RotationAction))
        ensures
            followed == self.next(succeeded),
    {
        if self.finished {
            (self, RotationAction::Nothing)
        } else if !succeeded {
            (
                Rotation {
                    total: self.total,
                    artifact: self.artifact,
                    stage: self.stage,
                    finished: true,
                },
                RotationAction::Finish(
                    RotationVerdict::Stopped { artifact: self.artifact, stage: self.stage },
                ),
            )
        } else {
            match self.stage {
                RotationStage::Read => self.go_to(RotationStage::Unwrap),
                RotationStage::Unwrap => self.go_to(RotationStage::Rewrap),
                RotationStage::Rewrap => self.go_to(RotationStage::Write),
                RotationStage::Write => if self.artifact >= self.total || self.artifact + 1
                    == self.total {
                    (
                        Rotation {
                            total: self.total,
                            artifact: self.artifact,
                            stage: self.stage,
                            finished: true,
                        },
                        RotationAction::Finish(RotationVerdict::Complete),
                    )
                } else {
                    (
                        Rotation {
                            total: self.total,
                            artifact: self.artifact + 1,
                            stage: RotationStage::Read,
                            finished: false,
                        },
                        RotationAction::Perform {
                            artifact: self.artifact + 1,
                            stage: RotationStage::Read,
                        },
                    )
                },
            }
        }
    }
}

/// The rotation after the caller has reported `reports` in turn.
pub open spec fn rotation_after(total: usize, reports: Seq<bool>) -> Rotation
    decreases reports.len(),
{
    if reports.len() == 0 {
        Rotation::initial(total).0
    } else {
        rotation_after(total, reports.drop_last()).next(reports.last()).0
    }
}

/// The action that is pending once `reports` have been made.
pub open spec fn rotation_pending(total: usize, reports: Seq<bool>) -> RotationAction {
    if reports.len() == 0 {
        Rotation::initial(total).1
    } else {
        rotation_after(total, reports.drop_last()).next(reports.last()).1
    }
}

/// The numbers of the sealed keys whose new blob was put in place along
/// `reports`, in the order in which that happened.
pub open spec fn rewritten(total: usize, reports: Seq<bool>) -> Seq<int>
    decreases reports.len(),
{
    if reports.len() == 0 {
        Seq::empty()
    } else {
        let before = rotation_after(total, reports.drop_last());
        let earlier = rewritten(total, reports.drop_last());
        if !before.finished && before.stage == RotationStage::Write && reports.last() {
            earlier.push(before.artifact as int)
        } else {
            earlier
        }
    }
}

/// The numbers from 0 up to `count`, without it.
pub open spec fn first(count: int) -> Seq<int> {
    Seq::new(count as nat, |i: int| i)
}

/// How many stages come before `stage` for one sealed key.
pub open spec fn stages_before(stage: RotationStage) -> int {
    match stage {
        RotationStage::Read => 0,
        RotationStage::Unwrap => 1,
        RotationStage::Rewrap => 2,
        RotationStage::Write => 3,
    }
}

/// What holds after any reports whatever.
spec fn coherent(total: usize, reports: Seq<bool>) -> bool {
    let rotation = rotation_after(total, reports);
    let pending = rotation_pending(total, reports);
    let done = rewritten(total, reports);
    &&& rotation.total == total
    &&& done.len() <= total
    &&& done =~= first(done.len() as int)
    &&& !rotation.finished ==> {
        &&& rotation.artifact < total
        &&& done.len() == rotation.artifact
        &&& pending == RotationAction::Perform {
            artifact: rotation.artifact,
            stage: rotation.stage,
        }
        &&& reports.len() == 4 * rotation.artifact + stages_before(rotation.stage)
        &&& forall|i: int| 0 <= i < reports.len() ==> reports[i]
    }
    &&& rotation.finished ==> !(pending is Perform)
    &&& pending is Finish ==> rotation.finished
    &&& pending == RotationAction::Finish(RotationVerdict::Complete) ==> {
        &&& done.len() == total
        &&& reports.len() == 4 * total
        &&& forall|i: int| 0 <= i < reports.len() ==> reports[i]
    }
    &&& pending matches RotationAction::Finish(RotationVerdict::Stopped { artifact, stage })
        ==> {
        &&& artifact < total
        &&& done.len() == artifact
        &&& reports.len() == 4 * artifact + stages_before(stage) + 1
        &&& !reports.last()
    }
}

proof fn always_coherent(total: usize, reports: Seq<bool>)
    ensures
        coherent(total, reports),
    decreases reports.len(),
{
    if reports.len() > 0 {
        let earlier = reports.drop_last();
        always_coherent(total, earlier);
        let done = rewritten(total, earlier);
        assert(first(done.len() as int).push(done.len() as int) =~= first(done.len() as int + 1));
        assert forall|i: int|
            0 <= i < reports.len() && (forall|j: int|
                0 <= j < earlier.len() ==> earlier[j]) && reports.last() implies reports[i] by {
            if i < earlier.len() {
                assert(reports[i] == earlier[i]);
            }
        }
    }
}

/// A rotation that ends has rewritten the sealed keys before the one it
/// stopped at, each once and in order, and none from there on; one that
/// ends complete has rewritten them all.
pub proof fn rotation_keeps_a_prefix(total: usize, reports: Seq<bool>)
    requires
        rotation_pending(total, reports) is Finish,
    ensures
        match rotation_pending(total, reports)->Finish_0 {
            RotationVerdict::Complete => rewritten(total, reports) == first(total as int),
            RotationVerdict::Stopped { artifact, stage } => artifact < total && rewritten(
                total,
                reports,
            ) == first(artifact as int),
        },
{
    always_coherent(total, reports);
}

/// Whatever is reported, the sealed keys are rewritten in order from the
/// first, none twice and none skipped.
pub proof fn rotation_goes_in_order(total: usize, reports: Seq<bool>)
    ensures
        rewritten(total, reports).len() <= total,
        rewritten(total, reports) == first(rewritten(total, reports).len() as int),
{
    always_coherent(total, reports);
}

/// A rotation ends complete only when every stage of every sealed key was
/// reported to have succeeded, and it stops on the first report of a
/// failure.
pub proof fn rotation_ends_with_the_reports(total: usize, reports: Seq<bool>)
    ensures
        rotation_pending(total, reports) == RotationAction::Finish(RotationVerdict::Complete)
            ==> reports.len() == 4 * total && forall|i: int|
            0 <= i < reports.len() ==> reports[i],
        rotation_pending(total, reports) matches RotationAction::Finish(
            RotationVerdict::Stopped { artifact, stage },
        ) ==> reports.len() == 4 * artifact + stages_before(stage) + 1 && !reports.last()
            && forall|i: int| 0 <= i < reports.len() - 1 ==> reports[i],
{
    always_coherent(total, reports);
    if reports.len() > 0 {
        always_coherent(total, reports.drop_last());
        assert forall|i: int| 0 <= i < reports.len() - 1 implies reports[i] == reports.drop_last()[i] by {
        }
    }
}

} // verus!
