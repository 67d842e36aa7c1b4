use kaws::rotation::{sealed_keys, Rotation, RotationAction, RotationStage, RotationVerdict};

fn run(total: usize, reports: &[bool]) -> (Rotation, Vec<RotationAction>) {
    let (mut rotation, first) = Rotation::start(total);
    let mut actions = vec![first];
    for report in reports {
        let (next, action) = rotation.step(*report);
        rotation = next;
        actions.push(action);
    }
    (rotation, actions)
}

fn rewritten(total: usize, reports: &[bool]) -> Vec<usize> {
    let (_, actions) = run(total, reports);
    let mut done = Vec::new();
    for (i, report) in reports.iter().enumerate() {
        if let RotationAction::Perform { artifact, stage: RotationStage::Write } = actions[i] {
            if *report {
                done.push(artifact);
            }
        }
    }
    done
}

#[test]
fn sealed_keys_of_a_cluster() {
    assert_eq!(
        sealed_keys("demo"),
        vec![
            "clusters/demo/ca-key-encrypted.base64",
            "clusters/demo/masters-key-encrypted.base64",
            "clusters/demo/nodes-key-encrypted.base64",
            "clusters/demo/etcd-ca-key-encrypted.base64",
            "clusters/demo/etcd-client-key-encrypted.base64",
            "clusters/demo/etcd-server-key-encrypted.base64",
            "clusters/demo/etcd-peer-ca-key-encrypted.base64",
            "clusters/demo/etcd-peer-peer-key-encrypted.base64",
        ]
    );
}

#[test]
fn nothing_to_rotate_is_complete_at_once() {
    let (rotation, action) = Rotation::start(0);
    assert_eq!(action, RotationAction::Finish(RotationVerdict::Complete));
    assert!(rotation.finished);
    assert_eq!(rotation.step(true).1, RotationAction::Nothing);
}

#[test]
fn each_key_goes_through_four_stages() {
    let (rotation, actions) = run(2, &[true; 8]);
    let perform = |artifact, stage| RotationAction::Perform { artifact, stage };
    assert_eq!(
        actions,
        vec![
            perform(0, RotationStage::Read),
            perform(0, RotationStage::Unwrap),
            perform(0, RotationStage::Rewrap),
            perform(0, RotationStage::Write),
            perform(1, RotationStage::Read),
            perform(1, RotationStage::Unwrap),
            perform(1, RotationStage::Rewrap),
            perform(1, RotationStage::Write),
            RotationAction::Finish(RotationVerdict::Complete),
        ]
    );
    assert!(rotation.finished);
    assert_eq!(rewritten(2, &[true; 8]), vec![0, 1]);
}

#[test]
fn the_first_failure_stops_the_rotation() {
    let reports = [true, true, true, true, true, false];
    let (rotation, actions) = run(3, &reports);
    assert_eq!(
        actions[6],
        RotationAction::Finish(RotationVerdict::Stopped {
            artifact: 1,
            stage: RotationStage::Unwrap
        })
    );
    assert!(rotation.finished);
    assert_eq!(rewritten(3, &reports), vec![0]);
}

#[test]
fn a_failed_write_leaves_the_key_as_it_was() {
    let reports = [true, true, true, false];
    let (_, actions) = run(8, &reports);
    assert_eq!(
        actions[4],
        RotationAction::Finish(RotationVerdict::Stopped { artifact: 0, stage: RotationStage::Write })
    );
    assert_eq!(rewritten(8, &reports), Vec::<usize>::new());
}

#[test]
fn nothing_follows_the_end_of_a_rotation() {
    let (rotation, actions) = run(1, &[true, false, true, true, false]);
    assert_eq!(
        actions[2],
        RotationAction::Finish(RotationVerdict::Stopped { artifact: 0, stage: RotationStage::Unwrap })
    );
    assert_eq!(&actions[3..], &[RotationAction::Nothing; 3]);
    assert!(rotation.finished);
}

#[test]
fn what_is_rewritten_is_always_a_prefix() {
    for total in 0..4usize {
        for length in 0..=(4 * total + 2) {
            for bits in 0..(1u32 << length) {
                let reports: Vec<bool> = (0..length).map(|i| bits >> i & 1 == 1).collect();
                let done = rewritten(total, &reports);
                let expected: Vec<usize> = (0..done.len()).collect();
                assert_eq!(done, expected);
                assert!(done.len() <= total);
                let (_, actions) = run(total, &reports);
                match actions[length] {
                    RotationAction::Finish(RotationVerdict::Complete) => {
                        assert_eq!(done.len(), total);
                        assert_eq!(length, 4 * total);
                        assert!(reports.iter().all(|report| *report));
                    }
                    RotationAction::Finish(RotationVerdict::Stopped { artifact, .. }) => {
                        assert_eq!(done.len(), artifact);
                        assert!(artifact < total);
                        assert!(!reports[length - 1]);
                    }
                    _ => {}
                }
            }
        }
    }
}

#[test]
fn a_rotation_there_and_back_takes_every_key_twice() {
    let keys = sealed_keys("demo");
    let (_, there) = run(keys.len(), &vec![true; 4 * keys.len()]);
    let (_, back) = run(keys.len(), &vec![true; 4 * keys.len()]);
    assert_eq!(there.last(), Some(&RotationAction::Finish(RotationVerdict::Complete)));
    assert_eq!(there, back);
}
