use tiered_workloads::action::{Action, ObjectWrite, SyncPoint};
use tiered_workloads::checkpoints::{
    CheckpointDriver, MIB, N_GENERATIONS, N_OBJECTS, OBJECT_SIZE_MIB,
};
use tiered_workloads::tier::TierIndex;

fn run() -> Vec<Action> {
    let mut driver = CheckpointDriver::new();
    let mut actions = Vec::new();
    loop {
        let action = driver.step();
        if action == Action::Finished {
            break;
        }
        actions.push(action);
        assert!(actions.len() <= 1000);
    }
    assert_eq!(driver.step(), Action::Finished);
    assert_eq!(driver.step(), Action::Finished);
    actions
}

fn writes(actions: &[Action]) -> Vec<ObjectWrite> {
    let mut found = Vec::new();
    for action in actions {
        if let Action::Write(write) = action {
            found.push(write.clone());
        }
    }
    found
}

#[test]
fn checkpoint_constants() {
    assert_eq!(N_OBJECTS, 5);
    assert_eq!(OBJECT_SIZE_MIB, [256, 256, 1, 384, 128]);
    assert_eq!(N_GENERATIONS, 20);
    assert_eq!(MIB, 1_048_576);
}

#[test]
fn checkpoint_run_creates_a_hundred_objects_and_syncs_twenty_one_times() {
    let actions = run();
    let writes = writes(&actions);
    assert_eq!(writes.len(), 100);
    let syncs = actions.iter().filter(|a| **a == Action::Sync(SyncPoint::Barrier)).count();
    assert_eq!(syncs, 21);
    assert_eq!(actions.len(), 121);
    assert_eq!(writes[0].key, b"0_0".to_vec());
    assert_eq!(writes[99].key, b"19_4".to_vec());
}

#[test]
fn checkpoint_objects_are_pinned_to_the_fastest_tier() {
    for write in writes(&run()) {
        assert_eq!(write.create_tier, TierIndex::Fastest);
        assert_eq!(write.cursor_tier, TierIndex::Fastest);
    }
}

#[test]
fn checkpoint_keys_name_generation_and_slot_in_order() {
    let writes = writes(&run());
    let mut expected = Vec::new();
    for generation in 0..20 {
        for object in 0..5 {
            expected.push(format!("{generation}_{object}").into_bytes());
        }
    }
    let keys: Vec<Vec<u8>> = writes.iter().map(|w| w.key.clone()).collect();
    assert_eq!(keys, expected);
}

#[test]
fn checkpoint_sizes_follow_the_table() {
    let writes = writes(&run());
    for (i, write) in writes.iter().enumerate() {
        assert_eq!(write.size, OBJECT_SIZE_MIB[i % 5] * 1024 * 1024);
    }
    assert_eq!(writes[0].size, 268_435_456);
    assert_eq!(writes[2].size, 1_048_576);
    assert_eq!(writes[3].size, 402_653_184);
    assert_eq!(writes[4].size, 134_217_728);
}

#[test]
fn checkpoint_syncs_after_every_generation_and_once_more() {
    let actions = run();
    for (i, action) in actions.iter().enumerate() {
        let is_sync = *action == Action::Sync(SyncPoint::Barrier);
        assert_eq!(is_sync, i % 6 == 5 || i == 120, "step {i}");
    }
    assert_eq!(actions[119], Action::Sync(SyncPoint::Barrier));
    assert_eq!(actions[120], Action::Sync(SyncPoint::Barrier));
}

#[test]
fn checkpoint_keys_are_never_reused() {
    let writes = writes(&run());
    let mut seen = std::collections::HashSet::new();
    for write in &writes {
        assert!(seen.insert(write.key.clone()));
    }
}

#[test]
fn sync_failure_messages() {
    assert_eq!(SyncPoint::Barrier.failure_message(), "Failed to sync database");
    assert_eq!(
        SyncPoint::AfterWrite.failure_message(),
        "Could not write object to disk completely. Check policy or benchmark disk utilization."
    );
}
