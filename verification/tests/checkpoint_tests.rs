use timelapse_core::checkpoint::{sleep_decision, Checkpoint, SleepPlan, CHECKPOINT_SIZE};

fn sample() -> Checkpoint {
    Checkpoint {
        image_count_id: 17,
        auto_capture: true,
        next_capture_time: 1710147600,
        duration_time: 90,
        current_resolution: 7,
        current_track_id: 3,
        last_capture_time: 1710079500,
        last_posted_time: 1710000000,
        capture_start_time: 1700000000,
        capture_end_time: 1720000000,
        last_status_posted_time: 1710050000,
    }
}

#[test]
fn checkpoint_round_trip() {
    let cp = sample();
    let bytes = cp.save();
    assert_eq!(bytes.len(), CHECKPOINT_SIZE);
    let back = Checkpoint::load(&bytes).unwrap();
    assert_eq!(back, cp);
    // the reset state survives too
    let fresh = Checkpoint::new();
    assert_eq!(Checkpoint::load(&fresh.save()).unwrap(), fresh);
}

#[test]
fn checkpoint_layout_is_exact() {
    let cp = sample();
    let bytes = cp.save();
    // little-endian image count, then the auto-capture flag byte
    assert_eq!(&bytes[0..4], &[17, 0, 0, 0]);
    assert_eq!(bytes[4], 1);
}

#[test]
fn checkpoint_rejects_bad_region() {
    assert!(Checkpoint::load(&[]).is_none());
    assert!(Checkpoint::load(&[0u8; 64]).is_none());
    assert!(Checkpoint::load(&[0u8; 66]).is_none());
    // a flag byte that is not a boolean marks a corrupt region
    let mut bytes = sample().save();
    bytes[4] = 7;
    assert!(Checkpoint::load(&bytes).is_none());
}

#[test]
fn sleep_threshold_at_one_minute() {
    // a zero wait still pauses a second between polls
    assert_eq!(sleep_decision(0), SleepPlan::InProcessWait(1));
    assert_eq!(sleep_decision(1), SleepPlan::InProcessWait(1));
    assert_eq!(sleep_decision(60), SleepPlan::InProcessWait(60));
    // anything longer saves the checkpoint and powers off
    assert_eq!(sleep_decision(61), SleepPlan::CheckpointAndPowerOff(61));
    assert_eq!(sleep_decision(86400), SleepPlan::CheckpointAndPowerOff(86400));
}
