//! The checkpoint: the minimal scheduler and session state that must survive
//! a full power cycle, and the rule deciding when it must be saved. The
//! fixed persistent region itself is injected by the caller, which hands the
//! saved bytes back in at boot; this module owns the layout and the
//! in-process-wait versus power-off threshold.

use vstd::prelude::*;

verus! {

use vstd::bytes::*;
use vstd::slice::slice_subrange;

/// Bytes the serialized checkpoint occupies in the persistent region.
pub const CHECKPOINT_SIZE: usize = 65;

/// The state checkpointed before any sleep longer than a short in-process
/// wait, so that on restart the scheduler resumes from exactly where it
/// stopped rather than from a reset state.
#[derive(Debug, PartialEq, Eq, Structural, Clone, Copy)]
pub struct Checkpoint {
    pub image_count_id: u32,
    pub auto_capture: bool,
    pub next_capture_time: u64,
    pub duration_time: u32,
    pub current_resolution: u32,
    pub current_track_id: u32,
    pub last_capture_time: u64,
    pub last_posted_time: u64,
    pub capture_start_time: u64,
    pub capture_end_time: u64,
    pub last_status_posted_time: u64,
}

/// The fixed little-endian layout of a checkpoint in the persistent region.
pub open spec fn spec_checkpoint_bytes(c: Checkpoint) -> Seq<u8> {
    spec_u32_to_le_bytes(c.image_count_id)
        + seq![if c.auto_capture { 1u8 } else { 0u8 }]
        + spec_u64_to_le_bytes(c.next_capture_time)
        + spec_u32_to_le_bytes(c.duration_time)
        + spec_u32_to_le_bytes(c.current_resolution)
        + spec_u32_to_le_bytes(c.current_track_id)
        + spec_u64_to_le_bytes(c.last_capture_time)
        + spec_u64_to_le_bytes(c.last_posted_time)
        + spec_u64_to_le_bytes(c.capture_start_time)
        + spec_u64_to_le_bytes(c.capture_end_time)
        + spec_u64_to_le_bytes(c.last_status_posted_time)
}

/// The checkpoint a persistent region holds, or nothing when the region is
/// not the size of a checkpoint or its flag byte is not a boolean.
pub open spec fn spec_parse_checkpoint(s: Seq<u8>) -> Option<Checkpoint> {
    if s.len() != CHECKPOINT_SIZE {
        None
    } else if s[4] != 0 && s[4] != 1 {
        None
    } else {
        Some(Checkpoint {
            image_count_id: spec_u32_from_le_bytes(s.subrange(0, 4)),
            auto_capture: s[4] == 1,
            next_capture_time: spec_u64_from_le_bytes(s.subrange(5, 13)),
            duration_time: spec_u32_from_le_bytes(s.subrange(13, 17)),
            current_resolution: spec_u32_from_le_bytes(s.subrange(17, 21)),
            current_track_id: spec_u32_from_le_bytes(s.subrange(21, 25)),
            last_capture_time: spec_u64_from_le_bytes(s.subrange(25, 33)),
            last_posted_time: spec_u64_from_le_bytes(s.subrange(33, 41)),
            capture_start_time: spec_u64_from_le_bytes(s.subrange(41, 49)),
            capture_end_time: spec_u64_from_le_bytes(s.subrange(49, 57)),
            last_status_posted_time: spec_u64_from_le_bytes(s.subrange(57, 65)),
        })
    }
}

impl Checkpoint {
    /// The reset state a device boots with when the persistent region holds
    /// no checkpoint: everything zero, automatic capture off.
    pub fn new() -> (c: Checkpoint)
        ensures
            c == (Checkpoint {
                image_count_id: 0u32,
                auto_capture: false,
                next_capture_time: 0u64,
                duration_time: 0u32,
                current_resolution: 0u32,
                current_track_id: 0u32,
                last_capture_time: 0u64,
                last_posted_time: 0u64,
                capture_start_time: 0u64,
                capture_end_time: 0u64,
                last_status_posted_time: 0u64,
            }),
    {
        Checkpoint {
            image_count_id: 0,
            auto_capture: false,
            next_capture_time: 0,
            duration_time: 0,
            current_resolution: 0,
            current_track_id: 0,
            last_capture_time: 0,
            last_posted_time: 0,
            capture_start_time: 0,
            capture_end_time: 0,
            last_status_posted_time: 0,
        }
    }

    /// Serialize for the persistent region; the caller stores the bytes.
    pub fn save(&self) -> (r: Vec<u8>)
        ensures
            r@ == spec_checkpoint_bytes(*self),
            r@.len() == CHECKPOINT_SIZE,
    {
        proof {
            lemma_auto_spec_u32_to_from_le_bytes();
            lemma_auto_spec_u64_to_from_le_bytes();
        }
        let mut r = u32_to_le_bytes(self.image_count_id);
        r.push(if self.auto_capture { 1 } else { 0 });
        let mut part = u64_to_le_bytes(self.next_capture_time);
        r.append(&mut part);
        let mut part = u32_to_le_bytes(self.duration_time);
        r.append(&mut part);
        let mut part = u32_to_le_bytes(self.current_resolution);
        r.append(&mut part);
        let mut part = u32_to_le_bytes(self.current_track_id);
        r.append(&mut part);
        let mut part = u64_to_le_bytes(self.last_capture_time);
        r.append(&mut part);
        let mut part = u64_to_le_bytes(self.last_posted_time);
        r.append(&mut part);
        let mut part = u64_to_le_bytes(self.capture_start_time);
        r.append(&mut part);
        let mut part = u64_to_le_bytes(self.capture_end_time);
        r.append(&mut part);
        let mut part = u64_to_le_bytes(self.last_status_posted_time);
        r.append(&mut part);
        proof {
            assert(r@ =~= spec_checkpoint_bytes(*self));
        }
        r
    }

    /// Deserialize what the caller read back from the persistent region.
    pub fn load(bytes: &[u8]) -> (r: Option<Checkpoint>)
        ensures
            r == spec_parse_checkpoint(bytes@),
    {
        if bytes.len() != CHECKPOINT_SIZE {
            return None;
        }
        let flag = bytes[4];
        if flag != 0 && flag != 1 {
            return None;
        }
        Some(Checkpoint {
            image_count_id: u32_from_le_bytes(slice_subrange(bytes, 0, 4)),
            auto_capture: flag == 1,
            next_capture_time: u64_from_le_bytes(slice_subrange(bytes, 5, 13)),
            duration_time: u32_from_le_bytes(slice_subrange(bytes, 13, 17)),
            current_resolution: u32_from_le_bytes(slice_subrange(bytes, 17, 21)),
            current_track_id: u32_from_le_bytes(slice_subrange(bytes, 21, 25)),
            last_capture_time: u64_from_le_bytes(slice_subrange(bytes, 25, 33)),
            last_posted_time: u64_from_le_bytes(slice_subrange(bytes, 33, 41)),
            capture_start_time: u64_from_le_bytes(slice_subrange(bytes, 41, 49)),
            capture_end_time: u64_from_le_bytes(slice_subrange(bytes, 49, 57)),
            last_status_posted_time: u64_from_le_bytes(slice_subrange(bytes, 57, 65)),
        })
    }
}

/// The checkpoint round-trip law: loading what was saved restores exactly
/// the checkpointed state.
pub proof fn lemma_checkpoint_round_trip(c: Checkpoint)
    ensures
        spec_parse_checkpoint(spec_checkpoint_bytes(c)) == Some(c),
{
    lemma_auto_spec_u32_to_from_le_bytes();
    lemma_auto_spec_u64_to_from_le_bytes();
    let s = spec_checkpoint_bytes(c);
    assert(s.subrange(0, 4) =~= spec_u32_to_le_bytes(c.image_count_id));
    assert(s[4] == (if c.auto_capture { 1u8 } else { 0u8 }));
    assert(s.subrange(5, 13) =~= spec_u64_to_le_bytes(c.next_capture_time));
    assert(s.subrange(13, 17) =~= spec_u32_to_le_bytes(c.duration_time));
    assert(s.subrange(17, 21) =~= spec_u32_to_le_bytes(c.current_resolution));
    assert(s.subrange(21, 25) =~= spec_u32_to_le_bytes(c.current_track_id));
    assert(s.subrange(25, 33) =~= spec_u64_to_le_bytes(c.last_capture_time));
    assert(s.subrange(33, 41) =~= spec_u64_to_le_bytes(c.last_posted_time));
    assert(s.subrange(41, 49) =~= spec_u64_to_le_bytes(c.capture_start_time));
    assert(s.subrange(49, 57) =~= spec_u64_to_le_bytes(c.capture_end_time));
    assert(s.subrange(57, 65) =~= spec_u64_to_le_bytes(c.last_status_posted_time));
}

/// What the control loop does with a computed wait before the next capture.
#[derive(Debug, PartialEq, Eq, Structural, Clone, Copy)]
pub enum SleepPlan {
    /// Wait this many seconds in process; state stays in memory and no
    /// checkpoint is written.
    InProcessWait(u64),
    /// Save the checkpoint, power the device off, and wake after this many
    /// seconds.
    CheckpointAndPowerOff(u64),
}

/// The persistence threshold: a wait of at most a minute is served in
/// process with no checkpoint (a zero wait still pauses one second between
/// polls); a longer wait requires the checkpoint to be saved and the device
/// to power off until the wake instant.
pub fn sleep_decision(wait_secs: u64) -> (r: SleepPlan)
    ensures
        r == (if wait_secs == 0 {
            SleepPlan::InProcessWait(1)
        } else if wait_secs <= 60 {
            SleepPlan::InProcessWait(wait_secs)
        } else {
            SleepPlan::CheckpointAndPowerOff(wait_secs)
        }),
{
    if wait_secs == 0 {
        SleepPlan::InProcessWait(1)
    } else if wait_secs <= 60 {
        SleepPlan::InProcessWait(wait_secs)
    } else {
        SleepPlan::CheckpointAndPowerOff(wait_secs)
    }
}

} // verus!
