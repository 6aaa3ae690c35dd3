//! Touch-key state: which keys are held, for how long, and the queue of
//! key-up/key-down events the control loop drains. The hardware interrupt
//! and the polling thread live outside the library; they feed the raw
//! touch status word into `apply_touch_status`.

use vstd::prelude::*;

verus! {

/// Highest pad index the status word is scanned up to, inclusive.
pub const MAX_TOUCHPADS: usize = 1;

#[derive(Debug, PartialEq, Eq, Structural, Clone, Copy)]
pub enum Key {
    Up,
    Down,
    Left,
    Right,
    Center,
}

#[derive(Debug, PartialEq, Eq, Structural, Clone, Copy)]
pub enum KeyEvent {
    UpKeyDown,
    UpKeyUp,
    DownKeyDown,
    DownKeyUp,
    LeftKeyDown,
    LeftKeyUp,
    RightKeyDown,
    RightKeyUp,
    CenterKeyDown,
    CenterKeyUp,
}

/// One key's state: held or not, when it went down (epoch milliseconds), and
/// how long the last press lasted (milliseconds).
#[derive(Debug, PartialEq, Eq, Structural, Clone, Copy)]
pub struct KeyState {
    pub held: bool,
    pub down_time_ms: u64,
    pub duration_ms: u32,
}

/// The shared key state the control loop reads and the touch thread writes.
pub struct TouchPad {
    pub up: KeyState,
    pub down: KeyState,
    pub left: KeyState,
    pub right: KeyState,
    pub center: KeyState,
    pub events: Vec<KeyEvent>,
}

/// A fresh, unpressed key.
pub open spec fn spec_key_reset() -> KeyState {
    KeyState { held: false, down_time_ms: 0, duration_ms: 0 }
}

impl TouchPad {
    /// The state a chosen key.
    pub open spec fn spec_key(self, key: Key) -> KeyState {
        match key {
            Key::Up => self.up,
            Key::Down => self.down,
            Key::Left => self.left,
            Key::Right => self.right,
            Key::Center => self.center,
        }
    }

    pub fn new() -> (t: TouchPad)
        ensures
            t.up == spec_key_reset(),
            t.down == spec_key_reset(),
            t.left == spec_key_reset(),
            t.right == spec_key_reset(),
            t.center == spec_key_reset(),
            t.events@ == Seq::<KeyEvent>::empty(),
    {
        TouchPad {
            up: KeyState { held: false, down_time_ms: 0, duration_ms: 0 },
            down: KeyState { held: false, down_time_ms: 0, duration_ms: 0 },
            left: KeyState { held: false, down_time_ms: 0, duration_ms: 0 },
            right: KeyState { held: false, down_time_ms: 0, duration_ms: 0 },
            center: KeyState { held: false, down_time_ms: 0, duration_ms: 0 },
            events: Vec::new(),
        }
    }

    /// Whether the key is held right now.
    pub fn get_touchpad_status(&mut self, key: Key) -> (r: bool)
        ensures
            *final(self) == *old(self),
            r == old(self).spec_key(key).held,
    {
        match key {
            Key::Up => self.up.held,
            Key::Down => self.down.held,
            Key::Left => self.left.held,
            Key::Right => self.right.held,
            Key::Center => self.center.held,
        }
    }

    /// How long the last completed press of the key lasted, in milliseconds.
    pub fn get_button_press_time(&mut self, key: Key) -> (r: u32)
        ensures
            *final(self) == *old(self),
            r == old(self).spec_key(key).duration_ms,
    {
        match key {
            Key::Up => self.up.duration_ms,
            Key::Down => self.down.duration_ms,
            Key::Left => self.left.duration_ms,
            Key::Right => self.right.duration_ms,
            Key::Center => self.center.duration_ms,
        }
    }

    pub fn clear_all_button_event(&mut self)
        ensures
            *final(self) == (TouchPad { events: final(self).events, ..*old(self) }),
            final(self).events@ == Seq::<KeyEvent>::empty(),
    {
        self.events.clear();
    }

    /// Drain the pending key events, oldest first.
    pub fn get_key_event_and_clear(&mut self) -> (r: Vec<KeyEvent>)
        ensures
            *final(self) == (TouchPad { events: final(self).events, ..*old(self) }),
            final(self).events@ == Seq::<KeyEvent>::empty(),
            r@ == old(self).events@,
    {
        let mut drained: Vec<KeyEvent> = Vec::new();
        let mut i: usize = 0;
        while i < self.events.len()
            invariant
                i <= self.events@.len(),
                self.events@ == old(self).events@,
                drained@ == old(self).events@.take(i as int),
                *self == (TouchPad { events: self.events, ..*old(self) }),
            decreases self.events@.len() - i,
        {
            let e = self.events[i];
            drained.push(e);
            i = i + 1;
            proof {
                assert(drained@ =~= old(self).events@.take(i as int));
            }
        }
        proof {
            assert(old(self).events@.take(old(self).events@.len() as int) =~= old(
                self).events@);
        }
        self.events.clear();
        drained
    }

    /// Feed one raw touch status word, as the polling thread reads it after
    /// a touch interrupt, at `now_ms` epoch milliseconds: for each scanned
    /// pad, a set bit presses its key (recording the press time and queueing
    /// a key-down event once), and a clear bit releases it (recording the
    /// press duration and queueing a key-up event once). Only the center key
    /// maps to a scanned pad.
    pub fn apply_touch_status(&mut self, touch_status: u32, now_ms: u64)
        requires
            now_ms >= old(self).center.down_time_ms,
        ensures
            *final(self) == (TouchPad {
                center: final(self).center,
                events: final(self).events,
                ..*old(self)
            }),
            ({
                let was = old(self).center;
                let now_held = touch_status & 2u32 != 0u32;
                if now_held && !was.held {
                    &&& final(self).center == (KeyState {
                        held: true,
                        down_time_ms: now_ms,
                        ..was
                    })
                    &&& final(self).events@ == old(self).events@.push(KeyEvent::CenterKeyDown)
                } else if !now_held && was.held {
                    &&& final(self).center == (KeyState {
                        held: false,
                        duration_ms: if now_ms - was.down_time_ms <= u32::MAX {
                            (now_ms - was.down_time_ms) as u32
                        } else {
                            was.duration_ms
                        },
                        ..was
                    })
                    &&& final(self).events@ == old(self).events@.push(KeyEvent::CenterKeyUp)
                } else {
                    &&& final(self).center == was
                    &&& final(self).events@ == old(self).events@
                }
            }),
    {
        let mut i: usize = 0;
        while i <= MAX_TOUCHPADS
            invariant
                now_ms >= old(self).center.down_time_ms,
                *self == (TouchPad {
                    center: self.center,
                    events: self.events,
                    ..*old(self)
                }),
                ({
                    let was = old(self).center;
                    let now_held = touch_status & 2u32 != 0u32;
                    if i <= 1 {
                        self.center == was && self.events@ == old(self).events@
                    } else if now_held && !was.held {
                        &&& self.center == (KeyState { held: true, down_time_ms: now_ms, ..was })
                        &&& self.events@ == old(self).events@.push(KeyEvent::CenterKeyDown)
                    } else if !now_held && was.held {
                        &&& self.center == (KeyState {
                            held: false,
                            duration_ms: if now_ms - was.down_time_ms <= u32::MAX {
                                (now_ms - was.down_time_ms) as u32
                            } else {
                                was.duration_ms
                            },
                            ..was
                        })
                        &&& self.events@ == old(self).events@.push(KeyEvent::CenterKeyUp)
                    } else {
                        self.center == was && self.events@ == old(self).events@
                    }
                }),
                i <= MAX_TOUCHPADS + 1,
            decreases MAX_TOUCHPADS + 1 - i,
        {
            let touched = touch_status & (1u32 << (i as u32)) != 0u32;
            if i == 1 {
                proof {
                    assert(1u32 << 1u32 == 2u32) by (bit_vector);
                }
                if touched {
                    if !self.center.held {
                        self.center.held = true;
                        self.center.down_time_ms = now_ms;
                        self.events.push(KeyEvent::CenterKeyDown);
                    }
                } else {
                    if self.center.held {
                        self.center.held = false;
                        let elapsed = now_ms - self.center.down_time_ms;
                        if elapsed <= u32::MAX as u64 {
                            self.center.duration_ms = elapsed as u32;
                        }
                        self.events.push(KeyEvent::CenterKeyUp);
                    }
                }
            }
            i = i + 1;
        }
    }
}

} // verus!
