//! The steady-state read loop of the device protocol engine: frame
//! validation, debouncing, and what each reading makes the engine emit.
//!
//! The caller reads raw input frames and clock readings; the library decides
//! frame by frame whether to act, and what telemetry and status the acted-on
//! reading produces. Any read failure ends the worker: the engine emits a
//! synthetic zero reading (telling downstream receivers the device is gone)
//! and `Status::Disconnected`, and its process exits.

use vstd::prelude::*;

use crate::messages::Status;

verus! {

/// The report tag a valid sensor frame starts with.
pub const REPORT_TAG: u8 = 0x30;

/// Offset of the raw sensor byte within a valid frame.
pub const FLEX_OFFSET: usize = 40;

/// The sensor byte of a frame, if the frame is a valid sensor report: it
/// must start with the report tag and be long enough to reach the sensor
/// byte's offset. Anything else is silently discarded.
pub open spec fn frame_flex_spec(frame: Seq<u8>) -> Option<u8> {
    if frame.len() > FLEX_OFFSET && frame[0] == REPORT_TAG {
        Some(frame[FLEX_OFFSET as int])
    } else {
        None
    }
}

/// Extracts the sensor byte of a valid sensor frame; `None` discards it.
pub fn frame_flex(frame: &[u8]) -> (r: Option<u8>)
    ensures
        r == frame_flex_spec(frame@),
{
    if frame.len() > FLEX_OFFSET && frame[0] == REPORT_TAG {
        Some(frame[FLEX_OFFSET])
    } else {
        None
    }
}

/// The status an acted-on reading announces: a zero reading means the
/// accessory is not attached, anything else is an active reading.
pub open spec fn status_for_flex_spec(flex: u8) -> Status {
    if flex == 0 {
        Status::NoRingCon
    } else {
        Status::Active(flex)
    }
}

/// The status an acted-on reading announces.
pub fn status_for_flex(flex: u8) -> (s: Status)
    ensures
        s == status_for_flex_spec(flex),
{
    if flex == 0 {
        Status::NoRingCon
    } else {
        Status::Active(flex)
    }
}

/// Whether a reading is acted on, given the last acted-on reading and its
/// time: a reading is acted on if it is the first one, if its value changed,
/// or if at least a second has passed since the last action (the heartbeat).
pub open spec fn would_act(last: Option<(u8, u64)>, flex: u8, now_ms: u64) -> bool {
    match last {
        None => true,
        Some((f, t)) => f != flex || now_ms >= t + 1000,
    }
}

/// Suppresses redundant emissions: remembers the last acted-on reading and
/// its time, in milliseconds of any monotonic clock.
pub struct Debouncer {
    pub last: Option<(u8, u64)>,
}

impl Debouncer {
    /// A debouncer that acts on the first reading it sees.
    pub fn new() -> (d: Debouncer)
        ensures
            d.last is None,
    {
        Debouncer { last: None }
    }

    /// Decides whether `flex`, read at `now_ms`, is acted on, and records it
    /// if so. A clock reading earlier than the recorded one counts as no
    /// elapsed time.
    pub fn observe(&mut self, flex: u8, now_ms: u64) -> (acted: bool)
        ensures
            acted == would_act(old(self).last, flex, now_ms),
            acted ==> final(self).last == Some((flex, now_ms)),
            !acted ==> *final(self) == *old(self),
    {
        let act: bool = match self.last {
            None => true,
            Some((f, t)) => f != flex || (now_ms >= t && now_ms - t >= 1000),
        };
        if act {
            self.last = Some((flex, now_ms));
        }
        act
    }
}

/// What one frame makes the engine do.
#[derive(Clone, Copy, Debug, PartialEq, Eq, Structural)]
pub enum ReadOutcome {
    /// Invalid frame or suppressed repeat: no packet, no status change.
    Discarded,
    /// Act on the reading: feed `flex` to the encoder, then announce
    /// `status`.
    Emit { flex: u8, status: Status },
}

/// One step of the read loop: validates the frame, debounces the reading,
/// and names the emission an acted-on reading produces.
pub fn read_step(deb: &mut Debouncer, frame: &[u8], now_ms: u64) -> (r: ReadOutcome)
    ensures
        match frame_flex_spec(frame@) {
            Option::None => r == ReadOutcome::Discarded && *final(deb) == *old(deb),
            Option::Some(flex) => {
                if would_act(old(deb).last, flex, now_ms) {
                    &&& r == (ReadOutcome::Emit { flex, status: status_for_flex_spec(flex) })
                    &&& final(deb).last == Some((flex, now_ms))
                } else {
                    r == ReadOutcome::Discarded && *final(deb) == *old(deb)
                }
            },
        },
{
    match frame_flex(frame) {
        None => ReadOutcome::Discarded,
        Some(flex) => {
            if deb.observe(flex, now_ms) {
                ReadOutcome::Emit { flex, status: status_for_flex(flex) }
            } else {
                ReadOutcome::Discarded
            }
        },
    }
}

/// What a read failure emits before the worker exits: a synthetic zero
/// reading through the encoder, then the terminal status.
pub fn failure_emission() -> (r: (u8, Status))
    ensures
        r == (0u8, Status::Disconnected),
{
    (0, Status::Disconnected)
}

/// Law: a reading equal to the last acted-on one, seen again within one
/// second of it, is not acted on — no additional packet and no additional
/// status emission.
pub proof fn lemma_debounce_idempotent(flex: u8, t0: u64, t1: u64)
    requires
        t1 < t0 + 1000,
    ensures
        !would_act(Some((flex, t0)), flex, t1),
{
}

/// Law: an unchanged reading held for at least one second is acted on again
/// — and exactly once: the heartbeat refreshes the recorded time, so the
/// same reading stays suppressed for the next second.
pub proof fn lemma_debounce_heartbeat(flex: u8, t0: u64, t1: u64, t2: u64)
    requires
        t1 >= t0 + 1000,
        t2 < t1 + 1000,
    ensures
        would_act(Some((flex, t0)), flex, t1),
        !would_act(Some((flex, t1)), flex, t2),
{
}

} // verus!
