//! The two value types exchanged between the controlling process and the
//! hardware worker, and the ordered stages of the device initialization
//! handshake.

use vstd::prelude::*;

verus! {

/// The named stages of the vendor initialization handshake.
///
/// The worker announces each stage through `Status::Initializing` before it
/// starts working on it. The order in which stages are executed is given by
/// [`InitializationStep::next`]; the declaration order only fixes the
/// progress index shown to the user.
#[derive(Clone, Copy, Debug, PartialEq, Eq, Structural)]
pub enum InitializationStep {
    Configuring,
    McuState,
    McuConfiguration0,
    McuConfiguration1,
    Step4,
    Step5,
    Step6,
    Step7,
}

impl InitializationStep {
    /// The first stage of every handshake.
    pub open spec fn first_spec() -> InitializationStep {
        InitializationStep::Configuring
    }

    /// The stage that follows `self` in the handshake, or `None` after the
    /// last one.
    pub open spec fn next_spec(self) -> Option<InitializationStep> {
        match self {
            InitializationStep::Configuring => Some(InitializationStep::McuConfiguration0),
            InitializationStep::McuConfiguration0 => Some(InitializationStep::McuConfiguration1),
            InitializationStep::McuConfiguration1 => Some(InitializationStep::McuState),
            InitializationStep::McuState => Some(InitializationStep::Step4),
            InitializationStep::Step4 => Some(InitializationStep::Step5),
            InitializationStep::Step5 => Some(InitializationStep::Step6),
            InitializationStep::Step6 => Some(InitializationStep::Step7),
            InitializationStep::Step7 => None,
        }
    }

    /// First stage of the handshake sequence.
    pub fn first() -> (s: InitializationStep)
        ensures
            s == InitializationStep::first_spec(),
    {
        InitializationStep::Configuring
    }

    /// Advances along the handshake sequence.
    pub fn next(&self) -> (n: Option<InitializationStep>)
        ensures
            n == self.next_spec(),
    {
        match self {
            InitializationStep::Configuring => Some(InitializationStep::McuConfiguration0),
            InitializationStep::McuConfiguration0 => Some(InitializationStep::McuConfiguration1),
            InitializationStep::McuConfiguration1 => Some(InitializationStep::McuState),
            InitializationStep::McuState => Some(InitializationStep::Step4),
            InitializationStep::Step4 => Some(InitializationStep::Step5),
            InitializationStep::Step5 => Some(InitializationStep::Step6),
            InitializationStep::Step6 => Some(InitializationStep::Step7),
            InitializationStep::Step7 => None,
        }
    }

    /// Position of the stage in the declaration order, used by the status
    /// display as a progress value out of eight.
    pub open spec fn progress_index_spec(self) -> int {
        match self {
            InitializationStep::Configuring => 0,
            InitializationStep::McuState => 1,
            InitializationStep::McuConfiguration0 => 2,
            InitializationStep::McuConfiguration1 => 3,
            InitializationStep::Step4 => 4,
            InitializationStep::Step5 => 5,
            InitializationStep::Step6 => 6,
            InitializationStep::Step7 => 7,
        }
    }

    /// Progress value of the stage, between 0 and 7.
    pub fn progress_index(&self) -> (i: u8)
        ensures
            i as int == self.progress_index_spec(),
    {
        match self {
            InitializationStep::Configuring => 0,
            InitializationStep::McuState => 1,
            InitializationStep::McuConfiguration0 => 2,
            InitializationStep::McuConfiguration1 => 3,
            InitializationStep::Step4 => 4,
            InitializationStep::Step5 => 5,
            InitializationStep::Step6 => 6,
            InitializationStep::Step7 => 7,
        }
    }
}

/// Coarse state of the worker, produced only by the device engine and
/// forwarded to the owner of the supervisor.
///
/// A fresh worker starts at `NotConnected`, walks the `Initializing` stages,
/// then alternates between `Active` (sensor pressed, reading attached) and
/// `NoRingCon` (reading of zero) until an I/O failure ends the worker with
/// `Disconnected`.
#[derive(Clone, Copy, Debug, PartialEq, Eq, Structural)]
pub enum Status {
    NotConnected,
    Initializing(InitializationStep),
    NoRingCon,
    Active(u8),
    Disconnected,
}

/// Inclusive range of raw sensor bytes expected from the accessory.
#[derive(Clone, Copy, Debug, PartialEq, Eq, Structural)]
pub struct ByteRange {
    pub start: u8,
    pub end: u8,
}

/// Inclusive output range in fixed-point units.
///
/// The unit is chosen by the caller (the same unit for `start`, `end` and
/// `Configuration::out_idle`); all outputs of the encoder are exact rationals
/// over that unit. The endpoints may be supplied in either order; the encoder
/// normalizes them before clamping.
#[derive(Clone, Copy, Debug, PartialEq, Eq, Structural)]
pub struct FixedRange {
    pub start: i64,
    pub end: i64,
}

/// Settings for the telemetry encoder, recreated by the user interface on
/// every change and sent down to the worker; the supervisor retains the most
/// recent one so it can be replayed to a respawned worker.
#[derive(Clone, Debug, PartialEq)]
pub struct Configuration {
    /// Destination socket address for outbound telemetry, in textual form;
    /// the caller parses it when opening the socket.
    pub udp_address: String,
    /// Destination path string embedded in the outbound packet.
    pub osc_address: String,
    /// Expected domain of raw sensor readings.
    pub in_range: ByteRange,
    /// Neutral/rest reading; should lie within `in_range`, but readings with
    /// a center outside the range are not rejected — the center only shapes
    /// the slopes of the mapping.
    pub in_center: u8,
    /// Output range in fixed-point units.
    pub out_range: FixedRange,
    /// Output emitted for a raw reading of exactly zero ("no physical
    /// contact"), in the same fixed-point units.
    pub out_idle: i64,
}

impl Configuration {
    /// An exact copy; unlike the derived `Clone`, its effect is visible to
    /// callers' proofs.
    pub fn duplicate(&self) -> (c: Configuration)
        ensures
            c == *self,
    {
        Configuration {
            udp_address: self.udp_address.clone(),
            osc_address: self.osc_address.clone(),
            in_range: self.in_range,
            in_center: self.in_center,
            out_range: self.out_range,
            out_idle: self.out_idle,
        }
    }
}

} // verus!
