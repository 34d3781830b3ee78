//! The vendor initialization handshake of the device protocol engine.
//!
//! The handshake is a fixed ordered sequence of stages. Entering a stage
//! first announces it, then sends that stage's unconditional sub-commands,
//! and then — for every stage but the first — repeatedly sends one
//! sub-command until the device's response frame carries the stage's marker
//! bytes. A response that the device rejects, or one without the markers, is
//! answered by resending; any other failure aborts the engine. The commands,
//! payloads and marker offsets are a frozen hardware contract and are
//! reproduced byte for byte.
//!
//! The caller performs the I/O: it hands each response (or failure) to
//! [`Handshake::on_outcome`] and acts on the returned decision.

use vstd::prelude::*;

use crate::encoder::zero_bytes;
use crate::messages::{InitializationStep, Status};

verus! {

/// Length in bytes of every response and input report frame of the device.
pub const FRAME_LEN: usize = 362;

/// One sub-command to send to the device: a command byte and its payload.
pub struct SubCommandRequest {
    pub command: u8,
    pub payload: Vec<u8>,
}

/// Payload shape shared by the two MCU sub-commands of the handshake: a
/// three-byte header, 33 zero bytes, and a trailing checksum byte.
pub open spec fn mcu_payload(mode: u8, kind: u8, crc: u8) -> Seq<u8> {
    seq![0x21u8, mode, kind] + zero_bytes(33) + seq![crc]
}

/// Payload of the register-write sub-command `0x5c`; opaque vendor constants.
pub open spec fn reg_write_payload() -> Seq<u8> {
    seq![
        0x06u8, 0x03, 0x25, 0x06, 0x00, 0x00, 0x00, 0x00, 0x1c, 0x16, 0xed, 0x34, 0x36, 0x00,
        0x00, 0x00, 0x0a, 0x64, 0x0b, 0xe6, 0xa9, 0x22, 0x00, 0x00, 0x04, 0x00, 0x00, 0x00,
        0x00, 0x00, 0x00, 0x00, 0x90, 0xa8, 0xe1, 0x34, 0x36,
    ]
}

/// The sub-commands a stage sends unconditionally when it is entered: the
/// first stage configures the report mode, and `Step5` cycles the inertial
/// unit before its retried command.
pub open spec fn stage_prelude_spec(step: InitializationStep) -> Seq<(u8, Seq<u8>)> {
    match step {
        InitializationStep::Configuring => seq![
            (0x48u8, seq![0x01u8]),
            (0x40u8, seq![0x01u8]),
            (0x03u8, seq![0x30u8]),
        ],
        InitializationStep::Step5 => seq![
            (0x40u8, seq![0x03u8]),
            (0x40u8, seq![0x02u8]),
            (0x40u8, seq![0x01u8]),
        ],
        _ => Seq::empty(),
    }
}

/// The sub-command a stage resends until its response carries the stage's
/// markers; the first stage has none.
pub open spec fn stage_request_spec(step: InitializationStep) -> Option<(u8, Seq<u8>)> {
    match step {
        InitializationStep::Configuring => None,
        InitializationStep::McuConfiguration0 => Some((0x22u8, seq![0x01u8])),
        InitializationStep::McuConfiguration1 => Some((0x21u8, mcu_payload(0x00, 0x03, 0xfa))),
        InitializationStep::McuState => Some((0x21u8, mcu_payload(0x01, 0x01, 0xf3))),
        InitializationStep::Step4 => Some((0x59u8, Seq::empty())),
        InitializationStep::Step5 => Some((0x5cu8, reg_write_payload())),
        InitializationStep::Step6 => Some((0x5au8, seq![0x04u8, 0x01, 0x01, 0x02])),
        InitializationStep::Step7 => Some((0x58u8, seq![0x04u8, 0x04, 0x12, 0x02])),
    }
}

/// Whether a response frame carries the marker bytes that complete `step`.
/// The first stage is completed by its prelude alone and accepts anything.
pub open spec fn stage_accepts_spec(step: InitializationStep, frame: Seq<u8>) -> bool {
    match step {
        InitializationStep::Configuring => true,
        InitializationStep::McuConfiguration0 => frame[13] == 0x80 && frame[14] == 0x22,
        InitializationStep::McuConfiguration1 => frame[0] == 0x21 && frame[15] == 1 && frame[22]
            == 3,
        InitializationStep::McuState => frame[0] == 0x21 && frame[15] == 9 && frame[17] == 1,
        InitializationStep::Step4 => frame[0] == 0x21 && frame[14] == 0x59 && frame[16] == 0x20,
        InitializationStep::Step5 => frame[0] == 0x21 && frame[14] == 0x5c,
        InitializationStep::Step6 => frame[0] == 0x21 && frame[14] == 0x5a,
        InitializationStep::Step7 => frame[0] == 0x21 && frame[14] == 0x58,
    }
}

/// Appends `n` zero bytes.
fn push_zero_bytes(v: &mut Vec<u8>, n: usize)
    ensures
        final(v)@ == old(v)@ + zero_bytes(n as nat),
{
    let mut i: usize = 0;
    while i < n
        invariant
            i <= n,
            v@ == old(v)@ + zero_bytes(i as nat),
        decreases n - i,
    {
        v.push(0);
        i = i + 1;
        assert(v@ =~= old(v)@ + zero_bytes(i as nat));
    }
}

/// Builds one of the two MCU sub-commands.
fn mcu_request(mode: u8, kind: u8, crc: u8) -> (r: SubCommandRequest)
    ensures
        r.command == 0x21,
        r.payload@ == mcu_payload(mode, kind, crc),
{
    let mut p: Vec<u8> = Vec::new();
    p.push(0x21);
    p.push(mode);
    p.push(kind);
    push_zero_bytes(&mut p, 33);
    p.push(crc);
    assert(p@ =~= mcu_payload(mode, kind, crc));
    SubCommandRequest { command: 0x21, payload: p }
}

/// The sub-commands sent unconditionally when `step` is entered.
pub fn stage_prelude(step: InitializationStep) -> (r: Vec<SubCommandRequest>)
    ensures
        r@.len() == stage_prelude_spec(step).len(),
        forall|i: int|
            0 <= i < r@.len() ==> (r@[i].command, r@[i].payload@) == stage_prelude_spec(step)[i],
{
    let mut r: Vec<SubCommandRequest> = Vec::new();
    match step {
        InitializationStep::Configuring => {
            let mut p0: Vec<u8> = Vec::new();
            p0.push(0x01);
            r.push(SubCommandRequest { command: 0x48, payload: p0 });
            let mut p1: Vec<u8> = Vec::new();
            p1.push(0x01);
            r.push(SubCommandRequest { command: 0x40, payload: p1 });
            let mut p2: Vec<u8> = Vec::new();
            p2.push(0x30);
            r.push(SubCommandRequest { command: 0x03, payload: p2 });
        },
        InitializationStep::Step5 => {
            let mut p0: Vec<u8> = Vec::new();
            p0.push(0x03);
            r.push(SubCommandRequest { command: 0x40, payload: p0 });
            let mut p1: Vec<u8> = Vec::new();
            p1.push(0x02);
            r.push(SubCommandRequest { command: 0x40, payload: p1 });
            let mut p2: Vec<u8> = Vec::new();
            p2.push(0x01);
            r.push(SubCommandRequest { command: 0x40, payload: p2 });
        },
        _ => {},
    }
    r
}

/// The retried sub-command of `step`, or `None` for the first stage.
pub fn stage_request(step: InitializationStep) -> (r: Option<SubCommandRequest>)
    ensures
        r is Some <==> stage_request_spec(step) is Some,
        r is Some ==> (r->Some_0.command, r->Some_0.payload@) == stage_request_spec(step)->Some_0,
{
    match step {
        InitializationStep::Configuring => None,
        InitializationStep::McuConfiguration0 => {
            let mut p: Vec<u8> = Vec::new();
            p.push(0x01);
            Some(SubCommandRequest { command: 0x22, payload: p })
        },
        InitializationStep::McuConfiguration1 => Some(mcu_request(0x00, 0x03, 0xfa)),
        InitializationStep::McuState => Some(mcu_request(0x01, 0x01, 0xf3)),
        InitializationStep::Step4 => Some(
            SubCommandRequest { command: 0x59, payload: Vec::new() },
        ),
        InitializationStep::Step5 => {
            let mut p: Vec<u8> = Vec::new();
            p.push(0x06);
            p.push(0x03);
            p.push(0x25);
            p.push(0x06);
            p.push(0x00);
            p.push(0x00);
            p.push(0x00);
            p.push(0x00);
            p.push(0x1c);
            p.push(0x16);
            p.push(0xed);
            p.push(0x34);
            p.push(0x36);
            p.push(0x00);
            p.push(0x00);
            p.push(0x00);
            p.push(0x0a);
            p.push(0x64);
            p.push(0x0b);
            p.push(0xe6);
            p.push(0xa9);
            p.push(0x22);
            p.push(0x00);
            p.push(0x00);
            p.push(0x04);
            p.push(0x00);
            p.push(0x00);
            p.push(0x00);
            p.push(0x00);
            p.push(0x00);
            p.push(0x00);
            p.push(0x00);
            p.push(0x90);
            p.push(0xa8);
            p.push(0xe1);
            p.push(0x34);
            p.push(0x36);
            assert(p@ =~= reg_write_payload());
            Some(SubCommandRequest { command: 0x5c, payload: p })
        },
        InitializationStep::Step6 => {
            let mut p: Vec<u8> = Vec::new();
            p.push(0x04);
            p.push(0x01);
            p.push(0x01);
            p.push(0x02);
            Some(SubCommandRequest { command: 0x5a, payload: p })
        },
        InitializationStep::Step7 => {
            let mut p: Vec<u8> = Vec::new();
            p.push(0x04);
            p.push(0x04);
            p.push(0x12);
            p.push(0x02);
            Some(SubCommandRequest { command: 0x58, payload: p })
        },
    }
}

/// Whether a response frame carries the marker bytes that complete `step`.
pub fn stage_accepts(step: InitializationStep, frame: &[u8; 362]) -> (b: bool)
    ensures
        b == stage_accepts_spec(step, frame@),
{
    match step {
        InitializationStep::Configuring => true,
        InitializationStep::McuConfiguration0 => frame[13] == 0x80 && frame[14] == 0x22,
        InitializationStep::McuConfiguration1 => frame[0] == 0x21 && frame[15] == 1 && frame[22]
            == 3,
        InitializationStep::McuState => frame[0] == 0x21 && frame[15] == 9 && frame[17] == 1,
        InitializationStep::Step4 => frame[0] == 0x21 && frame[14] == 0x59 && frame[16] == 0x20,
        InitializationStep::Step5 => frame[0] == 0x21 && frame[14] == 0x5c,
        InitializationStep::Step6 => frame[0] == 0x21 && frame[14] == 0x5a,
        InitializationStep::Step7 => frame[0] == 0x21 && frame[14] == 0x58,
    }
}

/// What one attempt at a stage's retried sub-command came to.
pub enum CommandOutcome {
    /// The device answered "rejected"; the command is simply sent again.
    Rejected,
    /// Any other I/O failure; the engine aborts and its process ends.
    Failed,
    /// A response frame arrived and is to be checked against the markers.
    Replied([u8; 362]),
}

/// What the engine does next with a stage's retried sub-command.
#[derive(Clone, Copy, Debug, PartialEq, Eq, Structural)]
pub enum CommandDecision {
    Resend,
    Abort,
    Advance,
}

/// The retry rule of the handshake: a rejection or a response without the
/// stage's markers is retried without limit, any other failure aborts, and a
/// response with the markers advances — exactly once.
pub open spec fn command_decision_spec(
    step: InitializationStep,
    outcome: CommandOutcome,
) -> CommandDecision {
    match outcome {
        CommandOutcome::Rejected => CommandDecision::Resend,
        CommandOutcome::Failed => CommandDecision::Abort,
        CommandOutcome::Replied(frame) => if stage_accepts_spec(step, frame@) {
            CommandDecision::Advance
        } else {
            CommandDecision::Resend
        },
    }
}

/// The state of one handshake run: the stage being worked on, or `None` once
/// the whole sequence has completed.
pub struct Handshake {
    pub current: Option<InitializationStep>,
}

impl Handshake {
    /// A handshake about to start its first stage.
    pub fn new() -> (h: Handshake)
        ensures
            h.current == Some(InitializationStep::first_spec()),
    {
        Handshake { current: Some(InitializationStep::first()) }
    }

    /// Whether every stage has completed.
    pub fn complete(&self) -> (b: bool)
        ensures
            b == (self.current is None),
    {
        match self.current {
            None => true,
            Some(_) => false,
        }
    }

    /// The status to announce for the stage being worked on, or `None` once
    /// the handshake has completed.
    pub fn current_status(&self) -> (s: Option<Status>)
        ensures
            match self.current {
                Some(step) => s == Some(Status::Initializing(step)),
                None => s is None,
            },
    {
        match self.current {
            Some(step) => Some(Status::Initializing(step)),
            None => None,
        }
    }

    /// Moves past the current stage; for the first stage, whose prelude alone
    /// completes it, and after the final light-up of a completed handshake.
    pub fn advance(&mut self)
        requires
            old(self).current is Some,
        ensures
            final(self).current == old(self).current->Some_0.next_spec(),
    {
        let step = self.current.unwrap();
        self.current = step.next();
    }

    /// Applies the retry rule to one outcome of the current stage's
    /// sub-command. The stage advances exactly when the response carries the
    /// stage's markers; on every other outcome the handshake is unchanged.
    pub fn on_outcome(&mut self, outcome: &CommandOutcome) -> (d: CommandDecision)
        requires
            old(self).current is Some,
        ensures
            d == command_decision_spec(old(self).current->Some_0, *outcome),
            d == CommandDecision::Advance ==> final(self).current == old(
                self,
            ).current->Some_0.next_spec(),
            d != CommandDecision::Advance ==> *final(self) == *old(self),
    {
        match outcome {
            CommandOutcome::Rejected => CommandDecision::Resend,
            CommandOutcome::Failed => CommandDecision::Abort,
            CommandOutcome::Replied(frame) => {
                let step = self.current.unwrap();
                if stage_accepts(step, frame) {
                    self.advance();
                    CommandDecision::Advance
                } else {
                    CommandDecision::Resend
                }
            },
        }
    }
}

} // verus!
