//! The opcode that tags every envelope.

use vstd::prelude::*;

verus! {

/// The kind of an envelope. Every number is an opcode: the ones the protocol
/// does not define are `Unrecognized`, with the number kept.
#[derive(Clone, Copy, Debug, PartialEq, Eq, Structural)]
pub enum Opcode {
    Dispatch,
    Heartbeat,
    Identify,
    PresenceUpdate,
    VoiceStateUpdate,
    Resume,
    Reconnect,
    RequestGuildMembers,
    InvalidSession,
    Hello,
    HeartbeatAck,
    RequestSoundboardSounds,
    Unrecognized(i32),
}

/// Whether the protocol defines an opcode with this number.
pub open spec fn is_defined(code: int) -> bool {
    0 <= code <= 4 || 6 <= code <= 11 || code == 31
}

impl Opcode {
    /// The number that stands for this opcode on the wire.
    pub open spec fn number(self) -> int {
        match self {
            Opcode::Dispatch => 0,
            Opcode::Heartbeat => 1,
            Opcode::Identify => 2,
            Opcode::PresenceUpdate => 3,
            Opcode::VoiceStateUpdate => 4,
            Opcode::Resume => 6,
            Opcode::Reconnect => 7,
            Opcode::RequestGuildMembers => 8,
            Opcode::InvalidSession => 9,
            Opcode::Hello => 10,
            Opcode::HeartbeatAck => 11,
            Opcode::RequestSoundboardSounds => 31,
            Opcode::Unrecognized(code) => code as int,
        }
    }

    /// The opcode that a number stands for.
    pub open spec fn of_number(code: i32) -> Opcode {
        if code == 0 {
            Opcode::Dispatch
        } else if code == 1 {
            Opcode::Heartbeat
        } else if code == 2 {
            Opcode::Identify
        } else if code == 3 {
            Opcode::PresenceUpdate
        } else if code == 4 {
            Opcode::VoiceStateUpdate
        } else if code == 6 {
            Opcode::Resume
        } else if code == 7 {
            Opcode::Reconnect
        } else if code == 8 {
            Opcode::RequestGuildMembers
        } else if code == 9 {
            Opcode::InvalidSession
        } else if code == 10 {
            Opcode::Hello
        } else if code == 11 {
            Opcode::HeartbeatAck
        } else if code == 31 {
            Opcode::RequestSoundboardSounds
        } else {
            Opcode::Unrecognized(code)
        }
    }

    /// An `Unrecognized` opcode holds a number that the protocol leaves
    /// undefined; the defined ones have a variant each.
    pub open spec fn wf(self) -> bool {
        self matches Opcode::Unrecognized(code) ==> !is_defined(code as int)
    }

    /// The opcode for a number read from the wire.
    pub fn from_code(code: i32) -> (op: Opcode)
        ensures
            op == Opcode::of_number(code),
            op.wf(),
            op.number() == code,
    {
        match code {
            0 => Opcode::Dispatch,
            1 => Opcode::Heartbeat,
            2 => Opcode::Identify,
            3 => Opcode::PresenceUpdate,
            4 => Opcode::VoiceStateUpdate,
            6 => Opcode::Resume,
            7 => Opcode::Reconnect,
            8 => Opcode::RequestGuildMembers,
            9 => Opcode::InvalidSession,
            10 => Opcode::Hello,
            11 => Opcode::HeartbeatAck,
            31 => Opcode::RequestSoundboardSounds,
            _ => Opcode::Unrecognized(code),
        }
    }

    /// The number to write on the wire.
    pub fn code(self) -> (code: i32)
        ensures
            code == self.number(),
    {
        match self {
            Opcode::Dispatch => 0,
            Opcode::Heartbeat => 1,
            Opcode::Identify => 2,
            Opcode::PresenceUpdate => 3,
            Opcode::VoiceStateUpdate => 4,
            Opcode::Resume => 6,
            Opcode::Reconnect => 7,
            Opcode::RequestGuildMembers => 8,
            Opcode::InvalidSession => 9,
            Opcode::Hello => 10,
            Opcode::HeartbeatAck => 11,
            Opcode::RequestSoundboardSounds => 31,
            Opcode::Unrecognized(code) => code,
        }
    }

    /// Whether the protocol defines this opcode.
    pub fn is_known(self) -> (known: bool)
        ensures
            known == !(self is Unrecognized),
    {
        match self {
            Opcode::Unrecognized(_) => false,
            _ => true,
        }
    }
}

/// Writing an opcode's number and reading it back gives the opcode, and
/// reading a number and writing the opcode gives the number.
pub proof fn lemma_opcode_roundtrip(op: Opcode, code: i32)
    requires
        op.wf(),
    ensures
        Opcode::of_number(op.number() as i32) == op,
        Opcode::of_number(code).number() == code,
        Opcode::of_number(code).wf(),
        Opcode::of_number(code) is Unrecognized <==> !is_defined(code as int),
{
}

} // verus!
