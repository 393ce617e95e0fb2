//! The capability flags sent when identifying.

use vstd::prelude::*;

verus! {

/// A set of gateway intents, one bit each.
#[derive(Clone, Copy, Debug, PartialEq, Eq, Structural)]
pub struct GatewayIntents {
    bits: u32,
}

pub const GUILDS: u32 = 1 << 0;

pub const GUILD_MEMBERS: u32 = 1 << 1;

pub const GUILD_MODERATION: u32 = 1 << 2;

pub const GUILD_EXPRESSIONS: u32 = 1 << 3;

pub const GUILD_INTEGRATIONS: u32 = 1 << 4;

pub const GUILD_WEBHOOKHS: u32 = 1 << 5;

pub const GUILD_INVITES: u32 = 1 << 6;

pub const GUILD_VOICE_STATES: u32 = 1 << 7;

pub const GUILD_PRESENCES: u32 = 1 << 8;

pub const GUILD_MESSAGES: u32 = 1 << 9;

pub const GUILD_MESSAGE_REACTIONS: u32 = 1 << 10;

pub const GUILD_MESSAGE_TYPING: u32 = 1 << 11;

pub const DIRECT_MESSAGES: u32 = 1 << 12;

pub const DIRECT_MESSAGE_REACTIONS: u32 = 1 << 13;

pub const DIRECT_MESSAGE_TYPING: u32 = 1 << 14;

pub const MESSAGE_CONTENT: u32 = 1 << 15;

pub const GUILD_SCHEDULED_EVENTS: u32 = 1 << 16;

pub const AUTO_MODERATION_CONFIGURATION: u32 = 1 << 20;

pub const AUTO_MODERATION_EXECUTION: u32 = 1 << 21;

pub const GUILD_MESSAGE_POLLS: u32 = 1 << 24;

pub const DIRECT_MESSAGE_POLLS: u32 = 1 << 25;

/// Every bit that names an intent.
pub const ALL_INTENTS: u32 = 0x0331_ffff;

/// Whether `bits` sets no bit outside `mask`.
pub open spec fn within(bits: u32, mask: u32) -> bool {
    bits & !mask == 0
}

impl GatewayIntents {
    /// The bits that are set.
    pub closed spec fn value(self) -> u32 {
        self.bits
    }

    /// Every bit set names an intent.
    pub open spec fn wf(self) -> bool {
        within(self.value(), ALL_INTENTS)
    }

    /// The set with no intent.
    pub fn empty() -> (set: Self)
        ensures
            set.value() == 0,
            set.wf(),
    {
        assert(0u32 & !0x0331_ffffu32 == 0) by (bit_vector);
        GatewayIntents { bits: 0 }
    }

    /// The set with exactly the given bits, where each of them names an
    /// intent.
    pub fn from_bits(bits: u32) -> (set: Option<Self>)
        ensures
            match set {
                Some(s) => s.value() == bits && s.wf(),
                None => !within(bits, ALL_INTENTS),
            },
    {
        if bits & !ALL_INTENTS == 0 {
            Some(GatewayIntents { bits })
        } else {
            None
        }
    }

    /// The bits that are set.
    pub fn bits(self) -> (bits: u32)
        ensures
            bits == self.value(),
    {
        self.bits
    }

    /// Whether every bit of `flags` is set.
    pub fn contains(self, flags: u32) -> (held: bool)
        ensures
            held == (self.value() & flags == flags),
    {
        self.bits & flags == flags
    }

    /// The set that holds the intents of both.
    pub fn union(self, other: Self) -> (set: Self)
        ensures
            set.value() == self.value() | other.value(),
            self.wf() && other.wf() ==> set.wf(),
    {
        let a = self.bits;
        let b = other.bits;
        assert(a & !0x0331_ffffu32 == 0 && b & !0x0331_ffffu32 == 0 ==> (a | b) & !0x0331_ffffu32
            == 0) by (bit_vector);
        GatewayIntents { bits: a | b }
    }
}

} // verus!
