//! The gateway protocol: opcodes, payloads and their JSON envelopes.

pub mod bot;
pub mod envelope;
pub mod events;
pub mod intents;
pub mod opcode;
pub mod payload;
