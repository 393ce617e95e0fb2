//! Session client core for an opcode-tagged, message-framed event gateway:
//! the envelope codec, the rate limiters, the heartbeat scheduler and the
//! session lifecycle, each with a machine-checked contract.

pub mod error;
pub mod gateway;
pub mod guild;
pub mod heartbeat;
pub mod http;
pub mod id;
pub mod json;
pub mod ratelimit;
pub mod session;
pub mod text;
pub mod timestamp;
pub mod user;
