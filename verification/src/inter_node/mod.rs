//! Cross-node delivery: structural addresses, routing decisions, per-node
//! topics and envelopes, the decoder lookup and the pending-request table.
pub mod address;
pub mod decoder;
pub mod envelope;
pub mod pending;

pub use address::Address;
