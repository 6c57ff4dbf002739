//! What the a2a-demo bridge decides.
//!
//! The bridge is a web dashboard over an Agent-Fabric channel call: on each visitor request it
//! dials a peer by spawning a `ct-agent channel` initiator and streams every step as events. This
//! library holds its decisions, from configuration to the last event of a round. It does no I/O:
//! it takes what was read or what happened, and says what to send, spawn or answer.
//!
//! Contracts speak of views, in which every string is its sequence of characters. The `_laws`
//! modules state what holds across calls.

pub mod bridge;
pub mod bridge_laws;
pub mod environment;
pub mod event;
pub mod heartbeat;
pub mod hex;
pub mod identity;
pub mod json;
pub mod log_line;
pub mod message;
pub mod presence_laws;
pub mod report;
pub mod report_laws;
pub mod round;
pub mod round_laws;
pub mod text;
pub mod view_laws;
