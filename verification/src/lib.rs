//! Guest-side endpoint of the VMBus inter-partition messaging protocol.
//!
//! The crate's core is a single-owner protocol engine: a top-level
//! connection state machine plus per-channel and per-GPADL sub-state
//! machines, together with a codec that frames and parses the wire
//! messages. The engine is driven by plain events (caller requests,
//! channel requests, parsed host messages) and answers with a list of
//! actions (wire messages to post, replies and notifications to
//! deliver), so an embedding event loop stays free of protocol rules.

pub mod client;
pub mod codec;
pub mod protocol;
pub mod saved_state;
