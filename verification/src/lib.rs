//! The logic of a tangle node's live dashboard feed, together with two small
//! helpers that the node's signing and test code share.
//!
//! * [`topic`], [`responses`], [`event`]: the closed catalogue of topics,
//!   payload shapes and domain events, and the transform from one to the other.
//! * [`forwarder`]: the per-topic state machine that gates and forwards events.
//! * [`users`]: the set of connected observers, the fan-out of one event to
//!   its subscribers and the shutdown handshake.
//! * [`dashboard`]: what the dashboard worker registers when it starts.
//! * [`wots`]: the sponge-based one-time-signature private key generator.
//! * [`ternary`]: random balanced and unbalanced trits.

pub mod dashboard;
pub mod event;
pub mod forwarder;
pub mod responses;
pub mod ternary;
pub mod topic;
pub mod users;
pub mod wots;
