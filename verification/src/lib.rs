//! Validator liveness tracking: heartbeat scheduling, admission and
//! session-end accountability.
//!
//! Each active validator proves it is online once per session by gossipping a
//! signed heartbeat. This crate verifies the heartbeat lifecycle: the
//! fixed-point slash curve applied to unresponsive validators, the per-session
//! heartbeat ledger, the admission checks run on every inbound heartbeat, the
//! off-chain scheduling protocol that emits at most one heartbeat per gossip
//! round, and the aggregation of unresponsive validators into an offence
//! record at session end.

pub mod encoding;
pub mod crypto;
pub mod heartbeat;
pub mod ledger;
pub mod module;
pub mod offchain;
pub mod slash;
