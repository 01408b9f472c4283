//! Draft session engine for a two-team, turn-based ban/pick ritual.
//!
//! Two authenticated teams alternately ban and pick catalog entries under a
//! fixed turn order and a per-turn countdown, while spectators observe the
//! same state. This crate holds the authoritative engine: the turn sequencer,
//! the per-session state and its mutating actions, the authorization rules,
//! the timer decisions, the session registry, and the completed-draft record.
//! Transport, rendering and real persistence live outside the engine.

pub mod draft;
pub mod laws;
pub mod record;
pub mod registry;
pub mod role;
pub mod session;
pub mod turn;
