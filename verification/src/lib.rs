//! A verified stream session manager: the state machine that coordinates
//! start/stop requests against one long-running external encoder process.
//!
//! The core is sequential and fully verified. The session engine decides each
//! transition in two halves around the process side effect — a read-only
//! decision and a completion that records the outcome — so the caller that
//! holds exclusive access performs the spawn or termination in between and no
//! decision ever rests on unverified code. The launcher module states the
//! exact encoder invocation, the facade builds configurations and renders the
//! user-facing messages, and the laws module proves how the machine behaves
//! over arbitrary sequences of attempts.

pub mod config;
pub mod facade;
pub mod launcher;
pub mod laws;
pub mod session;
pub mod stats;
