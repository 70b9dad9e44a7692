//! A single-child process supervisor's decision core.
//!
//! The library holds everything about supervision that can be decided from
//! plain values: how a child's raw termination status is classified, how an
//! intercepted signal is to be handled while the child is alive, and whether
//! a terminated child is relaunched or supervision ends with a final exit
//! code. An embedding program owns the operating-system side — spawning the
//! child, draining delivered signals, forwarding them, reaping — and feeds
//! every observation into these functions.

pub mod config;
pub mod laws;
pub mod outcome;
pub mod policy;
pub mod signals;
