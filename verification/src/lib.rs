//! Sampling of the processor time that a kernel counts.
//!
//! A line of cumulative counters is read as a snapshot ([`parser`]), two
//! snapshots of one processor are subtracted into a delta, and a delta is
//! normalised into a report of exact shares ([`monitor`]). A sampling cycle
//! ([`sampler`]) decides what to do between the two readings; reading the
//! line and waiting are left to whoever drives it. [`grammar`] states which
//! lines are read and what they are read as.

pub mod clock;
pub mod cpu;
pub mod error;
pub mod grammar;
pub mod monitor;
pub mod parser;
pub mod process;
pub mod reporter;
pub mod sampler;
pub mod settings;
