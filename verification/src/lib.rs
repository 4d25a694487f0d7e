//! Fatal-signal breakdown diagnostics: classification of captured stack
//! frames against known-bad graphics-driver signatures, and composition of
//! the mitigation, log and alert decisions that follow from it.
//!
//! The library decides; the surrounding process performs. It captures the
//! faulting stack and turns a signal number and the captured frame names
//! into a [`report::Report`]: whether the heuristic matched, the mitigation
//! notice, the full log entry, and the conditional configuration write and
//! user alert. Registering the handler, persisting the option, emitting the
//! log entry, presenting the alert and exiting the process are the caller's
//! side effects.

pub mod capture;
pub mod classify;
pub mod report;
pub mod text;
