//! Logs a failing outcome, with the place it was observed, before passing it on or halting.
pub mod call_site;
pub mod diagnostic;
pub mod outcome;
pub mod severity;
pub mod symbol;
