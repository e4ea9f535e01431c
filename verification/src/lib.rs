//! Toolchain resolution and source-build orchestration.
//!
//! Given a source tree that must be compiled from scratch, this library
//! decides which compiler to trust (user override, platform toolchain, or
//! PATH search), classifies `configure` scripts, and drives the decision
//! logic of a `configure && make && make install` or bare-`make` build,
//! including the fallback and verification steps for installs that
//! misreport their own success.
//!
//! All subprocess and filesystem work happens outside this crate; callers
//! run the commands and hand the captured results back to the step
//! functions defined here.

pub mod errors;
pub mod platform;
pub mod sniff;
pub mod strategy;
pub mod text;
pub mod tools;
