//! A desktop shell boots a separately built backend executable (a "sidecar")
//! and supervises it for the lifetime of the shell window.
//!
//! `platform` resolves the path of the sidecar binary that matches the host's
//! architecture, operating system and ABI. `supervisor` is the state machine
//! that decides, at startup and at window destruction, what is done with the
//! child process. All process and window plumbing lives outside this crate;
//! it hands the plain facts (target flags, spawn outcome, liveness reports)
//! to the functions here and carries out the actions they return.

pub mod platform;
pub mod supervisor;
