//! Structured records for the reporting sink.
//!
//! The sink itself — whatever turns records into text lines — is an
//! external collaborator.  What the records guarantee is structure, not
//! wording: each one carries a pass/fail distinction and the numeric
//! payload value sampled at verification time.

use vstd::prelude::*;

verus! {

/// The severity of a record.
#[derive(PartialEq, Eq, Structural, Clone, Copy, Debug)]
pub enum Level {
    Info,
    Error,
}

/// One record emitted per stability verification.
#[derive(Clone, Copy, Debug)]
pub struct ReportRecord {
    /// `Info` for a passed verification, `Error` for a failed one.
    pub level: Level,
    /// The pass/fail distinction.
    pub passed: bool,
    /// The numeric payload value at the time of sampling (diagnostic).
    pub value: i32,
    /// The storage location the verification was about, if any.
    pub address: Option<usize>,
}

/// Everything teardown observes of the module state, echoed verbatim:
/// the integer collection in order, and the two payload values.
#[derive(Debug)]
pub struct TeardownReport {
    pub numbers: Vec<i32>,
    pub pinned_value: i32,
    pub movable_value: i32,
}

} // verus!
