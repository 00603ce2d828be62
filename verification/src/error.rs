//! The error kinds of the construction protocol.

use vstd::prelude::*;

verus! {

/// Backing storage could not be obtained.  Construction fails atomically:
/// no partially initialized value is ever exposed.
#[derive(PartialEq, Eq, Structural, Clone, Copy, Debug)]
pub struct AllocError;

/// A slot or handle was used outside its valid state window — a logic bug
/// in the caller, not a recoverable condition.
#[derive(PartialEq, Eq, Structural, Clone, Copy, Debug)]
pub struct ContractViolation;

/// Why loading the module state failed.  Any allocation failure during
/// `init` aborts the whole load and surfaces here.
#[derive(PartialEq, Eq, Structural, Clone, Copy, Debug)]
pub enum InitError {
    Alloc(AllocError),
}

} // verus!
