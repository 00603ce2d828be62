//! Pinned in-place initialization with provable address stability.
//!
//! A value built through this library is constructed directly inside its
//! final storage slot and is guaranteed to keep that storage location for
//! the whole lifetime of its owning handle, however often the handle itself
//! changes hands.  A deliberately movable sibling handle provides the
//! contrasting baseline, and a stability verifier compares address samples
//! taken before and after an ownership transfer.
//!
//! Storage is modelled as an arena of slots: an address is the index of a
//! slot, handed out once and never reused, so a payload's address is stable
//! exactly when nothing ever rewrites which slot the handle points at.

pub mod cell;
pub mod error;
pub mod initializer;
pub mod lifecycle;
pub mod memory;
pub mod movable;
pub mod pinned;
pub mod report;
pub mod sample;
pub mod stability;
