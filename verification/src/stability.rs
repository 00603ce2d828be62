//! The stability verifier: compares two address samples of one logical
//! value, taken before and after an ownership transfer.

use vstd::prelude::*;

use crate::report::{Level, ReportRecord};
use crate::sample::AddressSample;

verus! {

/// Why a verification failed.
#[derive(PartialEq, Eq, Structural, Clone, Copy, Debug)]
pub enum FailDetail {
    /// Stability was expected, but the two samples differ: the payload
    /// moved although it was supposed to be pinned.
    MovedWhilePinned,
    /// Stability was not expected, yet the two samples are equal: two
    /// genuinely distinct storage locations collided, which should never
    /// happen.
    CollidedWhileMovable,
}

/// The outcome of one stability verification.
#[derive(PartialEq, Eq, Structural, Clone, Copy, Debug)]
pub enum VerificationOutcome {
    Pass,
    Fail(FailDetail),
}

/// What `verify` decides: with `expect_stable`, equal samples pass and
/// differing ones fail; without it, differing samples pass and equal ones
/// fail — the impossible-collision branch, which is reported rather than
/// silently passed.
pub open spec fn verify_spec(
    before: AddressSample,
    after: AddressSample,
    expect_stable: bool,
) -> VerificationOutcome {
    if expect_stable {
        if before == after {
            VerificationOutcome::Pass
        } else {
            VerificationOutcome::Fail(FailDetail::MovedWhilePinned)
        }
    } else {
        if before == after {
            VerificationOutcome::Fail(FailDetail::CollidedWhileMovable)
        } else {
            VerificationOutcome::Pass
        }
    }
}

/// Compares the two samples and decides pass or fail as [`verify_spec`]
/// says, and emits exactly one structured record of the verification: its
/// level mirrors the outcome, and it carries the numeric payload value
/// observed at sampling time together with the sampled location.  The
/// record is advisory; the outcome alone is the verdict.
pub fn verify(
    before: AddressSample,
    after: AddressSample,
    expect_stable: bool,
    observed_value: i32,
) -> (r: (VerificationOutcome, ReportRecord))
    ensures
        r.0 == verify_spec(before, after, expect_stable),
        r.1.passed == (r.0 is Pass),
        r.1.level == (if r.0 is Pass {
            Level::Info
        } else {
            Level::Error
        }),
        r.1.value == observed_value,
        r.1.address == Some(after.location),
{
    let stable = before.same_location(&after);
    let outcome = if expect_stable {
        if stable {
            VerificationOutcome::Pass
        } else {
            VerificationOutcome::Fail(FailDetail::MovedWhilePinned)
        }
    } else {
        if stable {
            VerificationOutcome::Fail(FailDetail::CollidedWhileMovable)
        } else {
            VerificationOutcome::Pass
        }
    };
    let passed = match outcome {
        VerificationOutcome::Pass => true,
        VerificationOutcome::Fail(_) => false,
    };
    let record = ReportRecord {
        level: if passed {
            Level::Info
        } else {
            Level::Error
        },
        passed,
        value: observed_value,
        address: Some(after.location),
    };
    (outcome, record)
}

/// An address collision on the movable path is never silently passed:
/// whenever the two samples of a supposedly relocated value are equal, the
/// verifier's `expect_stable = false` path reports a failure.
pub proof fn lemma_collision_is_reported(before: AddressSample, after: AddressSample)
    requires
        before == after,
    ensures
        verify_spec(before, after, false) == VerificationOutcome::Fail(
            FailDetail::CollidedWhileMovable,
        ),
{
}

/// A stable address on the pinned path always passes: whenever the two
/// samples of a pinned value are equal, the verifier's
/// `expect_stable = true` path reports a pass.
pub proof fn lemma_stable_address_passes(before: AddressSample, after: AddressSample)
    requires
        before == after,
    ensures
        verify_spec(before, after, true) == VerificationOutcome::Pass,
{
}

} // verus!
