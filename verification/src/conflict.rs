//! What the check of a transaction against the ledger's rules says.

use iota_sdk::types::block::semantic::ConflictReason;
use vstd::prelude::*;

verus! {

/// The conflict code that stands for no conflict.
pub const NO_CONFLICT: u8 = 0;

/// A transaction is in conflict with the ledger's rules; `code` says why,
/// and is not `NO_CONFLICT`.
#[derive(Clone, Copy, Debug, PartialEq, Eq, Structural)]
pub struct SemanticConflict {
    pub code: u8,
}

/// The SDK's reasons for a conflict.
#[verifier::external_type_specification]
#[verifier::external_body]
pub struct ExConflictReason(ConflictReason);

/// The byte that the ledger uses for `reason`: what the cast of the SDK's
/// `ConflictReason` to `u8` gives.
pub uninterp spec fn conflict_code(reason: ConflictReason) -> u8;

/// Whether a transaction with the conflict code `code` may go on: it may
/// where the code stands for no conflict, and is refused with its code
/// otherwise.
pub open spec fn verdict_of(code: u8) -> Result<(), SemanticConflict> {
    if code == NO_CONFLICT {
        Ok(())
    } else {
        Err(SemanticConflict { code })
    }
}

/// Casts the SDK's `ConflictReason` to the byte that the ledger uses for
/// it.  The byte depends on the reason alone, and the contract gives it
/// its name.
#[verifier::external_body]
pub(crate) fn reason_code(reason: ConflictReason) -> (code: u8)
    ensures
        code == conflict_code(reason),
{
    reason as u8
}

/// Hands out the SDK's `ConflictReason::None`, the reason of a
/// transaction that is in no conflict.  The SDK gives it the code 0.
#[verifier::external_body]
fn reason_none() -> (reason: ConflictReason)
    ensures
        conflict_code(reason) == NO_CONFLICT,
{
    ConflictReason::None
}

/// The SDK's reason of a transaction that is in no conflict: the one that
/// has the code `NO_CONFLICT`, so that a transaction checked with it may go
/// on.
pub fn no_conflict() -> (reason: ConflictReason)
    ensures
        conflict_code(reason) == NO_CONFLICT,
        verdict_of(conflict_code(reason)) is Ok,
{
    reason_none()
}

/// Whether a transaction with the conflict code `code` may go on.
pub fn verdict(code: u8) -> (r: Result<(), SemanticConflict>)
    ensures
        r == verdict_of(code),
{
    if code == NO_CONFLICT {
        Ok(())
    } else {
        Err(SemanticConflict { code })
    }
}

/// Whether a transaction that was checked with the outcome `reason` may
/// go on.
pub fn reason_verdict(reason: ConflictReason) -> (r: Result<(), SemanticConflict>)
    ensures
        r == verdict_of(conflict_code(reason)),
{
    verdict(reason_code(reason))
}

} // verus!
