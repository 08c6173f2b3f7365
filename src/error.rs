use vstd::prelude::*;

verus! {

/// Why an escrow operation was refused.  Every failure is final for the
/// operation that met it; nothing of that operation is kept.
#[derive(Clone, Copy, Debug, PartialEq, Eq, Structural)]
pub enum EscrowError {
    /// Unknown opcode, or a payload of the wrong length.
    InvalidInstruction,
    /// Stored bytes that do not decode as a record of the expected schema.
    MalformedRecord,
    /// The party that must authorize the operation did not sign it.
    MissingSignature,
    /// The record's storage does not hold the balance needed to persist.
    StorageNotViable,
    /// The record is already active.
    AlreadyInitialized,
    /// The record is not active, so there is nothing to release.
    NotInitialized,
    /// The record's maturity time has not been reached.
    NotMatured,
    /// An account handed in is not the one bound in the record.
    IdentityMismatch,
    /// A balance would exceed the largest representable amount.
    AmountOverflow,
    /// The maturity time would fall outside the representable range.
    ExpiryOverflow,
    /// The keyless authority could not be derived for the given seed.
    AuthorityUnavailable,
    /// The token program handed in is not the token program.
    IncorrectProgramId,
}

} // verus!
