use vstd::prelude::*;

verus! {

/// Why a call was refused. Every error is terminal for the call.
#[derive(Clone, Copy, Debug, PartialEq, Eq, Structural)]
pub enum EscrowError {
    /// Unknown operation tag, or a payload too short for its tag.
    InvalidInstruction,
    /// Fewer accounts were supplied than the operation reads.
    NotEnoughAccountKeys,
    /// A party that must sign the call did not.
    MissingRequiredSignature,
    /// The record storage holds less than the exemption minimum.
    NotRentExempt,
    /// Init on a record that is already active.
    AccountAlreadyInitialized,
    /// Exchange or Cancel on a record that was never initialized.
    UninitializedAccount,
    /// A supplied account does not match the record, or its data is malformed.
    InvalidAccountData,
    /// The counter-asset amount differs from the record's expected amount.
    AmountMismatch,
    /// A balance addition would overflow.
    AmountOverflow,
    /// An account is not owned by, or is not, the token-transfer service.
    IncorrectProgramId,
    /// No program-controlled address exists for the authority seed.
    InvalidSeeds,
}

} // verus!
