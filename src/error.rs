use vstd::prelude::*;

verus! {

/// The ways in which a ledger operation can be refused.
#[derive(PartialEq, Eq, Structural, Clone, Copy, Debug)]
pub enum AccessError {
    /// A record's storage controller is not the expected one.
    WrongOwner,
    /// The stake pool record is not controlled by the program.
    WrongStakePoolAccountOwner,
    /// The stake account record is not controlled by the program.
    WrongStakeAccountOwner,
    /// The presented token program is not the token module.
    WrongSplTokenProgramId,
    /// The presented system program is not the system module.
    WrongSystemProgram,
    /// The presented rent account is not the rent sysvar.
    WrongRent,
    /// The stake account does not belong to the presented stake pool.
    WrongStakePool,
    /// The signing owner is not the owner of the stake account.
    StakeAccountOwnerMismatch,
    /// The presented mint is not the central state's token mint.
    WrongMint,
    /// The stake account owner did not sign.
    StakePoolOwnerMustSign,
    /// A record's tag is not the expected kind.
    DataTypeMismatch,
    /// The supplied address is not the derived one.
    AccountNotDeterministic,
    /// Overflow, underflow, division by zero or a lossy downcast.
    Overflow,
    /// A record's bytes could not be decoded.
    InvalidAccountData,
    /// Fewer accounts were supplied than the operation needs.
    NotEnoughAccountKeys,
}

} // verus!
