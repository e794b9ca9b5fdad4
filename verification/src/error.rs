use vstd::prelude::*;

verus! {

/// A dispatch ends either in one delegated call to the token engine or in
/// exactly one of these failures.  Every check is local and immediate: the
/// first failing check aborts the call and nothing is delegated.
#[derive(Clone, Copy, Debug, PartialEq, Eq, Structural)]
pub enum DispatchError {
    /// The bound delegate-program account is not the token engine.
    IncorrectDelegateProgram,
    /// The initializer account did not sign the transaction.
    MissingSignature,
    /// The rent-oracle account's data does not hold rent parameters the
    /// engine prices.
    InvalidRentOracle,
    /// The initializer's balance is below the rent-exemption minimum.
    NotRentExempt,
    /// The instruction buffer is empty or its selector byte is unknown.
    InvalidInstructionData,
    /// The account list ran out before a required role was filled.
    NotEnoughAccounts,
    /// The delegated call itself was refused by the engine's builder.
    DelegatedCallFailure,
}

} // verus!
