use vstd::prelude::*;

verus! {

/// Failure of the external ledger's transfer capability. The vault core
/// propagates these verbatim; it never pre-checks balances itself.
#[derive(Clone, Copy, Debug, PartialEq, Eq)]
pub enum TransferError {
    /// The source or destination account reference does not name a ledger account.
    UnknownAccount,
    /// The supplied transfer authority is not the owner of the source account.
    NotAuthorized,
    /// The source account holds less than the requested amount.
    InsufficientFunds,
    /// Crediting the destination would overflow its balance.
    Overflow,
}

/// Failure of a vault invocation. Every failure aborts the whole invocation
/// with no state change.
#[derive(Clone, Copy, Debug, PartialEq, Eq)]
pub enum VaultError {
    /// The supplied vault record address (or its authority/bump pair) does not
    /// re-derive to the expected custody address.
    DerivationMismatch,
    /// A required signer (the depositing user, or the record's authority for
    /// withdrawals, or the paying owner for initialization) did not sign.
    MissingSignature,
    /// Initialization was requested for an owner whose record already exists.
    AlreadyInitialized,
    /// The bump search exhausted the nonce space without finding an off-curve
    /// address: a fatal configuration condition, never expected at runtime.
    DerivationFailure,
    /// The external ledger refused the transfer; the ledger's own error is
    /// carried through unmodified.
    ExternalTransferFailure(TransferError),
}

} // verus!
