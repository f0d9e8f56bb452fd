use vstd::prelude::*;

verus! {

/// Everything a ledger operation can fail with.
///
/// Every check in the processor is eager: the first violated
/// precondition aborts the operation with the matching variant, and
/// the contracts in [`crate::processor`] say exactly which inputs
/// produce which variant.
#[derive(Clone, Copy, Debug, PartialEq, Eq, Structural)]
pub enum VaultError {
    /// The requester did not present the signed capability.
    Unauthorized,
    /// CreateVault was asked to reuse a slot that already holds a live record.
    AlreadyInitialized,
    /// A caller-supplied record address differs from the derived one.
    InvalidAccountAddress,
    /// A record that the operation needs is missing or not yet initialized.
    InvalidAccountData,
    /// A checked addition on a balance would exceed `u64::MAX`.
    ArithmeticOverflow,
    /// A withdrawal asked for more than the recorded balance.
    InsufficientFunds,
    /// The instruction bytes or a record buffer have the wrong shape.
    DecodeError,
}

} // verus!
