use vstd::prelude::*;

verus! {

/// The error taxonomy of the four core operations.
///
/// Validation errors (`InvalidThreshold`, `NoOwnersProvided`,
/// `EmptyInstruction`) are raised at creation time from malformed input.
/// `NotAuthorized` is an authorization error: the signer is not a wallet
/// owner. `TransactionAlreadyExecuted` and `NotEnoughApprovals` are state
/// conflicts that reflect the current persisted records.
#[derive(Clone, Copy, PartialEq, Eq, Structural, Debug)]
pub enum ErrorCode {
    NotEnoughApprovals,
    TransactionAlreadyExecuted,
    InvalidThreshold,
    NoOwnersProvided,
    EmptyInstruction,
    NotAuthorized,
}

} // verus!
