//! The error taxonomy of the controller.

use vstd::prelude::*;

verus! {

/// Why an attached payment was rejected.
#[derive(Debug, Clone, Copy, PartialEq, Eq, Structural)]
pub enum PaymentIssue {
    /// No funds were attached, or the single attached coin had a zero amount.
    NoFunds,
    /// More than one kind of coin was attached.
    MultipleDenoms,
    /// Exactly one coin was attached, but not of the managed denomination.
    WrongDenom,
}

/// A structured failure of a controller operation. Every precondition
/// violation aborts the operation with one of these and no outbound
/// instruction is emitted.
#[derive(Debug, Clone, Copy, PartialEq, Eq, Structural)]
pub enum ContractError {
    /// The authority address given at creation is not well formed.
    InvalidAddress,
    /// The caller of a mutating operation is not the stored authority.
    Unauthorized,
    /// A mint of a zero amount was requested.
    NothingToMint,
    /// The payment attached to a burn does not match the managed denomination.
    InvalidPayment(PaymentIssue),
    /// A callback arrived under a correlation id this controller never issued.
    UnknownReplyId(u64),
}

} // verus!
