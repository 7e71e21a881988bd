//! The closed error taxonomy of the ledger.
//!
//! Every operation surfaces its failure as one of these typed values; no
//! error is retried, swallowed or downgraded inside the library.

use vstd::prelude::*;

verus! {

/// Every way an invocation of the ledger can fail.
///
/// The host environment that runs the ledger halts an invocation whose
/// required signer did not approve the call; verified code never panics, so
/// that halt surfaces here as [`ContractError::Unauthorized`] instead.
#[derive(Clone, Copy, Debug, PartialEq, Eq, Structural)]
pub enum ContractError {
    /// An operation that needs an admin ran before `initialize` succeeded.
    NotInitialized,
    /// `initialize` was called on an already-initialized instance.
    AlreadyInitialized,
    /// A required authorizing identity did not approve the call.
    Unauthorized,
    /// An empty invoice identifier was supplied to `record_payment`.
    InvalidInvoiceId,
    /// Empty asset code, or a native/issuer mismatch.
    InvalidAsset,
    /// The amount was not strictly positive.
    InvalidAmount,
    /// The invoice identifier already has a record.
    PaymentAlreadyRecorded,
    /// A read of an invoice identifier that has no record.
    PaymentNotFound,
}

} // verus!
