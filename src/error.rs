//! Errors of the escrow program and the classes they fall into.
use vstd::prelude::*;

verus! {

/// The class of an error, which tells a caller how to react to it.
#[derive(Clone, Copy, Debug, PartialEq, Eq, Structural)]
pub enum ErrorKind {
    /// Bad input: the caller must fix it and start afresh.
    Validation,
    /// The caller is not the party that the operation needs.
    Authorization,
    /// The operation is not valid in the record's current status.
    State,
    /// A holder had too little value for a transfer.
    Ledger,
    /// Conditions that no transition of this program produces.
    Internal,
}

/// Every way in which an escrow operation can be rejected.
#[derive(Clone, Copy, Debug, PartialEq, Eq, Structural)]
pub enum EscrowError {
    OrderDetailsTooLong,
    ZeroAmount,
    OnlyBuyerAllowed,
    OnlySellerAllowed,
    Unauthorized,
    InvalidStatusForConfirmation,
    InvalidStatusForRefund,
    InvalidStatusForFailure,
    InvalidStatusForWithdrawal,
    InvalidStatusForClose,
    InsufficientFunds,
    AlreadyWithdrawn,
    TransferFailed,
    PdaDerivationError,
    VaultDerivationError,
    EscrowExpired,
    EscrowLocked,
    InternalError,
}

/// The class that each error belongs to.
pub open spec fn kind_of(e: EscrowError) -> ErrorKind {
    match e {
        EscrowError::OrderDetailsTooLong | EscrowError::ZeroAmount => ErrorKind::Validation,
        EscrowError::OnlyBuyerAllowed
        | EscrowError::OnlySellerAllowed
        | EscrowError::Unauthorized => ErrorKind::Authorization,
        EscrowError::InvalidStatusForConfirmation
        | EscrowError::InvalidStatusForRefund
        | EscrowError::InvalidStatusForFailure
        | EscrowError::InvalidStatusForWithdrawal
        | EscrowError::InvalidStatusForClose
        | EscrowError::AlreadyWithdrawn
        | EscrowError::EscrowExpired
        | EscrowError::EscrowLocked => ErrorKind::State,
        EscrowError::InsufficientFunds | EscrowError::TransferFailed => ErrorKind::Ledger,
        EscrowError::PdaDerivationError
        | EscrowError::VaultDerivationError
        | EscrowError::InternalError => ErrorKind::Internal,
    }
}

impl EscrowError {
    /// The class of this error.
    pub fn kind(&self) -> (r: ErrorKind)
        ensures
            r == kind_of(*self),
    {
        match self {
            EscrowError::OrderDetailsTooLong | EscrowError::ZeroAmount => ErrorKind::Validation,
            EscrowError::OnlyBuyerAllowed
            | EscrowError::OnlySellerAllowed
            | EscrowError::Unauthorized => ErrorKind::Authorization,
            EscrowError::InvalidStatusForConfirmation
            | EscrowError::InvalidStatusForRefund
            | EscrowError::InvalidStatusForFailure
            | EscrowError::InvalidStatusForWithdrawal
            | EscrowError::InvalidStatusForClose
            | EscrowError::AlreadyWithdrawn
            | EscrowError::EscrowExpired
            | EscrowError::EscrowLocked => ErrorKind::State,
            EscrowError::InsufficientFunds | EscrowError::TransferFailed => ErrorKind::Ledger,
            EscrowError::PdaDerivationError
            | EscrowError::VaultDerivationError
            | EscrowError::InternalError => ErrorKind::Internal,
        }
    }

    /// The message that explains this error to a user.
    pub fn message(&self) -> (r: &'static str) {
        match self {
            EscrowError::OrderDetailsTooLong => "Order details exceed the maximum length",
            EscrowError::ZeroAmount => "Escrow amount must be greater than zero",
            EscrowError::OnlyBuyerAllowed => "Only the buyer can perform this operation",
            EscrowError::OnlySellerAllowed => "Only the seller can perform this operation",
            EscrowError::Unauthorized => "Unauthorized access: signer is neither buyer nor seller",
            EscrowError::InvalidStatusForConfirmation => "Cannot confirm escrow that is not in Initialized state",
            EscrowError::InvalidStatusForRefund => "Cannot refund escrow that is not in Initialized state",
            EscrowError::InvalidStatusForFailure => "Cannot mark as failed if escrow is not in Initialized state",
            EscrowError::InvalidStatusForWithdrawal => "Cannot withdraw funds if escrow is not in Confirmed state",
            EscrowError::InvalidStatusForClose => "Cannot close escrow that is not in Completed, Refunded, or Failed state",
            EscrowError::InsufficientFunds => "Insufficient funds in escrow account",
            EscrowError::AlreadyWithdrawn => "Funds have already been withdrawn",
            EscrowError::TransferFailed => "Fund transfer failed",
            EscrowError::PdaDerivationError => "Failed to calculate PDA for escrow account",
            EscrowError::VaultDerivationError => "Failed to calculate PDA for vault account",
            EscrowError::EscrowExpired => "Escrow has expired and can no longer be confirmed",
            EscrowError::EscrowLocked => "Escrow is locked due to an ongoing dispute",
            EscrowError::InternalError => "An unexpected error occurred in the escrow program",
        }
    }
}

} // verus!
