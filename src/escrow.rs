//! The escrow state machine: a record of value held for a buyer and a
//! seller, and the transitions that release it.
use vstd::prelude::*;

use crate::error::EscrowError;
use crate::identity::Identity;
use crate::ledger::{balance_in, moved, Ledger};

verus! {

/// The longest order description of the compact deployment profile, in bytes.
pub const MAX_ORDER_DETAILS_COMPACT: usize = 32;

/// The longest order description of the wide deployment profile, in bytes.
pub const MAX_ORDER_DETAILS_WIDE: usize = 100;

/// Where an escrow stands in its lifecycle.
#[derive(Clone, Copy, Debug, PartialEq, Eq, Structural)]
pub enum EscrowStatus {
    Initialized,
    Confirmed,
    Completed,
    Refunded,
    Failed,
}

/// The persisted record of one escrow.
#[derive(Debug)]
pub struct EscrowAccount {
    /// The paying party.
    pub buyer: Identity,
    /// The receiving party.
    pub seller: Identity,
    /// The order description; with the two parties it names the record.
    pub order_details: String,
    /// The value held in custody for this record.
    pub amount: u64,
    pub status: EscrowStatus,
    /// The nonce that re-derives the record's address; opaque here.
    pub bump: u8,
    /// The slot that holds the record and, in custody, its funds.
    pub address: Identity,
}

impl EscrowAccount {
    /// Funds stay in custody exactly until the record reaches a terminal
    /// status.
    pub open spec fn wf(&self) -> bool {
        if is_terminal(self.status) {
            self.amount == 0
        } else {
            self.amount > 0
        }
    }
}

/// The four business transitions of a record.
#[derive(Clone, Copy, Debug, PartialEq, Eq, Structural)]
pub enum Operation {
    Confirm,
    Refund,
    Fail,
    Withdraw,
}

/// The length of `s` in UTF-8 bytes.
pub open spec fn byte_len(s: Seq<char>) -> nat {
    vstd::utf8::encode_utf8(s).len()
}

/// A status from which only closing remains.
pub open spec fn is_terminal(s: EscrowStatus) -> bool {
    s is Completed || s is Refunded || s is Failed
}

/// `Ok(())` where no error is given, else that error.
pub open spec fn outcome(e: Option<EscrowError>) -> Result<(), EscrowError> {
    match e {
        Some(e) => Err(e),
        None => Ok(()),
    }
}

/// Whether `caller` may perform `op` on `rec`.
pub open spec fn authorized(op: Operation, rec: EscrowAccount, caller: Identity) -> bool {
    match op {
        Operation::Confirm | Operation::Withdraw => caller == rec.seller,
        Operation::Refund => caller == rec.buyer,
        Operation::Fail => caller == rec.buyer || caller == rec.seller,
    }
}

/// The error of a caller that may not perform `op`.
pub open spec fn auth_error(op: Operation) -> EscrowError {
    match op {
        Operation::Refund => EscrowError::OnlyBuyerAllowed,
        _ => EscrowError::Unauthorized,
    }
}

/// The status that `op` starts from.
pub open spec fn required_status(op: Operation) -> EscrowStatus {
    match op {
        Operation::Withdraw => EscrowStatus::Confirmed,
        _ => EscrowStatus::Initialized,
    }
}

/// The error of `op` tried from another status.
pub open spec fn status_error(op: Operation) -> EscrowError {
    match op {
        Operation::Confirm => EscrowError::InvalidStatusForConfirmation,
        Operation::Refund => EscrowError::InvalidStatusForRefund,
        Operation::Fail => EscrowError::InvalidStatusForFailure,
        Operation::Withdraw => EscrowError::InvalidStatusForWithdrawal,
    }
}

/// The status that `op` leads to.
pub open spec fn next_status(op: Operation) -> EscrowStatus {
    match op {
        Operation::Confirm => EscrowStatus::Confirmed,
        Operation::Refund => EscrowStatus::Refunded,
        Operation::Fail => EscrowStatus::Failed,
        Operation::Withdraw => EscrowStatus::Completed,
    }
}

/// Whether `op` releases the funds in custody.
pub open spec fn moves_funds(op: Operation) -> bool {
    !(op is Confirm)
}

/// Who receives the funds that `op` releases.
pub open spec fn payee(op: Operation, rec: EscrowAccount) -> Identity {
    match op {
        Operation::Withdraw => rec.seller,
        _ => rec.buyer,
    }
}

/// The first check of `op` that `rec` and `caller` fail, before any funds
/// are looked at: the caller, then the status, then the amount.
pub open spec fn precheck_error(op: Operation, rec: EscrowAccount, caller: Identity) -> Option<
    EscrowError,
> {
    if !authorized(op, rec, caller) {
        Some(auth_error(op))
    } else if op is Withdraw && rec.status is Completed {
        Some(EscrowError::AlreadyWithdrawn)
    } else if rec.status != required_status(op) {
        Some(status_error(op))
    } else if moves_funds(op) && rec.amount == 0 {
        Some(
            if op is Withdraw {
                EscrowError::AlreadyWithdrawn
            } else {
                EscrowError::ZeroAmount
            },
        )
    } else {
        None
    }
}

/// The error of `op`, if any: a failed check, or too little in custody.
pub open spec fn step_error(
    op: Operation,
    rec: EscrowAccount,
    ledger: Map<Identity, nat>,
    caller: Identity,
) -> Option<EscrowError> {
    if precheck_error(op, rec, caller) is Some {
        precheck_error(op, rec, caller)
    } else if moves_funds(op) && balance_in(ledger, rec.address) < rec.amount {
        Some(EscrowError::InsufficientFunds)
    } else {
        None
    }
}

/// The record after `op` succeeded on `rec`.
pub open spec fn step_record(op: Operation, rec: EscrowAccount) -> EscrowAccount {
    if moves_funds(op) {
        EscrowAccount { status: next_status(op), amount: 0, ..rec }
    } else {
        EscrowAccount { status: next_status(op), ..rec }
    }
}

/// The holdings after `op` succeeded on `rec`.
pub open spec fn step_ledger(op: Operation, rec: EscrowAccount, ledger: Map<Identity, nat>) -> Map<
    Identity,
    nat,
> {
    if moves_funds(op) {
        moved(ledger, rec.address, payee(op, rec), rec.amount as nat)
    } else {
        ledger
    }
}

/// The error of `initialize`, if any.
pub open spec fn initialize_error(
    ledger: Map<Identity, nat>,
    buyer: Identity,
    order_details: Seq<char>,
    amount: u64,
    max_len: usize,
) -> Option<EscrowError> {
    if byte_len(order_details) > max_len {
        Some(EscrowError::OrderDetailsTooLong)
    } else if amount == 0 {
        Some(EscrowError::ZeroAmount)
    } else if balance_in(ledger, buyer) < amount {
        Some(EscrowError::InsufficientFunds)
    } else {
        None
    }
}

/// The error of `close_escrow`, if any.
pub open spec fn close_error(rec: EscrowAccount) -> Option<EscrowError> {
    if is_terminal(rec.status) {
        None
    } else {
        Some(EscrowError::InvalidStatusForClose)
    }
}

/// Opens an escrow: checks the order description against `max_len` bytes
/// and the amount, then moves `amount` from the buyer into the record's
/// custody at `address`.
pub fn initialize(
    ledger: &mut Ledger,
    address: Identity,
    bump: u8,
    buyer: Identity,
    seller: Identity,
    order_details: String,
    amount: u64,
    max_len: usize,
) -> (r: Result<EscrowAccount, EscrowError>)
    requires
        old(ledger).wf(),
    ensures
        final(ledger).wf(),
        final(ledger).total() == old(ledger).total(),
        match initialize_error(old(ledger)@, buyer, order_details@, amount, max_len) {
            Some(e) => r == Err::<EscrowAccount, EscrowError>(e) && final(ledger)@ == old(ledger)@,
            None => r is Ok && final(ledger)@ == moved(old(ledger)@, buyer, address, amount as nat),
        },
        r matches Ok(rec) ==> rec.wf(),
        r matches Ok(rec) ==> rec == (EscrowAccount {
            buyer,
            seller,
            order_details,
            amount,
            status: EscrowStatus::Initialized,
            bump,
            address,
        }),
{
    let len = order_details.as_str().as_bytes().len();
    if len > max_len {
        return Err(EscrowError::OrderDetailsTooLong);
    }
    if amount == 0 {
        return Err(EscrowError::ZeroAmount);
    }
    match ledger.transfer(&buyer, &address, amount) {
        Ok(()) => {},
        Err(e) => {
            return Err(e);
        },
    }
    Ok(
        EscrowAccount {
            buyer,
            seller,
            order_details,
            amount,
            status: EscrowStatus::Initialized,
            bump,
            address,
        },
    )
}

/// The seller confirms the order. No funds move.
pub fn confirm_order(escrow: &mut EscrowAccount, caller: &Identity) -> (r: Result<(), EscrowError>)
    ensures
        r == outcome(precheck_error(Operation::Confirm, *old(escrow), *caller)),
        r is Ok ==> *final(escrow) == step_record(Operation::Confirm, *old(escrow)),
        old(escrow).wf() ==> final(escrow).wf(),
        r is Err ==> *final(escrow) == *old(escrow),
{
    if !caller.same_as(&escrow.seller) {
        return Err(EscrowError::Unauthorized);
    }
    if escrow.status != EscrowStatus::Initialized {
        return Err(EscrowError::InvalidStatusForConfirmation);
    }
    escrow.status = EscrowStatus::Confirmed;
    Ok(())
}

/// The buyer takes the funds back before the order is confirmed.
pub fn refund_order(escrow: &mut EscrowAccount, ledger: &mut Ledger, caller: &Identity) -> (r:
    Result<(), EscrowError>)
    requires
        old(ledger).wf(),
    ensures
        final(ledger).wf(),
        final(ledger).total() == old(ledger).total(),
        r == outcome(step_error(Operation::Refund, *old(escrow), old(ledger)@, *caller)),
        r is Ok ==> *final(escrow) == step_record(Operation::Refund, *old(escrow)),
        old(escrow).wf() ==> final(escrow).wf(),
        r is Ok ==> final(ledger)@ == step_ledger(Operation::Refund, *old(escrow), old(ledger)@),
        r is Err ==> *final(escrow) == *old(escrow) && final(ledger)@ == old(ledger)@,
{
    if !caller.same_as(&escrow.buyer) {
        return Err(EscrowError::OnlyBuyerAllowed);
    }
    if escrow.status != EscrowStatus::Initialized {
        return Err(EscrowError::InvalidStatusForRefund);
    }
    if escrow.amount == 0 {
        return Err(EscrowError::ZeroAmount);
    }
    match ledger.transfer(&escrow.address, &escrow.buyer, escrow.amount) {
        Ok(()) => {},
        Err(e) => {
            return Err(e);
        },
    }
    escrow.status = EscrowStatus::Refunded;
    escrow.amount = 0;
    Ok(())
}

/// Either party calls the order off before it is confirmed; the funds go
/// back to the buyer.
pub fn fail_order(escrow: &mut EscrowAccount, ledger: &mut Ledger, caller: &Identity) -> (r: Result<
    (),
    EscrowError,
>)
    requires
        old(ledger).wf(),
    ensures
        final(ledger).wf(),
        final(ledger).total() == old(ledger).total(),
        r == outcome(step_error(Operation::Fail, *old(escrow), old(ledger)@, *caller)),
        r is Ok ==> *final(escrow) == step_record(Operation::Fail, *old(escrow)),
        old(escrow).wf() ==> final(escrow).wf(),
        r is Ok ==> final(ledger)@ == step_ledger(Operation::Fail, *old(escrow), old(ledger)@),
        r is Err ==> *final(escrow) == *old(escrow) && final(ledger)@ == old(ledger)@,
{
    if !caller.same_as(&escrow.buyer) && !caller.same_as(&escrow.seller) {
        return Err(EscrowError::Unauthorized);
    }
    if escrow.status != EscrowStatus::Initialized {
        return Err(EscrowError::InvalidStatusForFailure);
    }
    if escrow.amount == 0 {
        return Err(EscrowError::ZeroAmount);
    }
    match ledger.transfer(&escrow.address, &escrow.buyer, escrow.amount) {
        Ok(()) => {},
        Err(e) => {
            return Err(e);
        },
    }
    escrow.status = EscrowStatus::Failed;
    escrow.amount = 0;
    Ok(())
}

/// The seller takes the funds of a confirmed order.
pub fn withdraw_funds(escrow: &mut EscrowAccount, ledger: &mut Ledger, caller: &Identity) -> (r:
    Result<(), EscrowError>)
    requires
        old(ledger).wf(),
    ensures
        final(ledger).wf(),
        final(ledger).total() == old(ledger).total(),
        r == outcome(step_error(Operation::Withdraw, *old(escrow), old(ledger)@, *caller)),
        r is Ok ==> *final(escrow) == step_record(Operation::Withdraw, *old(escrow)),
        old(escrow).wf() ==> final(escrow).wf(),
        r is Ok ==> final(ledger)@ == step_ledger(Operation::Withdraw, *old(escrow), old(ledger)@),
        r is Err ==> *final(escrow) == *old(escrow) && final(ledger)@ == old(ledger)@,
{
    if !caller.same_as(&escrow.seller) {
        return Err(EscrowError::Unauthorized);
    }
    if escrow.status == EscrowStatus::Completed {
        return Err(EscrowError::AlreadyWithdrawn);
    }
    if escrow.status != EscrowStatus::Confirmed {
        return Err(EscrowError::InvalidStatusForWithdrawal);
    }
    if escrow.amount == 0 {
        return Err(EscrowError::AlreadyWithdrawn);
    }
    match ledger.transfer(&escrow.address, &escrow.seller, escrow.amount) {
        Ok(()) => {},
        Err(e) => {
            return Err(e);
        },
    }
    escrow.status = EscrowStatus::Completed;
    escrow.amount = 0;
    Ok(())
}

/// Closes a record in a terminal status: everything left at its address
/// goes to `receiver`, and the amount that went is returned. The caller
/// then discards the record.
pub fn close_escrow(escrow: &EscrowAccount, ledger: &mut Ledger, receiver: &Identity) -> (r: Result<
    u64,
    EscrowError,
>)
    requires
        old(ledger).wf(),
    ensures
        final(ledger).wf(),
        final(ledger).total() == old(ledger).total(),
        match close_error(*escrow) {
            Some(e) => r == Err::<u64, EscrowError>(e) && final(ledger)@ == old(ledger)@,
            None => r == Ok::<u64, EscrowError>(balance_in(old(ledger)@, escrow.address) as u64)
                && final(ledger)@ == moved(
                old(ledger)@,
                escrow.address,
                *receiver,
                balance_in(old(ledger)@, escrow.address),
            ),
        },
{
    match escrow.status {
        EscrowStatus::Completed | EscrowStatus::Refunded | EscrowStatus::Failed => {},
        _ => {
            return Err(EscrowError::InvalidStatusForClose);
        },
    }
    let residual = ledger.balance_of(&escrow.address);
    match ledger.transfer(&escrow.address, receiver, residual) {
        Ok(()) => Ok(residual),
        Err(e) => Err(e),
    }
}

} // verus!
