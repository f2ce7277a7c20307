//! Properties of the escrow state machine over whole runs of calls.
use vstd::prelude::*;

use crate::error::{kind_of, ErrorKind, EscrowError};
use crate::escrow::{
    authorized, close_error, is_terminal, moves_funds, status_error, step_error, step_ledger,
    step_record, EscrowAccount, EscrowStatus, Operation,
};
use crate::identity::Identity;
use crate::ledger::balance_in;

verus! {

/// The record, the holdings and the total paid out of custody after each
/// call of `calls` in turn, starting from `rec` and `ledger`. A call that
/// fails changes nothing.
pub open spec fn run(rec: EscrowAccount, ledger: Map<Identity, nat>, calls: Seq<(Operation, Identity)>) -> (
    EscrowAccount,
    Map<Identity, nat>,
    nat,
)
    decreases calls.len(),
{
    if calls.len() == 0 {
        (rec, ledger, 0)
    } else {
        let prev = run(rec, ledger, calls.drop_last());
        let op = calls.last().0;
        let caller = calls.last().1;
        if step_error(op, prev.0, prev.1, caller) is Some {
            prev
        } else {
            (
                step_record(op, prev.0),
                step_ledger(op, prev.0, prev.1),
                prev.2 + if moves_funds(op) {
                    prev.0.amount as nat
                } else {
                    0
                },
            )
        }
    }
}

/// Conservation: after any sequence of calls on a record funded with
/// `rec.amount`, what is still in custody plus what was paid out equals
/// what was funded, both in the record and at the record's address in the
/// ledger. Before a terminal status nothing has been paid out; in one, all
/// of it has.
pub proof fn lemma_conservation(
    rec: EscrowAccount,
    ledger: Map<Identity, nat>,
    calls: Seq<(Operation, Identity)>,
)
    requires
        rec.status == EscrowStatus::Initialized,
        rec.buyer != rec.address,
        rec.seller != rec.address,
    ensures
        run(rec, ledger, calls).0.amount + run(rec, ledger, calls).2 == rec.amount,
        balance_in(run(rec, ledger, calls).1, rec.address) + run(rec, ledger, calls).2
            == balance_in(ledger, rec.address),
        is_terminal(run(rec, ledger, calls).0.status) ==> run(rec, ledger, calls).2 == rec.amount,
        !is_terminal(run(rec, ledger, calls).0.status) ==> run(rec, ledger, calls).2 == 0,
        run(rec, ledger, calls).0.buyer == rec.buyer,
        run(rec, ledger, calls).0.seller == rec.seller,
        run(rec, ledger, calls).0.address == rec.address,
    decreases calls.len(),
{
    if calls.len() > 0 {
        lemma_conservation(rec, ledger, calls.drop_last());
    }
}

/// Single terminal transition: once one of confirm, refund and fail has
/// succeeded, another attempt at any of them by a party it allows fails
/// with a status error and moves nothing.
pub proof fn lemma_single_terminal_transition(
    rec: EscrowAccount,
    ledger: Map<Identity, nat>,
    first: Operation,
    first_caller: Identity,
    second: Operation,
    second_caller: Identity,
)
    requires
        first != Operation::Withdraw,
        second != Operation::Withdraw,
        step_error(first, rec, ledger, first_caller) is None,
        authorized(second, rec, second_caller),
    ensures
        step_error(
            second,
            step_record(first, rec),
            step_ledger(first, rec, ledger),
            second_caller,
        ) == Some(status_error(second)),
        kind_of(status_error(second)) == ErrorKind::State,
        run(rec, ledger, seq![(first, first_caller), (second, second_caller)]) == run(
            rec,
            ledger,
            seq![(first, first_caller)],
        ),
{
    let one = seq![(first, first_caller)];
    let two = seq![(first, first_caller), (second, second_caller)];
    assert(two.drop_last() =~= one);
    assert(one.drop_last() =~= Seq::<(Operation, Identity)>::empty());
    reveal_with_fuel(run, 3);
}

/// Withdrawal exactly once: after a withdrawal succeeded, another one fails
/// and moves nothing; by the seller it fails with `AlreadyWithdrawn`.
pub proof fn lemma_withdraw_once(
    rec: EscrowAccount,
    ledger: Map<Identity, nat>,
    first_caller: Identity,
    second_caller: Identity,
)
    requires
        step_error(Operation::Withdraw, rec, ledger, first_caller) is None,
    ensures
        step_error(
            Operation::Withdraw,
            step_record(Operation::Withdraw, rec),
            step_ledger(Operation::Withdraw, rec, ledger),
            second_caller,
        ) is Some,
        second_caller == rec.seller ==> step_error(
            Operation::Withdraw,
            step_record(Operation::Withdraw, rec),
            step_ledger(Operation::Withdraw, rec, ledger),
            second_caller,
        ) == Some(EscrowError::AlreadyWithdrawn),
        run(
            rec,
            ledger,
            seq![(Operation::Withdraw, first_caller), (Operation::Withdraw, second_caller)],
        ) == run(rec, ledger, seq![(Operation::Withdraw, first_caller)]),
{
    let one = seq![(Operation::Withdraw, first_caller)];
    let two = seq![(Operation::Withdraw, first_caller), (Operation::Withdraw, second_caller)];
    assert(two.drop_last() =~= one);
    assert(one.drop_last() =~= Seq::<(Operation, Identity)>::empty());
    reveal_with_fuel(run, 3);
}

/// Authorization: confirm and withdraw by anyone but the seller, and refund
/// by anyone but the buyer, fail with an authorization error; any call by
/// a party that the operation does not allow changes nothing.
pub proof fn lemma_authorization(
    rec: EscrowAccount,
    ledger: Map<Identity, nat>,
    op: Operation,
    caller: Identity,
)
    ensures
        caller != rec.seller ==> step_error(Operation::Confirm, rec, ledger, caller) == Some(
            EscrowError::Unauthorized,
        ),
        caller != rec.seller ==> step_error(Operation::Withdraw, rec, ledger, caller) == Some(
            EscrowError::Unauthorized,
        ),
        caller != rec.buyer ==> step_error(Operation::Refund, rec, ledger, caller) == Some(
            EscrowError::OnlyBuyerAllowed,
        ),
        !authorized(op, rec, caller) ==> (step_error(op, rec, ledger, caller) matches Some(e)
            && kind_of(e) == ErrorKind::Authorization),
        !authorized(op, rec, caller) ==> run(rec, ledger, seq![(op, caller)]) == (rec, ledger, 0nat),
{
    let one = seq![(op, caller)];
    assert(one.drop_last() =~= Seq::<(Operation, Identity)>::empty());
    reveal_with_fuel(run, 3);
}

/// Close only from a terminal status: closing fails with a status error
/// from `Initialized` and `Confirmed`, and succeeds from the others.
pub proof fn lemma_close_only_terminal(rec: EscrowAccount)
    ensures
        rec.status == EscrowStatus::Initialized || rec.status == EscrowStatus::Confirmed
            ==> close_error(rec) == Some(EscrowError::InvalidStatusForClose),
        rec.status == EscrowStatus::Completed || rec.status == EscrowStatus::Refunded
            || rec.status == EscrowStatus::Failed ==> close_error(rec) is None,
        kind_of(EscrowError::InvalidStatusForClose) == ErrorKind::State,
{
}

} // verus!
