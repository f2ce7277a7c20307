use agrichain::error::{ErrorKind, EscrowError};
use agrichain::escrow::{
    close_escrow, confirm_order, fail_order, initialize, refund_order, withdraw_funds,
    EscrowAccount, EscrowStatus, MAX_ORDER_DETAILS_COMPACT, MAX_ORDER_DETAILS_WIDE,
};
use agrichain::identity::Identity;
use agrichain::ledger::Ledger;

fn id(n: u8) -> Identity {
    Identity::new([n; 32])
}

const BUYER: u8 = 1;
const SELLER: u8 = 2;
const VAULT: u8 = 3;
const STRANGER: u8 = 4;

/// A ledger where the buyer holds `funds`, and a record funded with `amount`.
fn funded(funds: u64, amount: u64) -> (Ledger, EscrowAccount) {
    let mut ledger = Ledger::new();
    assert!(ledger.credit(&id(BUYER), funds));
    let rec = initialize(
        &mut ledger,
        id(VAULT),
        254,
        id(BUYER),
        id(SELLER),
        String::from("10 crates of tomatoes"),
        amount,
        MAX_ORDER_DETAILS_COMPACT,
    )
    .unwrap();
    (ledger, rec)
}

#[test]
fn initialize_then_refund_then_confirm() {
    let (mut ledger, mut rec) = funded(100, 100);
    assert_eq!(rec.amount, 100);
    assert_eq!(rec.status, EscrowStatus::Initialized);
    assert!(rec.buyer == id(BUYER));
    assert!(rec.seller == id(SELLER));
    assert_eq!(rec.order_details, "10 crates of tomatoes");
    assert_eq!(rec.bump, 254);
    assert_eq!(ledger.balance_of(&id(BUYER)), 0);
    assert_eq!(ledger.balance_of(&id(VAULT)), 100);

    assert_eq!(refund_order(&mut rec, &mut ledger, &id(BUYER)), Ok(()));
    assert_eq!(rec.amount, 0);
    assert_eq!(rec.status, EscrowStatus::Refunded);
    assert_eq!(ledger.balance_of(&id(BUYER)), 100);
    assert_eq!(ledger.balance_of(&id(VAULT)), 0);

    let r = confirm_order(&mut rec, &id(SELLER));
    assert_eq!(r, Err(EscrowError::InvalidStatusForConfirmation));
    assert_eq!(r.unwrap_err().kind(), ErrorKind::State);
    assert_eq!(rec.status, EscrowStatus::Refunded);
}

#[test]
fn confirm_then_withdraw_twice() {
    let (mut ledger, mut rec) = funded(80, 50);
    assert_eq!(confirm_order(&mut rec, &id(SELLER)), Ok(()));
    assert_eq!(rec.status, EscrowStatus::Confirmed);
    assert_eq!(rec.amount, 50);
    assert_eq!(ledger.balance_of(&id(VAULT)), 50);

    assert_eq!(withdraw_funds(&mut rec, &mut ledger, &id(SELLER)), Ok(()));
    assert_eq!(rec.amount, 0);
    assert_eq!(rec.status, EscrowStatus::Completed);
    assert_eq!(ledger.balance_of(&id(SELLER)), 50);
    assert_eq!(ledger.balance_of(&id(BUYER)), 30);

    let again = withdraw_funds(&mut rec, &mut ledger, &id(SELLER));
    assert_eq!(again, Err(EscrowError::AlreadyWithdrawn));
    assert_eq!(ledger.balance_of(&id(SELLER)), 50);
    assert_eq!(ledger.balance_of(&id(VAULT)), 0);
}

#[test]
fn initialize_zero_amount_is_rejected() {
    let mut ledger = Ledger::new();
    assert!(ledger.credit(&id(BUYER), 10));
    let r = initialize(
        &mut ledger,
        id(VAULT),
        0,
        id(BUYER),
        id(SELLER),
        String::from("order"),
        0,
        MAX_ORDER_DETAILS_COMPACT,
    );
    let e = r.unwrap_err();
    assert_eq!(e, EscrowError::ZeroAmount);
    assert_eq!(e.kind(), ErrorKind::Validation);
    assert_eq!(ledger.balance_of(&id(BUYER)), 10);
    assert_eq!(ledger.balance_of(&id(VAULT)), 0);
}

#[test]
fn initialize_long_details_is_rejected() {
    let mut ledger = Ledger::new();
    assert!(ledger.credit(&id(BUYER), 10));
    let r = initialize(
        &mut ledger,
        id(VAULT),
        0,
        id(BUYER),
        id(SELLER),
        "x".repeat(33),
        5,
        MAX_ORDER_DETAILS_COMPACT,
    );
    let e = r.unwrap_err();
    assert_eq!(e, EscrowError::OrderDetailsTooLong);
    assert_eq!(e.kind(), ErrorKind::Validation);
    assert_eq!(ledger.balance_of(&id(BUYER)), 10);
    assert_eq!(ledger.balance_of(&id(VAULT)), 0);
}

#[test]
fn details_length_counts_bytes_and_follows_the_profile() {
    let mut ledger = Ledger::new();
    assert!(ledger.credit(&id(BUYER), 10));
    // 17 characters, 34 bytes.
    let accented = "é".repeat(17);
    let r = initialize(
        &mut ledger, id(VAULT), 0, id(BUYER), id(SELLER), accented.clone(), 1,
        MAX_ORDER_DETAILS_COMPACT,
    );
    assert_eq!(r.unwrap_err(), EscrowError::OrderDetailsTooLong);
    let r = initialize(
        &mut ledger, id(VAULT), 0, id(BUYER), id(SELLER), accented, 1, MAX_ORDER_DETAILS_WIDE,
    );
    assert!(r.is_ok());
    let r = initialize(
        &mut ledger, id(5), 0, id(BUYER), id(SELLER), "x".repeat(32), 1,
        MAX_ORDER_DETAILS_COMPACT,
    );
    assert!(r.is_ok());
    let r = initialize(
        &mut ledger, id(6), 0, id(BUYER), id(SELLER), "x".repeat(101), 1,
        MAX_ORDER_DETAILS_WIDE,
    );
    assert_eq!(r.unwrap_err(), EscrowError::OrderDetailsTooLong);
    assert_eq!(ledger.balance_of(&id(BUYER)), 8);
}

#[test]
fn initialize_without_funds_fails() {
    let mut ledger = Ledger::new();
    assert!(ledger.credit(&id(BUYER), 40));
    let r = initialize(
        &mut ledger, id(VAULT), 0, id(BUYER), id(SELLER), String::new(), 41,
        MAX_ORDER_DETAILS_COMPACT,
    );
    let e = r.unwrap_err();
    assert_eq!(e, EscrowError::InsufficientFunds);
    assert_eq!(e.kind(), ErrorKind::Ledger);
    assert_eq!(ledger.balance_of(&id(BUYER)), 40);
}

#[test]
fn conservation_along_a_run() {
    let (mut ledger, mut rec) = funded(500, 120);
    let funded_amount = 120u64;
    let vault_start = ledger.balance_of(&id(VAULT));
    let mut paid = 0u64;
    assert_eq!(rec.amount + paid, funded_amount);

    assert!(refund_order(&mut rec, &mut ledger, &id(SELLER)).is_err());
    assert_eq!(rec.amount + paid, funded_amount);
    assert_eq!(confirm_order(&mut rec, &id(SELLER)), Ok(()));
    assert_eq!(rec.amount + paid, funded_amount);
    assert!(fail_order(&mut rec, &mut ledger, &id(BUYER)).is_err());
    assert_eq!(rec.amount + paid, funded_amount);

    let seller_before = ledger.balance_of(&id(SELLER));
    assert_eq!(withdraw_funds(&mut rec, &mut ledger, &id(SELLER)), Ok(()));
    paid += ledger.balance_of(&id(SELLER)) - seller_before;
    assert_eq!(rec.amount + paid, funded_amount);
    assert_eq!(ledger.balance_of(&id(VAULT)) + paid, vault_start);
    assert_eq!(ledger.total_supply(), 500);
}

#[test]
fn only_one_terminal_transition() {
    let (mut ledger, mut rec) = funded(100, 60);
    assert_eq!(fail_order(&mut rec, &mut ledger, &id(SELLER)), Ok(()));
    assert_eq!(rec.status, EscrowStatus::Failed);
    assert_eq!(ledger.balance_of(&id(BUYER)), 100);
    assert_eq!(
        refund_order(&mut rec, &mut ledger, &id(BUYER)),
        Err(EscrowError::InvalidStatusForRefund)
    );
    assert_eq!(
        fail_order(&mut rec, &mut ledger, &id(BUYER)),
        Err(EscrowError::InvalidStatusForFailure)
    );
    assert_eq!(
        confirm_order(&mut rec, &id(SELLER)),
        Err(EscrowError::InvalidStatusForConfirmation)
    );
    assert_eq!(ledger.balance_of(&id(BUYER)), 100);
    assert_eq!(rec.status, EscrowStatus::Failed);
}

#[test]
fn withdraw_needs_confirmation() {
    let (mut ledger, mut rec) = funded(100, 60);
    assert_eq!(
        withdraw_funds(&mut rec, &mut ledger, &id(SELLER)),
        Err(EscrowError::InvalidStatusForWithdrawal)
    );
    assert_eq!(confirm_order(&mut rec, &id(SELLER)), Ok(()));
    assert_eq!(
        refund_order(&mut rec, &mut ledger, &id(BUYER)),
        Err(EscrowError::InvalidStatusForRefund)
    );
    assert_eq!(ledger.balance_of(&id(VAULT)), 60);
}

#[test]
fn wrong_callers_are_refused() {
    let (mut ledger, mut rec) = funded(100, 60);
    let e = confirm_order(&mut rec, &id(BUYER)).unwrap_err();
    assert_eq!(e, EscrowError::Unauthorized);
    assert_eq!(e.kind(), ErrorKind::Authorization);
    let e = refund_order(&mut rec, &mut ledger, &id(SELLER)).unwrap_err();
    assert_eq!(e, EscrowError::OnlyBuyerAllowed);
    assert_eq!(e.kind(), ErrorKind::Authorization);
    let e = fail_order(&mut rec, &mut ledger, &id(STRANGER)).unwrap_err();
    assert_eq!(e, EscrowError::Unauthorized);
    assert_eq!(rec.status, EscrowStatus::Initialized);
    assert_eq!(rec.amount, 60);

    assert_eq!(confirm_order(&mut rec, &id(SELLER)), Ok(()));
    let e = withdraw_funds(&mut rec, &mut ledger, &id(BUYER)).unwrap_err();
    assert_eq!(e, EscrowError::Unauthorized);
    let e = withdraw_funds(&mut rec, &mut ledger, &id(STRANGER)).unwrap_err();
    assert_eq!(e, EscrowError::Unauthorized);
    assert_eq!(rec.status, EscrowStatus::Confirmed);
    assert_eq!(rec.amount, 60);
    assert_eq!(ledger.balance_of(&id(VAULT)), 60);
    assert_eq!(ledger.balance_of(&id(SELLER)), 0);
}

#[test]
fn close_only_from_terminal_status() {
    let (mut ledger, mut rec) = funded(100, 60);
    assert!(ledger.credit(&id(VAULT), 7));
    let e = close_escrow(&rec, &mut ledger, &id(BUYER)).unwrap_err();
    assert_eq!(e, EscrowError::InvalidStatusForClose);
    assert_eq!(e.kind(), ErrorKind::State);
    assert_eq!(confirm_order(&mut rec, &id(SELLER)), Ok(()));
    assert_eq!(
        close_escrow(&rec, &mut ledger, &id(BUYER)),
        Err(EscrowError::InvalidStatusForClose)
    );
    assert_eq!(withdraw_funds(&mut rec, &mut ledger, &id(SELLER)), Ok(()));
    assert_eq!(ledger.balance_of(&id(VAULT)), 7);
    assert_eq!(close_escrow(&rec, &mut ledger, &id(BUYER)), Ok(7));
    assert_eq!(ledger.balance_of(&id(VAULT)), 0);
    assert_eq!(ledger.balance_of(&id(BUYER)), 47);
}

#[test]
fn close_after_refund_and_failure() {
    let (mut ledger, mut rec) = funded(100, 60);
    assert_eq!(refund_order(&mut rec, &mut ledger, &id(BUYER)), Ok(()));
    assert_eq!(close_escrow(&rec, &mut ledger, &id(STRANGER)), Ok(0));
    let (mut ledger, mut rec) = funded(100, 60);
    assert_eq!(fail_order(&mut rec, &mut ledger, &id(BUYER)), Ok(()));
    assert_eq!(close_escrow(&rec, &mut ledger, &id(BUYER)), Ok(0));
}

#[test]
fn release_fails_when_custody_is_short() {
    let (mut ledger, mut rec) = funded(100, 60);
    assert_eq!(ledger.transfer(&id(VAULT), &id(STRANGER), 10), Ok(()));
    let e = refund_order(&mut rec, &mut ledger, &id(BUYER)).unwrap_err();
    assert_eq!(e, EscrowError::InsufficientFunds);
    assert_eq!(rec.status, EscrowStatus::Initialized);
    assert_eq!(rec.amount, 60);
    assert_eq!(ledger.balance_of(&id(VAULT)), 50);
    assert_eq!(ledger.balance_of(&id(BUYER)), 40);
}
