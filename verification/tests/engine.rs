use std::collections::HashMap;
use toy_payments::engine::{Account, Status, ToyPaymentsEngine};
use toy_payments::money::Money;
use toy_payments::processing::PaymentsProcessing;
use toy_payments::transactions::{
    Chargeback, Deposit, Dispute, Metadata, Resolve, Transaction, Withdrawal,
};

fn amount(s: &str) -> Money {
    Money::parse(s).unwrap().unwrap()
}

fn deposit(client: u16, tx: u32, amt: &str) -> Transaction {
    Transaction::Deposit(Deposit::new(Metadata::new(client, tx), amount(amt)))
}

fn withdrawal(client: u16, tx: u32, amt: &str) -> Transaction {
    Transaction::Withdrawal(Withdrawal::new(Metadata::new(client, tx), amount(amt)))
}

fn dispute(client: u16, tx: u32) -> Transaction {
    Transaction::Dispute(Dispute::new(Metadata::new(client, tx)))
}

fn resolve(client: u16, tx: u32) -> Transaction {
    Transaction::Resolve(Resolve::new(Metadata::new(client, tx)))
}

fn chargeback(client: u16, tx: u32) -> Transaction {
    Transaction::Chargeback(Chargeback::new(Metadata::new(client, tx)))
}

#[test]
fn deposit_reports_truncated_amount() {
    let mut engine = ToyPaymentsEngine::new();
    engine.process(deposit(1, 1, "1.10015"));
    let account = *engine.assets().get(&1).unwrap();
    assert_eq!(account.available, amount("1.1001"));
    assert_eq!(account.held, Money::zero());
    assert_eq!(account.total(), amount("1.1001"));
    assert!(!account.locked);
}

#[test]
fn withdrawal_reduces_available() {
    let mut engine = ToyPaymentsEngine::new();
    engine.process(deposit(1, 1, "5.0"));
    engine.process(withdrawal(1, 2, "3.0"));
    let account = *engine.assets().get(&1).unwrap();
    assert_eq!(account.available, amount("2.0"));
}

#[test]
fn chargeback_locks_the_account() {
    let mut engine = ToyPaymentsEngine::new();
    engine.process(deposit(1, 1, "5.0"));
    engine.process(dispute(1, 1));
    engine.process(chargeback(1, 1));
    let account = *engine.assets().get(&1).unwrap();
    assert_eq!(account.available, Money::zero());
    assert_eq!(account.held, Money::zero());
    assert!(account.locked);

    // a later deposit to the locked account is rejected outright
    engine.process(deposit(1, 3, "10.0"));
    let account = *engine.assets().get(&1).unwrap();
    assert_eq!(account.available, Money::zero());
    assert_eq!(account.held, Money::zero());
    assert!(account.locked);
}

#[test]
fn withdrawal_against_unknown_client_creates_nothing() {
    let mut accounts = HashMap::new();
    let mut txs = HashMap::new();
    Withdrawal::new(Metadata::new(1, 1), amount("5.0")).process(&mut accounts, &mut txs);
    assert!(accounts.is_empty());
    assert!(txs.is_empty());
}

#[test]
fn dispute_holds_and_resolve_releases() {
    let mut engine = ToyPaymentsEngine::new();
    engine.process(deposit(1, 1, "5.0"));
    engine.process(dispute(1, 1));
    let held = *engine.assets().get(&1).unwrap();
    assert_eq!(held.available, Money::zero());
    assert_eq!(held.held, amount("5.0"));
    assert!(!held.locked);

    engine.process(resolve(1, 1));
    let back = *engine.assets().get(&1).unwrap();
    assert_eq!(back.available, amount("5.0"));
    assert_eq!(back.held, Money::zero());
    assert!(!back.locked);
}

#[test]
fn unmet_preconditions_change_nothing() {
    let mut engine = ToyPaymentsEngine::new();
    engine.process(deposit(1, 1, "5.0"));
    let before = *engine.assets().get(&1).unwrap();

    // unknown transaction
    engine.process(dispute(1, 99));
    // resolve and chargeback of an undisputed transaction
    engine.process(resolve(1, 1));
    engine.process(chargeback(1, 1));
    // dispute with more funds than available
    engine.process(withdrawal(1, 2, "4.0"));
    engine.process(dispute(1, 1));

    let after = *engine.assets().get(&1).unwrap();
    assert_eq!(after.available, amount("1.0"));
    assert_eq!(after.held, before.held);
    assert_eq!(after.locked, before.locked);
}

#[test]
fn chargedback_transaction_is_terminal() {
    let mut engine = ToyPaymentsEngine::new();
    engine.process(deposit(1, 1, "5.0"));
    engine.process(deposit(2, 2, "9.0"));
    engine.process(dispute(1, 1));
    engine.process(chargeback(1, 1));
    let locked = *engine.assets().get(&1).unwrap();

    engine.process(dispute(1, 1));
    engine.process(resolve(1, 1));
    engine.process(chargeback(1, 1));

    assert_eq!(*engine.assets().get(&1).unwrap(), locked);
    assert_eq!(*engine.assets().get(&2).unwrap(), Account {
        available: amount("9.0"),
        held: Money::zero(),
        locked: false,
    });
}

#[test]
fn totals_are_conserved_without_chargebacks() {
    let mut engine = ToyPaymentsEngine::new();
    engine.process(deposit(1, 1, "5.0"));
    engine.process(withdrawal(1, 2, "2.0"));
    engine.process(dispute(1, 1));
    engine.process(resolve(1, 1));
    engine.process(dispute(1, 1));
    let account = *engine.assets().get(&1).unwrap();
    // 5.0 deposited minus 2.0 withdrawn, wherever the funds sit
    assert_eq!(account.total(), amount("3.0"));
}

#[test]
fn negative_deposit_debits_funds() {
    // deposits carry no sign check, by design
    let mut engine = ToyPaymentsEngine::new();
    engine.process(deposit(1, 1, "5.0"));
    engine.process(deposit(1, 2, "-2.0"));
    let account = *engine.assets().get(&1).unwrap();
    assert_eq!(account.available, amount("3.0"));
}

#[test]
fn negative_withdrawal_is_rejected() {
    let mut engine = ToyPaymentsEngine::new();
    engine.process(deposit(1, 1, "5.0"));
    engine.process(withdrawal(1, 2, "-2.0"));
    let account = *engine.assets().get(&1).unwrap();
    assert_eq!(account.available, amount("5.0"));
}

#[test]
fn insufficient_funds_withdrawal_is_rejected() {
    let mut engine = ToyPaymentsEngine::new();
    engine.process(deposit(1, 1, "5.0"));
    engine.process(withdrawal(1, 2, "6.0"));
    let account = *engine.assets().get(&1).unwrap();
    assert_eq!(account.available, amount("5.0"));
}

#[test]
fn status_helpers_follow_the_lifecycle() {
    assert!(Status::Normal.is_normal());
    assert!(!Status::Normal.is_disputed());
    assert!(Status::Disputed.is_disputed());
    assert!(!Status::Disputed.is_normal());
    assert!(!Status::Chargedback.is_normal());
    assert!(!Status::Chargedback.is_disputed());
}
