use std::collections::HashMap;
use toy_payments::engine::{Account, ClientAssets, Transactions};
use toy_payments::money::Money;
use toy_payments::processing::PaymentsProcessing;
use toy_payments::transactions::{Deposit, Metadata};

fn test_deposit() -> Deposit {
    let client_id = 1;
    let meta = Metadata::new(client_id, 2);
    let amount = Money::from_str(&"1/10").unwrap();
    Deposit::new(meta, amount)
}

fn assets_and_txs() -> (ClientAssets, Transactions) {
    (HashMap::new(), HashMap::new())
}

#[test]
fn inserts_new_client() {
    let deposit = test_deposit();

    let (mut accounts, mut txs) = assets_and_txs();
    deposit.process(&mut accounts, &mut txs);

    let assets = accounts.get(&deposit.0.meta.client_id).unwrap();
    assert_eq!(assets.available, deposit.0.amount);
}

#[test]
fn updates_existing_client() {
    let deposit = test_deposit();

    let (mut accounts, mut txs) = assets_and_txs();
    accounts.insert(
        deposit.0.meta.client_id,
        Account { available: deposit.0.amount, held: Money::zero(), locked: false },
    );
    deposit.process(&mut accounts, &mut txs);

    let assets = accounts.get(&deposit.0.meta.client_id).unwrap();
    assert_eq!(assets.available, deposit.0.amount.checked_add(deposit.0.amount).unwrap());
}

#[test]
fn cant_deposit_locked_account() {
    let deposit = test_deposit();

    let (mut accounts, mut txs) = assets_and_txs();
    accounts.insert(
        deposit.0.meta.client_id,
        Account { available: Money::zero(), held: Money::zero(), locked: true },
    );
    deposit.process(&mut accounts, &mut txs);

    let assets = accounts.get(&deposit.0.meta.client_id).unwrap();
    assert_eq!(assets.available, Money::zero());
}
