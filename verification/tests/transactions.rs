use toy_payments::money::Money;
use toy_payments::transactions::{
    Chargeback, Deposit, Dispute, Metadata, RecordError, Resolve, Transaction, TransactionType,
    Withdrawal,
};

fn decode(record: &csv::StringRecord) -> Option<Transaction> {
    let ty = TransactionType::from_field(record.get(0)?)?;
    let client: u16 = record.get(1)?.parse().ok()?;
    let tx: u32 = record.get(2)?.parse().ok()?;
    let amount = match record.get(3) {
        Some(field) => Money::parse(field).ok()?,
        None => None,
    };
    Transaction::from_parts(ty, Metadata::new(client, tx), amount).ok()
}

#[test]
fn transaction_parsing() {
    let csv = "type,client,tx,amount
deposit,1,1,1.10015
withdrawal,1,4,
dispute,1,2,
resolve,1,2,
chargeback,1,2,
deposit,1,2,1
withdrawal,1,4,1.5";

    let mut reader = csv::Reader::from_reader(csv.as_bytes());
    let txs: Vec<Transaction> =
        reader.records().filter_map(|r| r.ok()).filter_map(|r| decode(&r)).collect();

    assert_eq!(
        txs[0],
        Transaction::Deposit(Deposit::new(
            Metadata::new(1, 1),
            Money::from_str("11001/10000").unwrap()
        ))
    );

    assert_eq!(txs[1], Transaction::Dispute(Dispute::new(Metadata::new(1, 2))));
    assert_eq!(txs[2], Transaction::Resolve(Resolve::new(Metadata::new(1, 2))));
    assert_eq!(txs[3], Transaction::Chargeback(Chargeback::new(Metadata::new(1, 2))));

    assert_eq!(
        txs[4],
        Transaction::Deposit(Deposit::new(Metadata::new(1, 2), Money::from_str("1/1").unwrap()))
    );

    assert_eq!(
        txs[5],
        Transaction::Withdrawal(Withdrawal::new(
            Metadata::new(1, 4),
            Money::from_str("3/2").unwrap()
        ))
    );
}

#[test]
fn type_field_matches_ignoring_case() {
    assert_eq!(TransactionType::from_field("deposit"), Some(TransactionType::Deposit));
    assert_eq!(TransactionType::from_field("DEPOSIT"), Some(TransactionType::Deposit));
    assert_eq!(TransactionType::from_field("Withdrawal"), Some(TransactionType::Withdrawal));
    assert_eq!(TransactionType::from_field("dIsPuTe"), Some(TransactionType::Dispute));
    assert_eq!(TransactionType::from_field("resolve"), Some(TransactionType::Resolve));
    assert_eq!(TransactionType::from_field("CHARGEBACK"), Some(TransactionType::Chargeback));
    assert_eq!(TransactionType::from_field("deposits"), None);
    assert_eq!(TransactionType::from_field(""), None);
    assert_eq!(TransactionType::from_field("refund"), None);
}

#[test]
fn deposit_without_amount_is_invalid() {
    let meta = Metadata::new(1, 1);
    assert_eq!(
        Transaction::from_parts(TransactionType::Deposit, meta, None),
        Err(RecordError::InvalidRecord)
    );
    assert_eq!(
        Transaction::from_parts(TransactionType::Withdrawal, meta, None),
        Err(RecordError::InvalidRecord)
    );
}

#[test]
fn lifecycle_events_ignore_the_amount_field() {
    let meta = Metadata::new(7, 9);
    let amount = Some(Money::from_str("1/1").unwrap());
    assert_eq!(
        Transaction::from_parts(TransactionType::Dispute, meta, amount),
        Ok(Transaction::Dispute(Dispute::new(meta)))
    );
    assert_eq!(
        Transaction::from_parts(TransactionType::Resolve, meta, None),
        Ok(Transaction::Resolve(Resolve::new(meta)))
    );
    assert_eq!(
        Transaction::from_parts(TransactionType::Chargeback, meta, None),
        Ok(Transaction::Chargeback(Chargeback::new(meta)))
    );
}

#[test]
fn get_amount_only_on_transfers() {
    let meta = Metadata::new(1, 1);
    let amount = Money::from_str("3/2").unwrap();
    assert_eq!(Transaction::Deposit(Deposit::new(meta, amount)).get_amount(), Some(amount));
    assert_eq!(Transaction::Withdrawal(Withdrawal::new(meta, amount)).get_amount(), Some(amount));
    assert_eq!(Transaction::Dispute(Dispute::new(meta)).get_amount(), None);
    assert_eq!(Transaction::Resolve(Resolve::new(meta)).get_amount(), None);
    assert_eq!(Transaction::Chargeback(Chargeback::new(meta)).get_amount(), None);
}
