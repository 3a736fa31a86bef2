use vstd::prelude::*;

use crate::money::{in_units_range, Money};
use crate::processing::{step, PaymentsProcessing};
use crate::transactions::{ClienID, Transaction, TxID};
use std::collections::HashMap;

verus! {

/// One client's balances. `available` is at the client's disposal,
/// `held` is frozen by open disputes; the account's total worth is the
/// sum of the two and is never stored. A locked account accepts no
/// further mutation of any kind.
#[derive(Clone, Copy, Debug, PartialEq, Eq, Structural)]
pub struct Account {
    pub available: Money,
    pub held: Money,
    pub locked: bool,
}

impl Account {
    /// Total worth: available plus held funds.
    pub fn total(&self) -> (r: Money)
        requires
            in_units_range(self.available@ + self.held@),
        ensures
            r@ == self.available@ + self.held@,
    {
        match self.available.checked_add(self.held) {
            Some(m) => m,
            None => unreached(),
        }
    }
}

pub type ClientAssets = HashMap<ClienID, Account>;

/// Where a retained deposit or withdrawal stands in the dispute
/// lifecycle. `Normal → Disputed → {Normal, Chargedback}`;
/// `Chargedback` is terminal.
#[derive(Clone, Copy, Debug, PartialEq, Eq, Structural)]
pub enum Status {
    Normal,
    Disputed,
    Chargedback,
}

impl Status {
    pub fn is_normal(&self) -> (r: bool)
        ensures
            r == (self is Normal),
    {
        match self {
            Status::Normal => true,
            _ => false,
        }
    }

    pub fn is_disputed(&self) -> (r: bool)
        ensures
            r == (self is Disputed),
    {
        match self {
            Status::Disputed => true,
            _ => false,
        }
    }
}

pub type Transactions = HashMap<TxID, (Transaction, Status)>;

/// The ledger: client accounts, and the history of deposits and
/// withdrawals that disputes may later reference, each entry tagged
/// with its dispute status. Records are applied strictly in arrival
/// order; order matters because the dispute lifecycle depends on the
/// status left by earlier records.
#[derive(Debug)]
pub struct ToyPaymentsEngine {
    assets: ClientAssets,
    txs: Transactions,
}

impl ToyPaymentsEngine {
    /// The accounts the engine currently holds.
    pub closed spec fn assets_spec(&self) -> Map<ClienID, Account> {
        self.assets@
    }

    /// The transaction history the engine currently holds.
    pub closed spec fn txs_spec(&self) -> Map<TxID, (Transaction, Status)> {
        self.txs@
    }

    pub fn new() -> (r: Self)
        ensures
            r.assets_spec() == Map::<ClienID, Account>::empty(),
            r.txs_spec() == Map::<TxID, (Transaction, Status)>::empty(),
    {
        ToyPaymentsEngine { assets: HashMap::new(), txs: HashMap::new() }
    }

    fn do_process<T: PaymentsProcessing>(&mut self, tx: T)
        ensures
            (final(self).assets_spec(), final(self).txs_spec()) == tx.step_spec(
                old(self).assets_spec(),
                old(self).txs_spec(),
            ),
    {
        tx.process(&mut self.assets, &mut self.txs);
    }

    /// Applies one transaction to the ledger. Policy rejections — a
    /// locked account, insufficient funds, an unknown or wrongly
    /// statused dispute target — leave the ledger unchanged.
    pub fn process(&mut self, tx: Transaction)
        ensures
            (final(self).assets_spec(), final(self).txs_spec()) == step(
                old(self).assets_spec(),
                old(self).txs_spec(),
                tx,
            ),
    {
        match tx {
            Transaction::Deposit(deposit) => self.do_process(deposit),
            Transaction::Withdrawal(withdrawal) => self.do_process(withdrawal),
            Transaction::Dispute(dispute) => self.do_process(dispute),
            Transaction::Resolve(resolve) => self.do_process(resolve),
            Transaction::Chargeback(chargeback) => self.do_process(chargeback),
        }
    }

    /// Read-only view of the accounts, for rendering the final report.
    pub fn assets(&self) -> (r: &ClientAssets)
        ensures
            r@ == self.assets_spec(),
    {
        &self.assets
    }
}

} // verus!
