use vstd::prelude::*;

use crate::engine::{Account, ClientAssets, Status, Transactions};
use crate::money::{in_units_range, Money};
use crate::transactions::{
    Chargeback, ClienID, Deposit, Dispute, Resolve, Transaction, TxID, Withdrawal,
};

verus! {

broadcast use crate::money::lemma_view_in_range;

/// The exact effect of a deposit. An unseen client gets a fresh
/// account holding the deposited amount; a locked account refuses the
/// deposit and records nothing; otherwise the amount is added to the
/// available funds (a sum beyond the representable range is likewise
/// refused) and the deposit is retained in the history, eligible for
/// later dispute. No sign check is applied: a negative deposit debits
/// funds, deliberately mirroring the stated design.
pub open spec fn deposit_step(
    assets: Map<ClienID, Account>,
    txs: Map<TxID, (Transaction, Status)>,
    deposit: Deposit,
) -> (Map<ClienID, Account>, Map<TxID, (Transaction, Status)>) {
    let c = deposit.0.meta.client_id;
    let t = deposit.0.meta.tx_id;
    let amount = deposit.0.amount;
    if !assets.contains_key(c) {
        (
            assets.insert(
                c,
                Account { available: amount, held: Money::from_units(0), locked: false },
            ),
            txs.insert(t, (Transaction::Deposit(deposit), Status::Normal)),
        )
    } else {
        let account = assets[c];
        if account.locked {
            (assets, txs)
        } else if !in_units_range(account.available@ + amount@) {
            (assets, txs)
        } else {
            (
                assets.insert(
                    c,
                    Account {
                        available: Money::from_units(account.available@ + amount@),
                        held: account.held,
                        locked: false,
                    },
                ),
                txs.insert(t, (Transaction::Deposit(deposit), Status::Normal)),
            )
        }
    }
}

/// When a deposit takes effect rather than being refused.
pub open spec fn deposit_applies(
    assets: Map<ClienID, Account>,
    txs: Map<TxID, (Transaction, Status)>,
    deposit: Deposit,
) -> bool {
    let c = deposit.0.meta.client_id;
    !assets.contains_key(c) || (!assets[c].locked && in_units_range(
        assets[c].available@ + deposit.0.amount@,
    ))
}

/// The exact effect of a withdrawal. A negative amount, an unknown
/// client (no account is created), a locked account, or insufficient
/// available funds leave the ledger unchanged; otherwise the amount is
/// taken from the available funds and the withdrawal is retained in
/// the history.
pub open spec fn withdrawal_step(
    assets: Map<ClienID, Account>,
    txs: Map<TxID, (Transaction, Status)>,
    withdrawal: Withdrawal,
) -> (Map<ClienID, Account>, Map<TxID, (Transaction, Status)>) {
    let c = withdrawal.0.meta.client_id;
    let t = withdrawal.0.meta.tx_id;
    let amount = withdrawal.0.amount;
    if amount@ < 0 {
        (assets, txs)
    } else if !assets.contains_key(c) {
        (assets, txs)
    } else {
        let account = assets[c];
        if account.locked {
            (assets, txs)
        } else if account.available@ < amount@ {
            (assets, txs)
        } else {
            (
                assets.insert(
                    c,
                    Account {
                        available: Money::from_units(account.available@ - amount@),
                        held: account.held,
                        locked: false,
                    },
                ),
                txs.insert(t, (Transaction::Withdrawal(withdrawal), Status::Normal)),
            )
        }
    }
}

/// When a withdrawal takes effect rather than being refused.
pub open spec fn withdrawal_applies(
    assets: Map<ClienID, Account>,
    txs: Map<TxID, (Transaction, Status)>,
    withdrawal: Withdrawal,
) -> bool {
    let c = withdrawal.0.meta.client_id;
    let amount = withdrawal.0.amount;
    amount@ >= 0 && assets.contains_key(c) && !assets[c].locked && assets[c].available@ >= amount@
}

/// The exact effect of a dispute. It is a no-op unless it references a
/// retained transaction whose status is `Normal` and that carries an
/// amount, and the disputing client's account exists and is unlocked
/// and has at least that amount available (funds that are not
/// available cannot be put on hold); a move that would leave a count
/// outside the representable range is likewise refused. Otherwise the
/// amount moves from available to held and the entry becomes
/// `Disputed`.
pub open spec fn dispute_step(
    assets: Map<ClienID, Account>,
    txs: Map<TxID, (Transaction, Status)>,
    dispute: Dispute,
) -> (Map<ClienID, Account>, Map<TxID, (Transaction, Status)>) {
    let c = dispute.0.client_id;
    let t = dispute.0.tx_id;
    if !txs.contains_key(t) {
        (assets, txs)
    } else {
        let (tx, status) = txs[t];
        if !(status is Normal) {
            (assets, txs)
        } else {
            match tx.spec_get_amount() {
                None => (assets, txs),
                Some(amount) => {
                    if !assets.contains_key(c) {
                        (assets, txs)
                    } else {
                        let account = assets[c];
                        if account.locked {
                            (assets, txs)
                        } else if account.available@ < amount@ {
                            (assets, txs)
                        } else if !in_units_range(account.available@ - amount@)
                            || !in_units_range(account.held@ + amount@) {
                            (assets, txs)
                        } else {
                            (
                                assets.insert(
                                    c,
                                    Account {
                                        available: Money::from_units(account.available@ - amount@),
                                        held: Money::from_units(account.held@ + amount@),
                                        locked: false,
                                    },
                                ),
                                txs.insert(t, (tx, Status::Disputed)),
                            )
                        }
                    }
                },
            }
        }
    }
}

/// When a dispute takes effect rather than being refused.
pub open spec fn dispute_applies(
    assets: Map<ClienID, Account>,
    txs: Map<TxID, (Transaction, Status)>,
    dispute: Dispute,
) -> bool {
    let c = dispute.0.client_id;
    let t = dispute.0.tx_id;
    txs.contains_key(t) && txs[t].1 is Normal && (txs[t].0.spec_get_amount() matches Some(amount)
        && assets.contains_key(c) && !assets[c].locked && assets[c].available@ >= amount@
        && in_units_range(assets[c].available@ - amount@) && in_units_range(
        assets[c].held@ + amount@,
    ))
}

/// The exact effect of a resolve. It is a no-op unless it references a
/// retained transaction whose status is `Disputed` and the account
/// exists, is unlocked and holds at least the disputed amount (guarded
/// defensively; a well-formed dispute always leaves enough held);
/// range refusals as for a dispute. Otherwise the amount moves back
/// from held to available and the entry returns to `Normal`.
pub open spec fn resolve_step(
    assets: Map<ClienID, Account>,
    txs: Map<TxID, (Transaction, Status)>,
    resolve: Resolve,
) -> (Map<ClienID, Account>, Map<TxID, (Transaction, Status)>) {
    let c = resolve.0.client_id;
    let t = resolve.0.tx_id;
    if !txs.contains_key(t) {
        (assets, txs)
    } else {
        let (tx, status) = txs[t];
        if !(status is Disputed) {
            (assets, txs)
        } else {
            match tx.spec_get_amount() {
                None => (assets, txs),
                Some(amount) => {
                    if !assets.contains_key(c) {
                        (assets, txs)
                    } else {
                        let account = assets[c];
                        if account.locked {
                            (assets, txs)
                        } else if account.held@ < amount@ {
                            (assets, txs)
                        } else if !in_units_range(account.available@ + amount@)
                            || !in_units_range(account.held@ - amount@) {
                            (assets, txs)
                        } else {
                            (
                                assets.insert(
                                    c,
                                    Account {
                                        available: Money::from_units(account.available@ + amount@),
                                        held: Money::from_units(account.held@ - amount@),
                                        locked: false,
                                    },
                                ),
                                txs.insert(t, (tx, Status::Normal)),
                            )
                        }
                    }
                },
            }
        }
    }
}

/// When a resolve takes effect rather than being refused.
pub open spec fn resolve_applies(
    assets: Map<ClienID, Account>,
    txs: Map<TxID, (Transaction, Status)>,
    resolve: Resolve,
) -> bool {
    let c = resolve.0.client_id;
    let t = resolve.0.tx_id;
    txs.contains_key(t) && txs[t].1 is Disputed && (txs[t].0.spec_get_amount() matches Some(amount)
        && assets.contains_key(c) && !assets[c].locked && assets[c].held@ >= amount@
        && in_units_range(assets[c].available@ + amount@) && in_units_range(
        assets[c].held@ - amount@,
    ))
}

/// The exact effect of a chargeback: the terminal reversal. No-op
/// conditions are those of a resolve; otherwise the disputed amount is
/// removed from held funds, the account is permanently locked, and the
/// entry becomes `Chargedback`, which no later dispute, resolve or
/// chargeback can leave.
pub open spec fn chargeback_step(
    assets: Map<ClienID, Account>,
    txs: Map<TxID, (Transaction, Status)>,
    chargeback: Chargeback,
) -> (Map<ClienID, Account>, Map<TxID, (Transaction, Status)>) {
    let c = chargeback.0.client_id;
    let t = chargeback.0.tx_id;
    if !txs.contains_key(t) {
        (assets, txs)
    } else {
        let (tx, status) = txs[t];
        if !(status is Disputed) {
            (assets, txs)
        } else {
            match tx.spec_get_amount() {
                None => (assets, txs),
                Some(amount) => {
                    if !assets.contains_key(c) {
                        (assets, txs)
                    } else {
                        let account = assets[c];
                        if account.locked {
                            (assets, txs)
                        } else if account.held@ < amount@ {
                            (assets, txs)
                        } else if !in_units_range(account.held@ - amount@) {
                            (assets, txs)
                        } else {
                            (
                                assets.insert(
                                    c,
                                    Account {
                                        available: account.available,
                                        held: Money::from_units(account.held@ - amount@),
                                        locked: true,
                                    },
                                ),
                                txs.insert(t, (tx, Status::Chargedback)),
                            )
                        }
                    }
                },
            }
        }
    }
}

/// When a chargeback takes effect rather than being refused.
pub open spec fn chargeback_applies(
    assets: Map<ClienID, Account>,
    txs: Map<TxID, (Transaction, Status)>,
    chargeback: Chargeback,
) -> bool {
    let c = chargeback.0.client_id;
    let t = chargeback.0.tx_id;
    txs.contains_key(t) && txs[t].1 is Disputed && (txs[t].0.spec_get_amount() matches Some(
        amount,
    ) && assets.contains_key(c) && !assets[c].locked && assets[c].held@ >= amount@
        && in_units_range(assets[c].held@ - amount@))
}

/// The exact effect of any one transaction on the ledger maps.
pub open spec fn step(
    assets: Map<ClienID, Account>,
    txs: Map<TxID, (Transaction, Status)>,
    tx: Transaction,
) -> (Map<ClienID, Account>, Map<TxID, (Transaction, Status)>) {
    match tx {
        Transaction::Deposit(deposit) => deposit_step(assets, txs, deposit),
        Transaction::Withdrawal(withdrawal) => withdrawal_step(assets, txs, withdrawal),
        Transaction::Dispute(dispute) => dispute_step(assets, txs, dispute),
        Transaction::Resolve(resolve) => resolve_step(assets, txs, resolve),
        Transaction::Chargeback(chargeback) => chargeback_step(assets, txs, chargeback),
    }
}

/// A transaction kind that the ledger engine can apply.
pub trait PaymentsProcessing: Sized {
    /// The exact effect of this event on the ledger maps.
    spec fn step_spec(
        &self,
        assets: Map<ClienID, Account>,
        txs: Map<TxID, (Transaction, Status)>,
    ) -> (Map<ClienID, Account>, Map<TxID, (Transaction, Status)>);

    /// Applies the event to the ledger; the outcome is exactly
    /// `step_spec` of the incoming state.
    fn process(&self, accounts: &mut ClientAssets, txs: &mut Transactions)
        ensures
            (final(accounts)@, final(txs)@) == self.step_spec(old(accounts)@, old(txs)@),
    ;
}

impl PaymentsProcessing for Deposit {
    open spec fn step_spec(
        &self,
        assets: Map<ClienID, Account>,
        txs: Map<TxID, (Transaction, Status)>,
    ) -> (Map<ClienID, Account>, Map<TxID, (Transaction, Status)>) {
        deposit_step(assets, txs, *self)
    }

    fn process(&self, accounts: &mut ClientAssets, txs: &mut Transactions) {
        let c = self.0.meta.client_id;
        let existing: Option<Account> = match accounts.get(&c) {
            Some(account) => Some(*account),
            None => None,
        };
        match existing {
            None => {
                accounts.insert(
                    c,
                    Account { available: self.0.amount, held: Money::zero(), locked: false },
                );
                txs.insert(self.0.meta.tx_id, (Transaction::Deposit(*self), Status::Normal));
            },
            Some(account) => {
                if !account.locked {
                    match account.available.checked_add(self.0.amount) {
                        Some(new_available) => {
                            accounts.insert(
                                c,
                                Account {
                                    available: new_available,
                                    held: account.held,
                                    locked: false,
                                },
                            );
                            txs.insert(
                                self.0.meta.tx_id,
                                (Transaction::Deposit(*self), Status::Normal),
                            );
                        },
                        None => {
                            // the sum does not fit the representable range: refused
                        },
                    }
                }
                // a locked account refuses the deposit and records nothing
            },
        }
    }
}

impl PaymentsProcessing for Withdrawal {
    open spec fn step_spec(
        &self,
        assets: Map<ClienID, Account>,
        txs: Map<TxID, (Transaction, Status)>,
    ) -> (Map<ClienID, Account>, Map<TxID, (Transaction, Status)>) {
        withdrawal_step(assets, txs, *self)
    }

    fn process(&self, accounts: &mut ClientAssets, txs: &mut Transactions) {
        if self.0.amount.lt(&Money::zero()) {
            // a negative withdrawal amount is rejected outright
            return ;
        }
        let c = self.0.meta.client_id;
        let existing: Option<Account> = match accounts.get(&c) {
            Some(account) => Some(*account),
            None => None,
        };
        // no account is created for a withdrawal against an unknown client
        if let Some(account) = existing {
            if !account.locked && !account.available.lt(&self.0.amount) {
                let new_available = match account.available.checked_sub(self.0.amount) {
                    Some(m) => m,
                    None => unreached(),
                };
                accounts.insert(
                    c,
                    Account { available: new_available, held: account.held, locked: false },
                );
                txs.insert(self.0.meta.tx_id, (Transaction::Withdrawal(*self), Status::Normal));
            }
        }
    }
}

impl PaymentsProcessing for Dispute {
    open spec fn step_spec(
        &self,
        assets: Map<ClienID, Account>,
        txs: Map<TxID, (Transaction, Status)>,
    ) -> (Map<ClienID, Account>, Map<TxID, (Transaction, Status)>) {
        dispute_step(assets, txs, *self)
    }

    fn process(&self, accounts: &mut ClientAssets, txs: &mut Transactions) {
        let t = self.0.tx_id;
        let entry: Option<(Transaction, Status)> = match txs.get(&t) {
            Some(e) => Some(*e),
            None => None,
        };
        if let Some((tx, status)) = entry {
            if status.is_normal() {
                if let Some(amount) = tx.get_amount() {
                    let c = self.0.client_id;
                    let existing: Option<Account> = match accounts.get(&c) {
                        Some(account) => Some(*account),
                        None => None,
                    };
                    if let Some(account) = existing {
                        if !account.locked && !account.available.lt(&amount) {
                            match (
                                account.available.checked_sub(amount),
                                account.held.checked_add(amount),
                            ) {
                                (Some(new_available), Some(new_held)) => {
                                    accounts.insert(
                                        c,
                                        Account {
                                            available: new_available,
                                            held: new_held,
                                            locked: false,
                                        },
                                    );
                                    txs.insert(t, (tx, Status::Disputed));
                                },
                                _ => {
                                    // the hold would leave a count outside the
                                    // representable range: refused
                                },
                            }
                        }
                    }
                }
            }
        }
    }
}

impl PaymentsProcessing for Resolve {
    open spec fn step_spec(
        &self,
        assets: Map<ClienID, Account>,
        txs: Map<TxID, (Transaction, Status)>,
    ) -> (Map<ClienID, Account>, Map<TxID, (Transaction, Status)>) {
        resolve_step(assets, txs, *self)
    }

    fn process(&self, accounts: &mut ClientAssets, txs: &mut Transactions) {
        let t = self.0.tx_id;
        let entry: Option<(Transaction, Status)> = match txs.get(&t) {
            Some(e) => Some(*e),
            None => None,
        };
        if let Some((tx, status)) = entry {
            if status.is_disputed() {
                if let Some(amount) = tx.get_amount() {
                    let c = self.0.client_id;
                    let existing: Option<Account> = match accounts.get(&c) {
                        Some(account) => Some(*account),
                        None => None,
                    };
                    if let Some(account) = existing {
                        if !account.locked && !account.held.lt(&amount) {
                            match (
                                account.available.checked_add(amount),
                                account.held.checked_sub(amount),
                            ) {
                                (Some(new_available), Some(new_held)) => {
                                    accounts.insert(
                                        c,
                                        Account {
                                            available: new_available,
                                            held: new_held,
                                            locked: false,
                                        },
                                    );
                                    txs.insert(t, (tx, Status::Normal));
                                },
                                _ => {
                                    // the release would leave a count outside the
                                    // representable range: refused
                                },
                            }
                        }
                    }
                }
            }
        }
    }
}

impl PaymentsProcessing for Chargeback {
    open spec fn step_spec(
        &self,
        assets: Map<ClienID, Account>,
        txs: Map<TxID, (Transaction, Status)>,
    ) -> (Map<ClienID, Account>, Map<TxID, (Transaction, Status)>) {
        chargeback_step(assets, txs, *self)
    }

    fn process(&self, accounts: &mut ClientAssets, txs: &mut Transactions) {
        let t = self.0.tx_id;
        let entry: Option<(Transaction, Status)> = match txs.get(&t) {
            Some(e) => Some(*e),
            None => None,
        };
        if let Some((tx, status)) = entry {
            if status.is_disputed() {
                if let Some(amount) = tx.get_amount() {
                    let c = self.0.client_id;
                    let existing: Option<Account> = match accounts.get(&c) {
                        Some(account) => Some(*account),
                        None => None,
                    };
                    if let Some(account) = existing {
                        if !account.locked && !account.held.lt(&amount) {
                            match account.held.checked_sub(amount) {
                                Some(new_held) => {
                                    accounts.insert(
                                        c,
                                        Account {
                                            available: account.available,
                                            held: new_held,
                                            locked: true,
                                        },
                                    );
                                    txs.insert(t, (tx, Status::Chargedback));
                                },
                                None => {
                                    // the removal would leave a count outside the
                                    // representable range: refused
                                },
                            }
                        }
                    }
                }
            }
        }
    }
}

} // verus!
