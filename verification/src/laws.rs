use vstd::prelude::*;

use crate::engine::{Account, Status};
use crate::processing::{
    chargeback_applies, chargeback_step, deposit_applies, dispute_applies, dispute_step,
    resolve_applies, resolve_step, step, withdrawal_applies,
};
use crate::transactions::{Chargeback, ClienID, Dispute, Metadata, Resolve, Transaction, TxID};

verus! {

broadcast use crate::money::lemma_view_in_range, crate::money::lemma_from_units_view, crate::money::lemma_view_from_units;

/// The ledger after a whole sequence of transactions, applied strictly
/// in order.
pub open spec fn run(
    assets: Map<ClienID, Account>,
    txs: Map<TxID, (Transaction, Status)>,
    s: Seq<Transaction>,
) -> (Map<ClienID, Account>, Map<TxID, (Transaction, Status)>)
    decreases s.len(),
{
    if s.len() == 0 {
        (assets, txs)
    } else {
        let (a1, t1) = step(assets, txs, s[0]);
        run(a1, t1, s.drop_first())
    }
}

/// One account's total worth: available plus held funds, zero for an
/// account that does not exist.
pub open spec fn total_of(assets: Map<ClienID, Account>, c: ClienID) -> int {
    if assets.contains_key(c) {
        assets[c].available@ + assets[c].held@
    } else {
        0
    }
}

/// What one transaction contributes to client `c`'s total worth: the
/// amount of a deposit that takes effect, minus the amount of a
/// withdrawal that takes effect, nothing otherwise.
pub open spec fn flow(
    assets: Map<ClienID, Account>,
    txs: Map<TxID, (Transaction, Status)>,
    tx: Transaction,
    c: ClienID,
) -> int {
    match tx {
        Transaction::Deposit(deposit) => if deposit.0.meta.client_id == c && deposit_applies(
            assets,
            txs,
            deposit,
        ) {
            deposit.0.amount@
        } else {
            0
        },
        Transaction::Withdrawal(withdrawal) => if withdrawal.0.meta.client_id == c
            && withdrawal_applies(assets, txs, withdrawal) {
            -withdrawal.0.amount@
        } else {
            0
        },
        _ => 0,
    }
}

/// The sum of the contributions of a sequence of transactions to
/// client `c`'s total worth, each judged in the ledger state it
/// actually meets.
pub open spec fn net_flow(
    assets: Map<ClienID, Account>,
    txs: Map<TxID, (Transaction, Status)>,
    s: Seq<Transaction>,
    c: ClienID,
) -> int
    decreases s.len(),
{
    if s.len() == 0 {
        0
    } else {
        let (a1, t1) = step(assets, txs, s[0]);
        flow(assets, txs, s[0], c) + net_flow(a1, t1, s.drop_first(), c)
    }
}

/// A dispute whose preconditions are unmet changes nothing: no
/// account's balances or lock, no history entry's status.
pub proof fn lemma_dispute_noop(
    assets: Map<ClienID, Account>,
    txs: Map<TxID, (Transaction, Status)>,
    dispute: Dispute,
)
    requires
        !dispute_applies(assets, txs, dispute),
    ensures
        dispute_step(assets, txs, dispute) == (assets, txs),
{
}

/// A resolve whose preconditions are unmet changes nothing.
pub proof fn lemma_resolve_noop(
    assets: Map<ClienID, Account>,
    txs: Map<TxID, (Transaction, Status)>,
    resolve: Resolve,
)
    requires
        !resolve_applies(assets, txs, resolve),
    ensures
        resolve_step(assets, txs, resolve) == (assets, txs),
{
}

/// A chargeback whose preconditions are unmet changes nothing.
pub proof fn lemma_chargeback_noop(
    assets: Map<ClienID, Account>,
    txs: Map<TxID, (Transaction, Status)>,
    chargeback: Chargeback,
)
    requires
        !chargeback_applies(assets, txs, chargeback),
    ensures
        chargeback_step(assets, txs, chargeback) == (assets, txs),
{
}

/// One non-chargeback transaction changes client `c`'s total worth by
/// exactly its flow: deposits and withdrawals that take effect add or
/// remove their amount, everything else — including every refused
/// transaction and the whole dispute/resolve hold cycle — conserves
/// the total.
pub proof fn lemma_step_conserves_total(
    assets: Map<ClienID, Account>,
    txs: Map<TxID, (Transaction, Status)>,
    tx: Transaction,
    c: ClienID,
)
    requires
        !(tx is Chargeback),
    ensures
        total_of(step(assets, txs, tx).0, c) == total_of(assets, c) + flow(assets, txs, tx, c),
{
}

/// Conservation: over any sequence free of chargebacks, client `c`'s
/// final total worth is the initial total worth plus the sum of the
/// deposits that took effect minus the withdrawals that took effect.
pub proof fn lemma_conservation(
    assets: Map<ClienID, Account>,
    txs: Map<TxID, (Transaction, Status)>,
    s: Seq<Transaction>,
    c: ClienID,
)
    requires
        forall|i: int| 0 <= i < s.len() ==> !((#[trigger] s[i]) is Chargeback),
    ensures
        total_of(run(assets, txs, s).0, c) == total_of(assets, c) + net_flow(assets, txs, s, c),
    decreases s.len(),
{
    if s.len() > 0 {
        lemma_step_conserves_total(assets, txs, s[0], c);
        let (a1, t1) = step(assets, txs, s[0]);
        assert forall|i: int| 0 <= i < s.drop_first().len() implies !((#[trigger] s.drop_first()[i])
            is Chargeback) by {
            assert(s.drop_first()[i] == s[i + 1]);
        }
        lemma_conservation(a1, t1, s.drop_first(), c);
    }
}

/// One transaction leaves a locked account exactly as it is.
pub proof fn lemma_step_locked_frozen(
    assets: Map<ClienID, Account>,
    txs: Map<TxID, (Transaction, Status)>,
    tx: Transaction,
    c: ClienID,
)
    requires
        assets.contains_key(c),
        assets[c].locked,
    ensures
        step(assets, txs, tx).0.contains_key(c),
        step(assets, txs, tx).0[c] == assets[c],
{
}

/// Lock monotonicity: once an account is locked, no later sequence of
/// transactions — for that client or any other — changes its
/// available funds, its held funds, or its lock.
pub proof fn lemma_locked_frozen(
    assets: Map<ClienID, Account>,
    txs: Map<TxID, (Transaction, Status)>,
    s: Seq<Transaction>,
    c: ClienID,
)
    requires
        assets.contains_key(c),
        assets[c].locked,
    ensures
        run(assets, txs, s).0.contains_key(c),
        run(assets, txs, s).0[c] == assets[c],
    decreases s.len(),
{
    if s.len() > 0 {
        lemma_step_locked_frozen(assets, txs, s[0], c);
        let (a1, t1) = step(assets, txs, s[0]);
        lemma_locked_frozen(a1, t1, s.drop_first(), c);
    }
}

/// No account and no history entry is ever removed by a transaction.
pub proof fn lemma_nothing_removed(
    assets: Map<ClienID, Account>,
    txs: Map<TxID, (Transaction, Status)>,
    tx: Transaction,
    c: ClienID,
    t: TxID,
)
    ensures
        assets.contains_key(c) ==> step(assets, txs, tx).0.contains_key(c),
        txs.contains_key(t) ==> step(assets, txs, tx).1.contains_key(t),
{
}

/// A lifecycle event moves a history entry's status only along the
/// dispute lifecycle: it leaves a status, opens a dispute on a `Normal`
/// entry, or closes a `Disputed` entry to `Normal` or to the terminal
/// `Chargedback`. (A deposit or withdrawal that reuses a stored
/// transaction id overwrites the whole entry instead — last write
/// wins, as the storage model prescribes — so this speaks of the
/// lifecycle events alone.)
pub proof fn lemma_status_transitions(
    assets: Map<ClienID, Account>,
    txs: Map<TxID, (Transaction, Status)>,
    tx: Transaction,
    t: TxID,
)
    requires
        tx is Dispute || tx is Resolve || tx is Chargeback,
    ensures
        step(assets, txs, tx).1.contains_key(t) && !txs.contains_key(t) ==> step(
            assets,
            txs,
            tx,
        ).1[t].1 is Normal,
        step(assets, txs, tx).1.contains_key(t) && txs.contains_key(t) ==> (step(
            assets,
            txs,
            tx,
        ).1[t].1 == txs[t].1 || (txs[t].1 is Normal && step(assets, txs, tx).1[t].1 is Disputed) || (
        txs[t].1 is Disputed && (step(assets, txs, tx).1[t].1 is Normal || step(
            assets,
            txs,
            tx,
        ).1[t].1 is Chargedback))),
{
}

/// Hold/release round trip: a dispute that takes effect, followed by a
/// resolve of the same transaction, restores the account's available
/// and held funds and returns the entry's status to `Normal` — the
/// ledger ends exactly where it began. The held funds must start
/// nonnegative, else the defensive guard refuses the resolve.
pub proof fn lemma_dispute_resolve_round_trip(
    assets: Map<ClienID, Account>,
    txs: Map<TxID, (Transaction, Status)>,
    meta: Metadata,
)
    requires
        dispute_applies(assets, txs, Dispute(meta)),
        assets[meta.client_id].held@ >= 0,
    ensures
        resolve_step(
            dispute_step(assets, txs, Dispute(meta)).0,
            dispute_step(assets, txs, Dispute(meta)).1,
            Resolve(meta),
        ) == (assets, txs),
{
    let c = meta.client_id;
    let t = meta.tx_id;
    let (a1, t1) = dispute_step(assets, txs, Dispute(meta));
    let (a2, t2) = resolve_step(a1, t1, Resolve(meta));
    assert(a2 =~= assets);
    assert(t2 =~= txs);
}

/// Terminal chargeback: once a chargeback takes effect, the entry is
/// `Chargedback`, and any later dispute, resolve or chargeback against
/// that transaction — from any client — changes nothing.
pub proof fn lemma_chargeback_terminal(
    assets: Map<ClienID, Account>,
    txs: Map<TxID, (Transaction, Status)>,
    chargeback: Chargeback,
    later: Metadata,
)
    requires
        chargeback_applies(assets, txs, chargeback),
        later.tx_id == chargeback.0.tx_id,
    ensures
        chargeback_step(assets, txs, chargeback).1[later.tx_id].1 is Chargedback,
        dispute_step(
            chargeback_step(assets, txs, chargeback).0,
            chargeback_step(assets, txs, chargeback).1,
            Dispute(later),
        ) == chargeback_step(assets, txs, chargeback),
        resolve_step(
            chargeback_step(assets, txs, chargeback).0,
            chargeback_step(assets, txs, chargeback).1,
            Resolve(later),
        ) == chargeback_step(assets, txs, chargeback),
        chargeback_step(
            chargeback_step(assets, txs, chargeback).0,
            chargeback_step(assets, txs, chargeback).1,
            Chargeback(later),
        ) == chargeback_step(assets, txs, chargeback),
{
}

} // verus!

