use vstd::prelude::*;

use crate::money::Money;

verus! {

/// The five kinds of event the ledger understands.
#[derive(Clone, Copy, Debug, PartialEq, Eq, Structural)]
pub enum TransactionType {
    Deposit,
    Withdrawal,
    Dispute,
    Resolve,
    Chargeback,
}

/// One character of an input type field read against one lowercase
/// letter of a kind's name, ignoring ASCII case.
pub open spec fn char_matches_folded(c: char, l: char) -> bool {
    c == l || (65 <= c as int <= 90 && c as int + 32 == l as int)
}

/// A type field reads as a kind's name when the characters match
/// pairwise, ignoring ASCII case.
pub open spec fn matches_folded(s: Seq<char>, lit: Seq<char>) -> bool {
    s.len() == lit.len() && forall|i: int|
        0 <= i < s.len() ==> char_matches_folded(#[trigger] s[i], lit[i])
}

/// What `TransactionType::from_field` returns, as a value.
pub open spec fn spec_type_from_field(s: Seq<char>) -> Option<TransactionType> {
    if matches_folded(s, "deposit"@) {
        Some(TransactionType::Deposit)
    } else if matches_folded(s, "withdrawal"@) {
        Some(TransactionType::Withdrawal)
    } else if matches_folded(s, "dispute"@) {
        Some(TransactionType::Dispute)
    } else if matches_folded(s, "resolve"@) {
        Some(TransactionType::Resolve)
    } else if matches_folded(s, "chargeback"@) {
        Some(TransactionType::Chargeback)
    } else {
        None
    }
}

/// Compares a field against one lowercase name, ignoring ASCII case.
#[verifier::loop_isolation(false)]
fn eq_folded(s: &str, lit: &str) -> (r: bool)
    ensures
        r == matches_folded(s@, lit@),
{
    let n = s.unicode_len();
    let m = lit.unicode_len();
    if n != m {
        return false;
    }
    let mut i: usize = 0;
    while i < n
        invariant
            i <= n,
            n == s@.len(),
            n == lit@.len(),
            forall|k: int| 0 <= k < i ==> char_matches_folded(#[trigger] s@[k], lit@[k]),
        decreases n - i,
    {
        let c = s.get_char(i);
        let l = lit.get_char(i);
        let cu = c as u32;
        let lu = l as u32;
        if !(cu == lu || (65 <= cu && cu <= 90 && cu + 32 == lu)) {
            return false;
        }
        i += 1;
    }
    true
}

impl TransactionType {
    /// Reads the type column of one row: one of the five kind names,
    /// matched against its lowercase spelling ignoring ASCII case.
    /// `None` drops the row as undecodable.
    pub fn from_field(s: &str) -> (r: Option<TransactionType>)
        ensures
            r == spec_type_from_field(s@),
    {
        if eq_folded(s, "deposit") {
            Some(TransactionType::Deposit)
        } else if eq_folded(s, "withdrawal") {
            Some(TransactionType::Withdrawal)
        } else if eq_folded(s, "dispute") {
            Some(TransactionType::Dispute)
        } else if eq_folded(s, "resolve") {
            Some(TransactionType::Resolve)
        } else if eq_folded(s, "chargeback") {
            Some(TransactionType::Chargeback)
        } else {
            None
        }
    }
}

pub type ClienID = u16;

pub type TxID = u32;

/// Identifies which client an event concerns and which transaction it
/// is, or refers to. Transaction ids are globally unique over the
/// input stream, not scoped per client.
#[derive(Clone, Copy, Debug, PartialEq, Eq, Structural)]
pub struct Metadata {
    pub client_id: ClienID,
    pub tx_id: TxID,
}

impl Metadata {
    pub fn new(client_id: ClienID, tx_id: TxID) -> (r: Self)
        ensures
            r == (Metadata { client_id, tx_id }),
    {
        Metadata { client_id, tx_id }
    }
}

/// A movement of funds: the common payload of deposits and withdrawals.
#[derive(Clone, Copy, Debug, PartialEq, Eq, Structural)]
pub struct Transfer {
    pub meta: Metadata,
    pub amount: Money,
}

impl Transfer {
    pub fn new(meta: Metadata, amount: Money) -> (r: Self)
        ensures
            r == (Transfer { meta, amount }),
    {
        Transfer { meta, amount }
    }
}

#[derive(Clone, Copy, Debug, PartialEq, Eq, Structural)]
pub struct Deposit(pub Transfer);

impl Deposit {
    pub fn new(meta: Metadata, amount: Money) -> (r: Self)
        ensures
            r == Deposit(Transfer { meta, amount }),
    {
        Deposit(Transfer::new(meta, amount))
    }
}

#[derive(Clone, Copy, Debug, PartialEq, Eq, Structural)]
pub struct Withdrawal(pub Transfer);

impl Withdrawal {
    pub fn new(meta: Metadata, amount: Money) -> (r: Self)
        ensures
            r == Withdrawal(Transfer { meta, amount }),
    {
        Withdrawal(Transfer::new(meta, amount))
    }
}

#[derive(Clone, Copy, Debug, PartialEq, Eq, Structural)]
pub struct Dispute(pub Metadata);

impl Dispute {
    pub fn new(meta: Metadata) -> (r: Self)
        ensures
            r == Dispute(meta),
    {
        Dispute(meta)
    }
}

#[derive(Clone, Copy, Debug, PartialEq, Eq, Structural)]
pub struct Resolve(pub Metadata);

impl Resolve {
    pub fn new(meta: Metadata) -> (r: Self)
        ensures
            r == Resolve(meta),
    {
        Resolve(meta)
    }
}

#[derive(Clone, Copy, Debug, PartialEq, Eq, Structural)]
pub struct Chargeback(pub Metadata);

impl Chargeback {
    pub fn new(meta: Metadata) -> (r: Self)
        ensures
            r == Chargeback(meta),
    {
        Chargeback(meta)
    }
}

/// One structurally valid input event.
#[derive(Clone, Copy, Debug, PartialEq, Eq, Structural)]
pub enum Transaction {
    Deposit(Deposit),
    Withdrawal(Withdrawal),
    Dispute(Dispute),
    Resolve(Resolve),
    Chargeback(Chargeback),
}

/// Structurally invalid events: a deposit or withdrawal that arrives
/// without an amount. Such a record never reaches the ledger; its row
/// is dropped by the caller.
#[derive(Clone, Copy, Debug, PartialEq, Eq, Structural)]
pub enum RecordError {
    InvalidRecord,
}

impl Transaction {
    /// The amount a transaction moves: deposits and withdrawals carry
    /// one, the dispute-lifecycle events do not.
    pub open spec fn spec_get_amount(self) -> Option<Money> {
        match self {
            Transaction::Deposit(deposit) => Some(deposit.0.amount),
            Transaction::Withdrawal(withdrawal) => Some(withdrawal.0.amount),
            _ => None,
        }
    }

    pub fn get_amount(&self) -> (r: Option<Money>)
        ensures
            r == self.spec_get_amount(),
    {
        match self {
            Transaction::Deposit(deposit) => Some(deposit.0.amount),
            Transaction::Withdrawal(withdrawal) => Some(withdrawal.0.amount),
            _ => None,
        }
    }

    /// What `from_parts` returns, stated as a value.
    pub open spec fn spec_from_parts(
        tx_type: TransactionType,
        meta: Metadata,
        amount: Option<Money>,
    ) -> Result<Transaction, RecordError> {
        match tx_type {
            TransactionType::Deposit => match amount {
                Some(a) => Ok(Transaction::Deposit(Deposit(Transfer { meta, amount: a }))),
                None => Err(RecordError::InvalidRecord),
            },
            TransactionType::Withdrawal => match amount {
                Some(a) => Ok(Transaction::Withdrawal(Withdrawal(Transfer { meta, amount: a }))),
                None => Err(RecordError::InvalidRecord),
            },
            TransactionType::Dispute => Ok(Transaction::Dispute(Dispute(meta))),
            TransactionType::Resolve => Ok(Transaction::Resolve(Resolve(meta))),
            TransactionType::Chargeback => Ok(Transaction::Chargeback(Chargeback(meta))),
        }
    }

    /// Builds the typed event for one decoded row. Deposits and
    /// withdrawals must carry an amount; the dispute-lifecycle events
    /// ignore the amount field, which shares the one row schema.
    pub fn from_parts(tx_type: TransactionType, meta: Metadata, amount: Option<Money>) -> (r:
        Result<Transaction, RecordError>)
        ensures
            r == Transaction::spec_from_parts(tx_type, meta, amount),
    {
        match tx_type {
            TransactionType::Deposit => match amount {
                Some(a) => Ok(Transaction::Deposit(Deposit::new(meta, a))),
                None => Err(RecordError::InvalidRecord),
            },
            TransactionType::Withdrawal => match amount {
                Some(a) => Ok(Transaction::Withdrawal(Withdrawal::new(meta, a))),
                None => Err(RecordError::InvalidRecord),
            },
            TransactionType::Dispute => Ok(Transaction::Dispute(Dispute::new(meta))),
            TransactionType::Resolve => Ok(Transaction::Resolve(Resolve::new(meta))),
            TransactionType::Chargeback => Ok(Transaction::Chargeback(Chargeback::new(meta))),
        }
    }
}

} // verus!
