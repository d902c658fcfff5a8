//! Ledger entities: clients, transactions and accounts.
//!
//! Monetary amounts are fixed-point integers: one unit stands for one
//! ten-thousandth of the currency, so four fractional decimal digits are
//! represented exactly and balances never drift. Presentation (turning a
//! balance back into a decimal string) is the I/O adapter's concern.

use vstd::prelude::*;

verus! {

/// Client identifier; values exceeding `u16::MAX` are a caller error.
pub type ClientId = u16;

/// Globally unique transaction identifier; not ordered or sequential.
pub type TxId = u32;

/// A monetary amount in ten-thousandths of the currency unit
/// (so `1_000_000` stands for `100.0000`). Non-negative by construction.
pub type Amount = u64;

/// The closed set of transaction kinds the engine dispatches on.
///
/// `Unknown` is a sentinel for malformed input; the I/O adapter must reject
/// such records, and the engine never accepts it.
#[derive(Debug, Clone, Copy, PartialEq, Eq, Structural)]
pub enum TxType {
    /// A credit: increases the account's available and total funds.
    Deposit,
    /// A debit: decreases available and total funds, only when the
    /// available funds suffice.
    Withdrawal,
    /// A claim that an earlier transaction was erroneous: moves its amount
    /// from available to held funds, leaving the total unchanged.
    Dispute,
    /// A resolution of a dispute: moves the amount back from held to
    /// available funds, leaving the total unchanged.
    Resolve,
    /// The terminal reversal of a disputed transaction: removes the amount
    /// from held and total funds and freezes the account.
    Chargeback,
    /// A malformed record; never dispatched.
    Unknown,
}

/// The transaction kind that a numeric tag denotes; tags outside `1..=5`
/// denote `Unknown`.
pub open spec fn tx_type_of_num(num: i32) -> TxType {
    if num == 1 {
        TxType::Deposit
    } else if num == 2 {
        TxType::Withdrawal
    } else if num == 3 {
        TxType::Dispute
    } else if num == 4 {
        TxType::Resolve
    } else if num == 5 {
        TxType::Chargeback
    } else {
        TxType::Unknown
    }
}

impl From<i32> for TxType {
    fn from(num: i32) -> (r: Self) {
        match num {
            1 => TxType::Deposit,
            2 => TxType::Withdrawal,
            3 => TxType::Dispute,
            4 => TxType::Resolve,
            5 => TxType::Chargeback,
            _ => TxType::Unknown,
        }
    }
}

impl vstd::std_specs::convert::FromSpecImpl<i32> for TxType {
    open spec fn obeys_from_spec() -> bool {
        true
    }

    open spec fn from_spec(num: i32) -> TxType {
        tx_type_of_num(num)
    }
}

/// One input record: an immutable transaction.
///
/// `amount` is present only for deposits and withdrawals; a dispute,
/// resolve or chargeback reuses the `tx` identifier of the transaction it
/// refers to and carries no amount of its own.
#[derive(Debug, Clone, Copy)]
pub struct Transaction {
    /// The transaction kind.
    pub kind: TxType,
    /// The client whose account the transaction affects.
    pub client: ClientId,
    /// The transaction identifier (for a dispute, resolve or chargeback:
    /// the identifier of the referenced transaction).
    pub tx: TxId,
    /// The amount moved, present only for deposits and withdrawals.
    pub amount: Option<Amount>,
}

/// One client's balances and lock state.
#[derive(Debug, Clone, Copy, PartialEq, Eq, Structural)]
pub struct Account {
    /// The client this account belongs to.
    pub client: ClientId,
    /// Funds usable for withdrawal; excludes anything held under dispute.
    pub available: Amount,
    /// Funds frozen pending dispute resolution.
    pub held: Amount,
    /// The client's full balance: always `available + held`.
    pub total: Amount,
    /// Whether the account is frozen. Set by a chargeback; only an explicit
    /// administrative unlock clears it.
    pub locked: bool,
}

impl Account {
    /// The account invariant: the total is exactly the available plus the
    /// held funds. (Available and held funds are non-negative by their
    /// unsigned type.)
    pub open spec fn wf(self) -> bool {
        self.total == self.available + self.held
    }

    /// The fresh account a first reference to `client` creates: zero
    /// balances, unlocked.
    pub open spec fn new_spec(client: ClientId) -> Account {
        Account { client, available: 0, held: 0, total: 0, locked: false }
    }

    /// Creates the zero-balance, unlocked account for `client`.
    pub fn new(client: ClientId) -> (r: Self)
        ensures
            r == Self::new_spec(client),
            r.wf(),
    {
        Account { client, available: 0, held: 0, total: 0, locked: false }
    }

    /// Balances are kept as exact fixed-point integers, so rounding to four
    /// decimal places before serialization changes nothing.
    pub fn round_balances(&mut self)
        ensures
            *final(self) == *old(self),
    {
    }
}

} // verus!
