//! The transaction engine: applies one transaction at a time to the
//! per-client accounts, following strict order-dependent rules.
//!
//! Business-rule failures (insufficient funds, an unknown transaction
//! reference, a locked account) are silent no-ops by design, never errors;
//! errors are reserved for the I/O boundary outside this library.

use std::collections::HashMap;

use rand::distributions::Distribution;
use vstd::prelude::*;

use crate::models::{Account, Amount, ClientId, Transaction, TxId, TxType};

verus! {

/// The engine state for one processing run: every client's account, and
/// the stored deposit/withdrawal history that disputes are resolved
/// against.
#[derive(Debug)]
pub struct Accounting {
    accounts: HashMap<ClientId, Account>,
    transactions: HashMap<TxId, Transaction>,
}

/// The account a transaction for `client` works on: the stored one, or —
/// created lazily on the first reference — a fresh zero-balance, unlocked
/// account.
pub open spec fn account_or_new(accounts: Map<ClientId, Account>, client: ClientId) -> Account {
    if accounts.contains_key(client) {
        accounts[client]
    } else {
        Account::new_spec(client)
    }
}

/// What a deposit of `amount` does to an account: credits the available
/// and total funds. A deposit whose amount would push the total past the
/// representable range is dropped, the same silent-no-op policy every
/// other rejected action follows.
pub open spec fn deposit_effect(a: Account, amount: Amount) -> Account {
    if a.total + amount <= u64::MAX {
        Account {
            available: (a.available + amount) as u64,
            total: (a.total + amount) as u64,
            ..a
        }
    } else {
        a
    }
}

/// What a withdrawal of `amount` does to an account: debits the available
/// and total funds when the available funds suffice, and is a no-op
/// otherwise.
pub open spec fn withdrawal_effect(a: Account, amount: Amount) -> Account {
    if amount <= a.available {
        Account {
            available: (a.available - amount) as u64,
            total: (a.total - amount) as u64,
            ..a
        }
    } else {
        a
    }
}

/// What a dispute over `amount` does to an account: moves the amount from
/// available to held funds when the available funds suffice (they may not,
/// if the funds were withdrawn since the deposit), and is a no-op
/// otherwise. The total is unchanged.
pub open spec fn dispute_effect(a: Account, amount: Amount) -> Account {
    if amount <= a.available {
        Account {
            available: (a.available - amount) as u64,
            held: (a.held + amount) as u64,
            ..a
        }
    } else {
        a
    }
}

/// What resolving a dispute over `amount` does to an account: moves the
/// amount from held back to available funds when the held funds suffice,
/// and is a no-op otherwise. The total is unchanged.
pub open spec fn resolve_effect(a: Account, amount: Amount) -> Account {
    if amount <= a.held {
        Account {
            available: (a.available + amount) as u64,
            held: (a.held - amount) as u64,
            ..a
        }
    } else {
        a
    }
}

/// What a chargeback of `amount` does to an account: removes the amount
/// from held and total funds and freezes the account, when the held funds
/// suffice; a no-op otherwise. The available funds are unchanged.
pub open spec fn chargeback_effect(a: Account, amount: Amount) -> Account {
    if amount <= a.held {
        Account {
            held: (a.held - amount) as u64,
            total: (a.total - amount) as u64,
            locked: true,
            ..a
        }
    } else {
        a
    }
}

/// The amount a dispute, resolve or chargeback refers to: the amount
/// recorded for the referenced transaction, if that transaction is stored
/// and recorded one.
pub open spec fn referenced_amount(txs: Map<TxId, Transaction>, txid: TxId) -> Option<Amount> {
    if txs.contains_key(txid) {
        txs[txid].amount
    } else {
        None
    }
}

/// The account that dispatching one transaction leaves behind: the
/// identity on a locked account, on a missing amount or reference, and on
/// any business-rule failure.
pub open spec fn step_account(a: Account, txs: Map<TxId, Transaction>, tx: Transaction) -> Account {
    if a.locked {
        a
    } else {
        match tx.kind {
            TxType::Deposit => match tx.amount {
                Some(amt) => deposit_effect(a, amt),
                None => a,
            },
            TxType::Withdrawal => match tx.amount {
                Some(amt) => withdrawal_effect(a, amt),
                None => a,
            },
            TxType::Dispute => match referenced_amount(txs, tx.tx) {
                Some(amt) => dispute_effect(a, amt),
                None => a,
            },
            TxType::Resolve => match referenced_amount(txs, tx.tx) {
                Some(amt) => resolve_effect(a, amt),
                None => a,
            },
            TxType::Chargeback => match referenced_amount(txs, tx.tx) {
                Some(amt) => chargeback_effect(a, amt),
                None => a,
            },
            TxType::Unknown => a,
        }
    }
}

/// The stored history that dispatching one transaction leaves behind: a
/// deposit or withdrawal on an unlocked account is recorded verbatim under
/// its id — whether or not the balance update succeeded, so that a later
/// dispute can still find it — and nothing else is ever stored.
pub open spec fn step_txs(
    txs: Map<TxId, Transaction>,
    a: Account,
    tx: Transaction,
) -> Map<TxId, Transaction> {
    if !a.locked && (tx.kind is Deposit || tx.kind is Withdrawal) {
        txs.insert(tx.tx, tx)
    } else {
        txs
    }
}

/// What holds of every generated test transaction: identifiers within the
/// requested ranges, a kind the engine may dispatch, and an amount — three
/// uniform draws summed, so between 0.3 and 1500 currency units — exactly
/// for deposits and withdrawals.
pub open spec fn valid_generated(t: Transaction, num_transactions: u32, num_accounts: u16) -> bool {
    &&& 1 <= t.tx <= num_transactions
    &&& 1 <= t.client <= num_accounts
    &&& !(t.kind is Unknown)
    &&& ((t.kind is Deposit || t.kind is Withdrawal) <==> t.amount is Some)
    &&& (t.amount matches Some(amt) ==> 3_000 <= amt <= 15_000_000)
}

/// Relies on rand's `Uniform::new_inclusive` and `Distribution::sample`:
/// a sample of the closed uniform range `lo..=hi` lies within the bounds.
/// (`new_inclusive` panics when `lo > hi`.) Nothing more is promised: the
/// result is random.
#[verifier::external_body]
fn random_in_range(lo: u64, hi: u64) -> (r: u64)
    requires
        lo <= hi,
    ensures
        lo <= r <= hi,
{
    rand::distributions::Uniform::new_inclusive(lo, hi).sample(&mut rand::thread_rng())
}

impl Accounting {
    /// The client-to-account mapping.
    pub closed spec fn accounts_map(self) -> Map<ClientId, Account> {
        self.accounts@
    }

    /// The stored transaction history, keyed by transaction id.
    pub closed spec fn txs_map(self) -> Map<TxId, Transaction> {
        self.transactions@
    }

    /// The engine invariant: every account is internally consistent and
    /// filed under its own client id, and every stored transaction is
    /// filed under its own id and is a deposit or a withdrawal.
    pub open spec fn wf(self) -> bool {
        &&& forall|c: ClientId| #[trigger] self.accounts_map().contains_key(c) ==> {
            &&& self.accounts_map()[c].wf()
            &&& self.accounts_map()[c].client == c
        }
        &&& forall|t: TxId| #[trigger] self.txs_map().contains_key(t) ==> {
            &&& self.txs_map()[t].tx == t
            &&& (self.txs_map()[t].kind is Deposit || self.txs_map()[t].kind is Withdrawal)
        }
    }

    /// Creates an engine with no accounts and no stored transactions.
    pub fn init() -> (r: Self)
        ensures
            r.accounts_map() == Map::<ClientId, Account>::empty(),
            r.txs_map() == Map::<TxId, Transaction>::empty(),
            r.wf(),
    {
        Accounting { accounts: HashMap::new(), transactions: HashMap::new() }
    }

    /// Sets the lock flag on `client`'s account directly, creating the
    /// account if it does not exist. This administrative override is the
    /// only way to clear a lock after a chargeback; the engine itself
    /// never unlocks an account.
    pub fn lock_account(&mut self, client: ClientId, is_locked: bool)
        requires
            old(self).wf(),
        ensures
            final(self).accounts_map() == old(self).accounts_map().insert(
                client,
                Account { locked: is_locked, ..account_or_new(old(self).accounts_map(), client) },
            ),
            final(self).txs_map() == old(self).txs_map(),
            final(self).wf(),
    {
        let mut account = match self.accounts.remove(&client) {
            Some(a) => a,
            None => Account::new(client),
        };

        account.locked = is_locked;

        self.accounts.insert(client, account);

        proof {
            assert(self.accounts@ =~= old(self).accounts@.insert(client, account));
        }
    }

    /// Applies one transaction: looks up or lazily creates the client's
    /// account, dispatches on the transaction kind unless the account is
    /// locked, and records the transaction if it is a deposit or a
    /// withdrawal. The new state is exactly what `step_account` and
    /// `step_txs` say; every business-rule failure inside them is a silent
    /// no-op.
    pub fn process_transaction(&mut self, tx: Transaction)
        requires
            old(self).wf(),
            !(tx.kind is Unknown),
        ensures
            final(self).accounts_map() == old(self).accounts_map().insert(
                tx.client,
                step_account(
                    account_or_new(old(self).accounts_map(), tx.client),
                    old(self).txs_map(),
                    tx,
                ),
            ),
            final(self).txs_map() == step_txs(
                old(self).txs_map(),
                account_or_new(old(self).accounts_map(), tx.client),
                tx,
            ),
            final(self).wf(),
    {
        let mut account = match self.accounts.remove(&tx.client) {
            Some(a) => a,
            None => Account::new(tx.client),
        };

        proof {
            assert(account == account_or_new(old(self).accounts_map(), tx.client));
            assert(account.wf());
        }

        if !account.locked {
            match tx.kind {
                TxType::Deposit => {
                    self.process_deposit(&mut account, &tx);
                    // Record only deposits and withdrawals: a dispute,
                    // resolve or chargeback reuses the original id and
                    // storing it would shadow the original amount.
                    self.transactions.insert(tx.tx, tx);
                },
                TxType::Withdrawal => {
                    self.process_withdrawal(&mut account, &tx);
                    self.transactions.insert(tx.tx, tx);
                },
                TxType::Dispute => self.process_dispute(&mut account, &tx),
                TxType::Resolve => self.process_resolve(&mut account, &tx),
                TxType::Chargeback => self.process_chargeback(&mut account, &tx),
                TxType::Unknown => {
                    proof {
                        assert(false);
                    }
                },
            }
        }

        self.accounts.insert(tx.client, account);

        proof {
            assert(self.accounts@ =~= old(self).accounts@.insert(tx.client, account));
            assert(self.transactions@ =~= step_txs(
                old(self).txs_map(),
                account_or_new(old(self).accounts_map(), tx.client),
                tx,
            ));
        }
    }

    /// Credits the account by the transaction's amount; a no-op when the
    /// amount is absent. Exposed for convenience, but intended to be
    /// driven by `process_transaction`.
    pub fn process_deposit(&mut self, account: &mut Account, tx: &Transaction)
        requires
            old(account).wf(),
        ensures
            *final(self) == *old(self),
            *final(account) == match tx.amount {
                Some(amt) => deposit_effect(*old(account), amt),
                None => *old(account),
            },
            final(account).wf(),
    {
        if let Some(amount) = tx.amount {
            if amount <= u64::MAX - account.total {
                account.total = account.total + amount;
                account.available = account.available + amount;
            }
        }
    }

    /// Debits the account by the transaction's amount when the available
    /// funds suffice; a silent no-op on insufficient funds or an absent
    /// amount. Exposed for convenience, but intended to be driven by
    /// `process_transaction`.
    pub fn process_withdrawal(&mut self, account: &mut Account, tx: &Transaction)
        requires
            old(account).wf(),
        ensures
            *final(self) == *old(self),
            *final(account) == match tx.amount {
                Some(amt) => withdrawal_effect(*old(account), amt),
                None => *old(account),
            },
            final(account).wf(),
    {
        if let Some(amount) = tx.amount {
            if account.available >= amount {
                account.total = account.total - amount;
                account.available = account.available - amount;
            }
        }
    }

    /// Holds the referenced transaction's amount pending resolution; a
    /// silent no-op when the reference is unknown, records no amount, or
    /// the available funds no longer suffice. Exposed for convenience, but
    /// intended to be driven by `process_transaction`.
    pub fn process_dispute(&mut self, account: &mut Account, tx: &Transaction)
        requires
            old(account).wf(),
        ensures
            *final(self) == *old(self),
            *final(account) == match referenced_amount(old(self).txs_map(), tx.tx) {
                Some(amt) => dispute_effect(*old(account), amt),
                None => *old(account),
            },
            final(account).wf(),
    {
        if let Some(transaction) = self.transactions.get(&tx.tx) {
            if let Some(amount) = transaction.amount {
                if account.available >= amount {
                    account.available = account.available - amount;
                    account.held = account.held + amount;
                }
            }
        }
    }

    /// Releases the referenced transaction's amount from held back to
    /// available funds; a silent no-op when the reference is unknown,
    /// records no amount, or the held funds do not suffice. Exposed for
    /// convenience, but intended to be driven by `process_transaction`.
    pub fn process_resolve(&mut self, account: &mut Account, tx: &Transaction)
        requires
            old(account).wf(),
        ensures
            *final(self) == *old(self),
            *final(account) == match referenced_amount(old(self).txs_map(), tx.tx) {
                Some(amt) => resolve_effect(*old(account), amt),
                None => *old(account),
            },
            final(account).wf(),
    {
        if let Some(transaction) = self.transactions.get(&tx.tx) {
            if let Some(amount) = transaction.amount {
                if account.held >= amount {
                    account.available = account.available + amount;
                    account.held = account.held - amount;
                }
            }
        }
    }

    /// Withdraws the referenced transaction's amount from held and total
    /// funds and freezes the account; a silent no-op when the reference is
    /// unknown, records no amount, or the held funds do not suffice.
    /// Exposed for convenience, but intended to be driven by
    /// `process_transaction`.
    pub fn process_chargeback(&mut self, account: &mut Account, tx: &Transaction)
        requires
            old(account).wf(),
        ensures
            *final(self) == *old(self),
            *final(account) == match referenced_amount(old(self).txs_map(), tx.tx) {
                Some(amt) => chargeback_effect(*old(account), amt),
                None => *old(account),
            },
            final(account).wf(),
    {
        if let Some(transaction) = self.transactions.get(&tx.tx) {
            if let Some(amount) = transaction.amount {
                if account.held >= amount {
                    account.total = account.total - amount;
                    account.held = account.held - amount;
                    account.locked = true;
                }
            }
        }
    }

    /// Generates random transactions for test and performance data. The
    /// data is erroneous on purpose: identifiers collide, kinds are drawn
    /// freely, and disputes may reference transactions that never happened.
    /// Every record nevertheless satisfies `valid_generated`, so each can
    /// be fed to `process_transaction`.
    pub fn generate_dummy_transactions(num_transactions: u32, num_accounts: u16) -> (r: Vec<
        Transaction,
    >)
        requires
            num_transactions >= 1,
            num_accounts >= 1,
        ensures
            r@.len() == num_transactions,
            forall|i: int|
                0 <= i < r@.len() ==> valid_generated(
                    #[trigger] r@[i],
                    num_transactions,
                    num_accounts,
                ),
    {
        let mut transactions: Vec<Transaction> = Vec::new();

        for n in 0..num_transactions
            invariant
                num_transactions >= 1,
                num_accounts >= 1,
                transactions@.len() == n,
                forall|i: int|
                    0 <= i < transactions@.len() ==> valid_generated(
                        #[trigger] transactions@[i],
                        num_transactions,
                        num_accounts,
                    ),
        {
            let tx = random_in_range(1, num_transactions as u64) as u32;
            let client = random_in_range(1, num_accounts as u64) as u16;

            let tx_num = random_in_range(1, 5) as i32;
            let kind = TxType::from(tx_num);

            let amount = match kind {
                TxType::Deposit | TxType::Withdrawal => Some(
                    random_in_range(1_000, 5_000_000) + random_in_range(1_000, 5_000_000)
                        + random_in_range(1_000, 5_000_000),
                ),
                _ => None,
            };

            let transaction = Transaction { tx, client, kind, amount };

            transactions.push(transaction);
        }

        transactions
    }

    /// Every stored account, one per client, in no promised order: the
    /// client-to-account mapping iterates in arbitrary order.
    pub fn accounts_vec(&self) -> (r: Vec<Account>)
        ensures
            r@.to_set() =~= self.accounts_map().values(),
            r@.len() == self.accounts_map().dom().len(),
    {
        let mut r: Vec<Account> = Vec::new();

        for x in it: self.accounts.values()
            invariant
                it.seq().unref().to_set() == self.accounts_map().values(),
                it.seq().len() == self.accounts_map().dom().len(),
                r@.len() == it.index(),
                forall|i: int|
                    0 <= i < r@.len() ==> self.accounts_map().values().contains(#[trigger] r@[i]),
                forall|a: Account| #[trigger]
                    self.accounts_map().values().contains(a) ==> (r@.contains(a) || exists|j: int|
                        it.index() <= j < it.seq().len() && *it.seq()[j] == a),
        {
            proof {
                let ghost s = it.seq();
                let ghost i0 = it.index();
                assert(s.unref()[i0] == *x);
                assert(s.unref().to_set().contains(*x));
                assert forall|a: Account| self.accounts_map().values().contains(a) implies (r@.push(
                    *x,
                ).contains(a) || exists|j: int| i0 + 1 <= j < s.len() && *s[j] == a) by {
                    if r@.contains(a) {
                        let i = choose|i: int| 0 <= i < r@.len() && r@[i] == a;
                        assert(r@.push(*x)[i] == a);
                    } else {
                        let j = choose|j: int| i0 <= j < s.len() && *s[j] == a;
                        if j == i0 {
                            assert(r@.push(*x)[r@.len() as int] == a);
                        }
                    }
                }
            }
            r.push(*x);
        }

        r
    }

    /// Looks up the account stored for `client`; `None` exactly when the
    /// client has never been referenced.
    pub fn get_account(&self, client: ClientId) -> (r: Option<&Account>)
        ensures
            match r {
                Some(a) => self.accounts_map().contains_key(client) && *a
                    == self.accounts_map()[client],
                None => !self.accounts_map().contains_key(client),
            },
    {
        self.accounts.get(&client)
    }
}

/// Law: in a well-formed engine, every account's total is exactly its
/// available plus its held funds, and neither balance is negative — at
/// every observation point, since `process_transaction` and `lock_account`
/// preserve well-formedness.
pub proof fn lemma_balances_consistent(s: Accounting, client: ClientId)
    requires
        s.wf(),
        s.accounts_map().contains_key(client),
    ensures
        s.accounts_map()[client].total == s.accounts_map()[client].available
            + s.accounts_map()[client].held,
        s.accounts_map()[client].available >= 0,
        s.accounts_map()[client].held >= 0,
{
}

/// Law: a dispute, resolve or chargeback that references a transaction id
/// with no stored transaction is a pure no-op — the account it is
/// dispatched against and the stored history are both unchanged.
pub proof fn lemma_unknown_reference_noop(a: Account, txs: Map<TxId, Transaction>, tx: Transaction)
    requires
        tx.kind is Dispute || tx.kind is Resolve || tx.kind is Chargeback,
        !txs.contains_key(tx.tx),
    ensures
        step_account(a, txs, tx) == a,
        step_txs(txs, a, tx) == txs,
{
}

/// Law: a dispute, resolve or chargeback that references an unknown
/// transaction id leaves the whole engine state `process_transaction`
/// produces identical to the state before, whenever the client's account
/// already exists. (A first reference to a new client still creates its
/// zero-balance account.)
pub proof fn lemma_unknown_reference_engine_unchanged(s: Accounting, tx: Transaction)
    requires
        s.wf(),
        tx.kind is Dispute || tx.kind is Resolve || tx.kind is Chargeback,
        !s.txs_map().contains_key(tx.tx),
        s.accounts_map().contains_key(tx.client),
    ensures
        s.accounts_map().insert(
            tx.client,
            step_account(account_or_new(s.accounts_map(), tx.client), s.txs_map(), tx),
        ) == s.accounts_map(),
        step_txs(s.txs_map(), account_or_new(s.accounts_map(), tx.client), tx) == s.txs_map(),
{
    assert(s.accounts_map().insert(tx.client, s.accounts_map()[tx.client]) =~= s.accounts_map());
}

/// Law: a lock is terminal — dispatching any transaction against a locked
/// account leaves the account and the stored history unchanged. Only
/// `lock_account`, the explicit administrative unlock, clears the flag.
pub proof fn lemma_locked_account_terminal(
    a: Account,
    txs: Map<TxId, Transaction>,
    tx: Transaction,
)
    requires
        a.locked,
    ensures
        step_account(a, txs, tx) == a,
        step_txs(txs, a, tx) == txs,
{
}

/// Law: while the account stored for a client is locked, one
/// `process_transaction` call for that client, of any kind, leaves the
/// whole engine state it produces identical to the state before. (A locked
/// account always exists: fresh accounts are unlocked.)
pub proof fn lemma_locked_engine_unchanged(s: Accounting, tx: Transaction)
    requires
        s.wf(),
        s.accounts_map().contains_key(tx.client),
        s.accounts_map()[tx.client].locked,
    ensures
        s.accounts_map().insert(
            tx.client,
            step_account(account_or_new(s.accounts_map(), tx.client), s.txs_map(), tx),
        ) == s.accounts_map(),
        step_txs(s.txs_map(), account_or_new(s.accounts_map(), tx.client), tx) == s.txs_map(),
{
    assert(s.accounts_map().insert(tx.client, s.accounts_map()[tx.client]) =~= s.accounts_map());
}

} // verus!
