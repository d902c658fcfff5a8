//! Tests of the random test-data generator: every generated record keeps
//! the contracted ranges, and the whole batch can be processed.

use tx_sim::{Accounting, TxType};

#[test]
fn test_generate_transactions() {
    let num_transactions = 1000;
    let num_accounts = 10;

    let mut accounting = Accounting::init();

    for tx in Accounting::generate_dummy_transactions(num_transactions, num_accounts) {
        accounting.process_transaction(tx);
    }
}

#[test]
fn test_generated_transactions_within_ranges() {
    let num_transactions = 1000;
    let num_accounts = 10;

    let transactions = Accounting::generate_dummy_transactions(num_transactions, num_accounts);

    assert_eq!(transactions.len(), num_transactions as usize);

    for t in &transactions {
        assert!(1 <= t.tx && t.tx <= num_transactions);
        assert!(1 <= t.client && t.client <= num_accounts);
        assert!(!matches!(t.kind, TxType::Unknown));
        match t.kind {
            TxType::Deposit | TxType::Withdrawal => {
                let amount = t.amount.expect("deposits and withdrawals carry an amount");
                assert!((3_000..=15_000_000).contains(&amount));
            }
            _ => assert!(t.amount.is_none()),
        }
    }
}
