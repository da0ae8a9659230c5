use foundation::ledger::errors::TransferError;
use foundation::ledger::inplace_checked::apply_transfer_by_index_checked;
use foundation::ledger::models::{Lamports, Pubkey, TokenAccount};

fn new_account(owner: u8, mint: u8, amount: u64) -> TokenAccount {
    TokenAccount { owner: Pubkey([owner; 32]), mint: Pubkey([mint; 32]), amount: Lamports(amount) }
}

#[test]
fn happy_path() {
    let mut accounts = vec![new_account(1, 2, 100), new_account(2, 2, 50)];
    let result = apply_transfer_by_index_checked(&mut accounts, 0, 1, Lamports(30), Pubkey([2; 32]));
    assert!(result.is_ok());
    assert_eq!(accounts[0].amount.0, 70);
    assert_eq!(accounts[1].amount.0, 80);
}

#[test]
fn zero_amount_fails() {
    let mut accounts = vec![new_account(1, 2, 100), new_account(2, 2, 100)];
    let result = apply_transfer_by_index_checked(&mut accounts, 0, 1, Lamports(0), Pubkey([2; 32]));
    assert_eq!(result, Err(TransferError::ZeroAmount));
}

#[test]
fn same_owner_fails() {
    let mut accounts = vec![new_account(1, 2, 100), new_account(1, 2, 100)];
    let result = apply_transfer_by_index_checked(&mut accounts, 0, 1, Lamports(10), Pubkey([2; 32]));
    assert_eq!(result, Err(TransferError::SameOwner));
}

#[test]
fn mint_mismatch_fails() {
    let mut accounts = vec![new_account(1, 2, 100), new_account(2, 3, 100)];
    let result = apply_transfer_by_index_checked(&mut accounts, 0, 1, Lamports(10), Pubkey([2; 32]));
    assert!(matches!(result, Err(TransferError::MintMismatch { .. })));
}

#[test]
fn insufficient_funds_fails() {
    let mut accounts = vec![new_account(1, 2, 10), new_account(2, 2, 0)];
    let result = apply_transfer_by_index_checked(&mut accounts, 0, 1, Lamports(50), Pubkey([2; 32]));
    assert!(matches!(result, Err(TransferError::InsufficientFunds { .. })));
}

#[test]
fn index_out_of_bounds_fails() {
    let mut accounts = vec![new_account(1, 2, 100), new_account(2, 2, 100)];
    let result = apply_transfer_by_index_checked(&mut accounts, 0, 2, Lamports(10), Pubkey([2; 32]));
    assert!(matches!(result, Err(TransferError::IndexOutOfBounds { .. })));
}

#[test]
fn overflow_to_balance_fails() {
    let mut accounts = vec![
        new_account(1, 2, 100),
        TokenAccount {
            owner: Pubkey([2; 32]),
            mint: Pubkey([2; 32]),
            amount: Lamports(u64::MAX - 50),
        },
    ];
    let result =
        apply_transfer_by_index_checked(&mut accounts, 0, 1, Lamports(100), Pubkey([2; 32]));
    assert_eq!(result, Err(TransferError::OverflowToBalance));
}
