use foundation::ledger::errors::TransferError;
use foundation::ledger::models::{Lamports, Pubkey, TokenAccount};
use foundation::ledger::validate::{ensure, validate_transfer};

#[test]
fn check_validate_transfer_same_owner() {
    let from = TokenAccount { owner: Pubkey([1; 32]), mint: Pubkey([2; 32]), amount: Lamports(100) };
    let to = TokenAccount { owner: Pubkey([1; 32]), mint: Pubkey([2; 32]), amount: Lamports(300) };
    let result = validate_transfer(&from, &to, Lamports(100), Pubkey([2; 32]));
    assert_eq!(result, Err(TransferError::SameOwner));
}

#[test]
fn check_validate_transfer_zero_amount() {
    let from = TokenAccount { owner: Pubkey([1; 32]), mint: Pubkey([2; 32]), amount: Lamports(100) };
    let to = TokenAccount { owner: Pubkey([1; 32]), mint: Pubkey([2; 32]), amount: Lamports(300) };
    let result = validate_transfer(&from, &to, Lamports(0), Pubkey([2; 32]));
    assert_eq!(result, Err(TransferError::ZeroAmount));
}

#[test]
fn check_validate_transfer_mint_missing() {
    let from = TokenAccount { owner: Pubkey([2; 32]), mint: Pubkey([2; 32]), amount: Lamports(100) };
    let to = TokenAccount { owner: Pubkey([1; 32]), mint: Pubkey([2; 32]), amount: Lamports(300) };
    let result = validate_transfer(&from, &to, Lamports(100), Pubkey([3; 32]));
    assert_eq!(
        result,
        Err(TransferError::MintMismatch { expected: Pubkey([3; 32]), from: from.mint, to: to.mint })
    );
}

#[test]
fn validate_check_validate_transfer_same_owner() {
    let from = TokenAccount { owner: Pubkey([1; 32]), mint: Pubkey([2; 32]), amount: Lamports(100) };
    let to = TokenAccount { owner: Pubkey([1; 32]), mint: Pubkey([2; 32]), amount: Lamports(300) };

    let result = validate_transfer(&from, &to, Lamports(100), Pubkey([2; 32]));
    assert_eq!(result, Err(TransferError::SameOwner));
}

// The checks run in their fixed order: a positive requested amount
// passes the first check even when the source balance is empty, so
// the shared owner is what gets reported here.
#[test]
fn validate_check_validate_transfer_zero_amount() {
    let from = TokenAccount { owner: Pubkey([1; 32]), mint: Pubkey([2; 32]), amount: Lamports(0) };
    let to = TokenAccount { owner: Pubkey([1; 32]), mint: Pubkey([2; 32]), amount: Lamports(300) };

    let result = validate_transfer(&from, &to, Lamports(100), Pubkey([2; 32]));
    assert_eq!(result, Err(TransferError::SameOwner));
}

#[test]
fn validate_check_validate_transfer_mint_missing() {
    let from = TokenAccount { owner: Pubkey([2; 32]), mint: Pubkey([2; 32]), amount: Lamports(100) };
    let to = TokenAccount { owner: Pubkey([1; 32]), mint: Pubkey([2; 32]), amount: Lamports(300) };

    let result = validate_transfer(&from, &to, Lamports(100), Pubkey([3; 32]));
    assert_eq!(
        result,
        Err(TransferError::MintMismatch { expected: Pubkey([3; 32]), from: from.mint, to: to.mint })
    );
}

#[test]
fn ensure_reports_the_given_error() {
    assert_eq!(ensure(true, TransferError::ZeroAmount), Ok(()));
    assert_eq!(ensure(false, TransferError::SameIndex), Err(TransferError::SameIndex));
}

#[test]
fn validate_is_idempotent_and_pure() {
    let from = TokenAccount { owner: Pubkey([1; 32]), mint: Pubkey([2; 32]), amount: Lamports(100) };
    let to = TokenAccount { owner: Pubkey([2; 32]), mint: Pubkey([2; 32]), amount: Lamports(300) };
    let before = (from, to);

    let first = validate_transfer(&from, &to, Lamports(40), Pubkey([2; 32]));
    let second = validate_transfer(&from, &to, Lamports(40), Pubkey([2; 32]));
    assert_eq!(first, Ok(()));
    assert_eq!(first, second);
    assert_eq!((from, to), before);
}
