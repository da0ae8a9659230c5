use foundation::ledger::checked_apply;
use foundation::ledger::errors::{ParseError, TransferError};
use foundation::ledger::inplace_checked::{format_error, get_two_accounts};
use foundation::ledger::models::{Lamports, Pubkey, TokenAccount};
use foundation::ledger::service::{apply_transfer, parse_index, parse_lamports, parse_mint};

fn account(owner: u8, mint: u8, amount: u64) -> TokenAccount {
    TokenAccount { owner: Pubkey([owner; 32]), mint: Pubkey([mint; 32]), amount: Lamports(amount) }
}

#[test]
fn scenario_successful_transfer_conserves_value() {
    let mint = Pubkey([7; 32]);
    let mut accounts = vec![account(1, 7, 100), account(2, 7, 50)];
    let res = apply_transfer(&mut accounts, 0, 1, Lamports(30), mint);
    assert!(res.is_ok());
    assert_eq!(accounts[0].amount, Lamports(70));
    assert_eq!(accounts[1].amount, Lamports(80));
    assert_eq!(accounts[0].amount.0 + accounts[1].amount.0, 150);
}

#[test]
fn scenario_zero_amount_rejected_unchanged() {
    let mint = Pubkey([7; 32]);
    let mut accounts = vec![account(1, 7, 100), account(2, 7, 50)];
    let res = apply_transfer(&mut accounts, 0, 1, Lamports(0), mint);
    assert_eq!(res, Err(TransferError::ZeroAmount));
    assert_eq!(accounts[0].amount, Lamports(100));
    assert_eq!(accounts[1].amount, Lamports(50));
}

#[test]
fn scenario_destination_mint_mismatch() {
    let mint = Pubkey([7; 32]);
    let mut accounts = vec![account(1, 7, 100), account(2, 8, 50)];
    let res = apply_transfer(&mut accounts, 0, 1, Lamports(30), mint);
    assert_eq!(
        res,
        Err(TransferError::MintMismatch {
            expected: mint,
            from: Pubkey([7; 32]),
            to: Pubkey([8; 32]),
        })
    );
}

#[test]
fn scenario_insufficient_funds_payload() {
    let mint = Pubkey([7; 32]);
    let mut accounts = vec![account(1, 7, 10), account(2, 7, 50)];
    let res = apply_transfer(&mut accounts, 0, 1, Lamports(50), mint);
    assert_eq!(
        res,
        Err(TransferError::InsufficientFunds { have: Lamports(10), need: Lamports(50) })
    );
}

#[test]
fn scenario_overflow_leaves_source_untouched() {
    let mint = Pubkey([7; 32]);
    let mut accounts = vec![account(1, 7, 100), account(2, 7, u64::MAX - 5)];
    let res = apply_transfer(&mut accounts, 0, 1, Lamports(10), mint);
    assert_eq!(res, Err(TransferError::OverflowToBalance));
    assert_eq!(accounts[0].amount, Lamports(100));
    assert_eq!(accounts[1].amount, Lamports(u64::MAX - 5));
}

#[test]
fn out_of_range_error_carries_exact_indices() {
    let mint = Pubkey([7; 32]);
    let mut accounts = vec![account(1, 7, 100), account(2, 7, 50)];
    let res = apply_transfer(&mut accounts, 5, 7, Lamports(10), mint);
    assert_eq!(res, Err(TransferError::IndexOutOfBounds { len: 2, i: 5, j: 7 }));
}

#[test]
fn same_index_beats_mint_and_balance_checks() {
    let mint = Pubkey([9; 32]);
    let mut accounts = vec![account(1, 7, 0), account(2, 8, 0)];
    let res = apply_transfer(&mut accounts, 1, 1, Lamports(10), mint);
    assert_eq!(res, Err(TransferError::SameIndex));
}

#[test]
fn get_two_accounts_orients_handles() {
    let accounts = vec![account(1, 7, 100), account(2, 7, 50)];
    let (from, to) = get_two_accounts(&accounts, 1, 0).unwrap();
    assert_eq!(from.owner, Pubkey([2; 32]));
    assert_eq!(to.owner, Pubkey([1; 32]));
    assert!(get_two_accounts(&accounts, 0, 0).is_none());
    assert!(get_two_accounts(&accounts, 0, 2).is_none());
}

#[test]
fn checked_apply_validates_itself() {
    let mint = Pubkey([7; 32]);
    let mut from = account(1, 7, 100);
    let mut to = account(2, 7, 50);
    let res = checked_apply::apply_transfer_inplace_checked(&mut from, &mut to, Lamports(30), mint);
    assert_eq!(res, Ok(()));
    assert_eq!(from.amount, Lamports(70));
    assert_eq!(to.amount, Lamports(80));

    let res = checked_apply::apply_transfer_inplace_checked(&mut from, &mut to, Lamports(0), mint);
    assert_eq!(res, Err(TransferError::ZeroAmount));
    assert_eq!(from.amount, Lamports(70));
    assert_eq!(to.amount, Lamports(80));
}

#[test]
fn parse_rejects_overflowing_values() {
    assert_eq!(parse_lamports("18446744073709551615").unwrap(), Lamports(u64::MAX));
    assert_eq!(parse_lamports("18446744073709551616"), Err(ParseError::InvalidAmountFormat));
    assert_eq!(parse_lamports("  77  ").unwrap(), Lamports(77));
    assert_eq!(parse_lamports(""), Err(ParseError::InvalidAmountFormat));
    assert_eq!(parse_index("9a"), Err(ParseError::InvalidIndexFormat));
}

#[test]
fn parse_accepts_one_leading_plus_sign() {
    assert_eq!(parse_lamports("+5").unwrap(), Lamports(5));
    assert_eq!(parse_index("+1").unwrap(), 1);
    assert_eq!(parse_mint("+2").unwrap(), Pubkey([2; 32]));
    assert_eq!(parse_lamports("+"), Err(ParseError::InvalidAmountFormat));
    assert_eq!(parse_lamports("++1"), Err(ParseError::InvalidAmountFormat));
    assert_eq!(parse_index("-0"), Err(ParseError::InvalidIndexFormat));
    assert_eq!(parse_lamports("+007").unwrap(), Lamports(7));
}

#[test]
fn parse_trims_unicode_whitespace() {
    assert_eq!(parse_lamports("\u{00A0}7\u{2003}").unwrap(), Lamports(7));
    assert_eq!(parse_index("\u{2028}3 ").unwrap(), 3);
    assert_eq!(parse_lamports("\u{00A0}"), Err(ParseError::InvalidAmountFormat));
}

#[test]
fn parse_error_messages_are_fixed() {
    assert_eq!(ParseError::InvalidAmountFormat.message(), "invalid amount format");
    assert_eq!(ParseError::InvalidIndexFormat.message(), "invalid index format");
    assert_eq!(ParseError::InvalidMintFormat.message(), "invalid mint format");
    assert_eq!(ParseError::InvalidNameFormat.message(), "invalid name format");
    let wrapped = TransferError::from_parse(ParseError::InvalidAmountFormat);
    assert_eq!(wrapped, TransferError::InvalidInput("invalid amount format".to_string()));
}

#[test]
fn format_error_writes_payloads() {
    let msg = format_error(&TransferError::InsufficientFunds {
        have: Lamports(10),
        need: Lamports(50),
    });
    assert_eq!(msg, "Not enough funds: have 10 lamports, need 50 lamports");
    let msg = format_error(&TransferError::IndexOutOfBounds { len: 3, i: 5, j: 7 });
    assert_eq!(msg, "Index out of bounds: len=3, i=5, j=7");
    let msg = format_error(&TransferError::ZeroAmount);
    assert_eq!(msg, "Transfer amount cannot be zero");
}
