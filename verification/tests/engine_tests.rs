use foundation::ledger::engine::{account_summary, can_transfer, transfer_consume};
use foundation::ledger::models::{Lamports, Pubkey, TokenAccount, Transfer};

#[test]
fn check_can_transfer_happy() {
    let from = TokenAccount { owner: Pubkey([1; 32]), mint: Pubkey([2; 32]), amount: Lamports(100) };
    let to = TokenAccount { owner: Pubkey([2; 32]), mint: Pubkey([2; 32]), amount: Lamports(300) };
    let result = can_transfer(&from, &to, Lamports(100), Pubkey([2; 32]));
    assert_eq!(result, true);
}

#[test]
fn check_can_transfer_bigger_amount() {
    let from = TokenAccount { owner: Pubkey([1; 32]), mint: Pubkey([2; 32]), amount: Lamports(100) };
    let to = TokenAccount { owner: Pubkey([2; 32]), mint: Pubkey([2; 32]), amount: Lamports(300) };
    let result = can_transfer(&from, &to, Lamports(200), Pubkey([2; 32]));
    assert_eq!(result, false);
}

#[test]
fn check_can_transfer_miss_mint() {
    let from = TokenAccount { owner: Pubkey([1; 32]), mint: Pubkey([2; 32]), amount: Lamports(100) };
    let to = TokenAccount { owner: Pubkey([2; 32]), mint: Pubkey([2; 32]), amount: Lamports(300) };
    let result = can_transfer(&from, &to, Lamports(200), Pubkey([3; 32]));
    assert_eq!(result, false);
}

#[test]
fn check_can_transfer_same_owner() {
    let from = TokenAccount { owner: Pubkey([1; 32]), mint: Pubkey([2; 32]), amount: Lamports(100) };
    let to = TokenAccount { owner: Pubkey([1; 32]), mint: Pubkey([2; 32]), amount: Lamports(300) };
    let result = can_transfer(&from, &to, Lamports(200), Pubkey([2; 32]));
    assert_eq!(result, false);
}

#[test]
fn check_transfer_consume_happy() {
    let from = TokenAccount { owner: Pubkey([1; 32]), mint: Pubkey([2; 32]), amount: Lamports(100) };
    let to = TokenAccount { owner: Pubkey([2; 32]), mint: Pubkey([2; 32]), amount: Lamports(300) };
    let expected = (
        TokenAccount { owner: Pubkey([1; 32]), mint: Pubkey([2; 32]), amount: Lamports(0) },
        TokenAccount { owner: Pubkey([2; 32]), mint: Pubkey([2; 32]), amount: Lamports(400) },
        Transfer {
            from: Pubkey([1; 32]),
            to: Pubkey([2; 32]),
            mint: Pubkey([2; 32]),
            amount: Lamports(100),
        },
    );

    let result = transfer_consume(from, to, Lamports(100), Pubkey([2; 32]));

    assert_eq!(result, expected);
}

#[test]
fn amount_too_high_should_fail() {
    let from = TokenAccount { owner: Pubkey([1; 32]), mint: Pubkey([2; 32]), amount: Lamports(100) };
    let to = TokenAccount { owner: Pubkey([2; 32]), mint: Pubkey([2; 32]), amount: Lamports(300) };
    let expected = false;

    let result = can_transfer(&from, &to, Lamports(200), Pubkey([2; 32]));

    assert_eq!(result, expected);
}

#[test]
fn check_account_summary() {
    let acc = TokenAccount { owner: Pubkey([1; 32]), mint: Pubkey([2; 32]), amount: Lamports(100) };

    let summary = account_summary(&acc);

    assert!(summary.contains("amount: 100"));
    assert!(summary.contains("Owner:"));
    assert!(summary.contains("mint:"));
}

#[test]
fn check_display_lamports() {
    let amount = Lamports(12345);
    let printed = amount.to_text();
    assert_eq!(printed, "12345 lamports");
}

#[test]
fn base58_matches_reference() {
    let key = Pubkey([1; 32]);
    let expected = bs58::encode(key.0).into_string();
    assert_eq!(key.to_base58(), expected);
    assert_ne!(key.to_base58(), String::from_utf8(key.0.to_vec()).unwrap());
}
