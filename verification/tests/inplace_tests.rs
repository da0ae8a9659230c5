use foundation::ledger::inplace::{
    apply_transfer_by_index, apply_transfer_inplace, can_transfer, get_index,
};
use foundation::ledger::models::{Lamports, Pubkey, TokenAccount};

#[test]
fn can_transfer_same_owner() {
    let from = TokenAccount { owner: Pubkey([1; 32]), mint: Pubkey([2; 32]), amount: Lamports(100) };
    let to = TokenAccount { owner: Pubkey([1; 32]), mint: Pubkey([2; 32]), amount: Lamports(300) };

    let result = can_transfer(&from, &to, Lamports(100), Pubkey([2; 32]));
    assert_eq!(result, false);
}

#[test]
fn can_transfer_not_enought_amount() {
    let from = TokenAccount { owner: Pubkey([1; 32]), mint: Pubkey([2; 32]), amount: Lamports(100) };
    let to = TokenAccount { owner: Pubkey([2; 32]), mint: Pubkey([2; 32]), amount: Lamports(300) };

    let result = can_transfer(&from, &to, Lamports(200), Pubkey([2; 32]));
    assert_eq!(result, false);
}

#[test]
fn can_transfer_miss_mint() {
    let from = TokenAccount { owner: Pubkey([1; 32]), mint: Pubkey([2; 32]), amount: Lamports(100) };
    let to = TokenAccount { owner: Pubkey([2; 32]), mint: Pubkey([2; 32]), amount: Lamports(300) };

    let result = can_transfer(&from, &to, Lamports(100), Pubkey([3; 32]));
    assert_eq!(result, false);
}

#[test]
fn can_transfer_happy() {
    let from = TokenAccount { owner: Pubkey([1; 32]), mint: Pubkey([2; 32]), amount: Lamports(100) };
    let to = TokenAccount { owner: Pubkey([2; 32]), mint: Pubkey([2; 32]), amount: Lamports(300) };

    let result = can_transfer(&from, &to, Lamports(100), Pubkey([2; 32]));
    assert_eq!(result, true);
}

#[test]
fn apply_transfer_inplace_happy() {
    let mut from =
        TokenAccount { owner: Pubkey([1; 32]), mint: Pubkey([2; 32]), amount: Lamports(100) };
    let mut to =
        TokenAccount { owner: Pubkey([2; 32]), mint: Pubkey([2; 32]), amount: Lamports(300) };

    apply_transfer_inplace(&mut from, &mut to, Lamports(100), Pubkey([2; 32]));
    let result = from.amount == Lamports(0) && to.amount == Lamports(400);
    let expected = true;
    assert_eq!(result, expected);
}

#[test]
fn get_index_happy() {
    let accounts = vec![
        TokenAccount { owner: Pubkey([1; 32]), mint: Pubkey([9; 32]), amount: Lamports(100) },
        TokenAccount { owner: Pubkey([2; 32]), mint: Pubkey([9; 32]), amount: Lamports(200) },
        TokenAccount { owner: Pubkey([3; 32]), mint: Pubkey([9; 32]), amount: Lamports(300) },
    ];

    let fromi = Pubkey([1; 32]);
    let toj = Pubkey([3; 32]);
    let (i, j) = get_index(&accounts, fromi, toj);

    let result = (i, j) == (0, 2);
    let expected = true;
    assert_eq!(result, expected);
}

#[test]
fn apply_transfer_by_index_happy() {
    let i = 0;
    let j = 2;

    let mut accounts = vec![
        TokenAccount { owner: Pubkey([1; 32]), mint: Pubkey([9; 32]), amount: Lamports(100) },
        TokenAccount { owner: Pubkey([2; 32]), mint: Pubkey([9; 32]), amount: Lamports(200) },
        TokenAccount { owner: Pubkey([3; 32]), mint: Pubkey([9; 32]), amount: Lamports(300) },
    ];

    apply_transfer_by_index(&mut accounts, i, j, Lamports(100), Pubkey([9; 32]));
    let result = accounts[0].amount == Lamports(0) && accounts[2].amount == Lamports(400);
    let expected = true;
    assert_eq!(result, expected);
}

#[test]
fn apply_transfer_by_index_miss_ammount() {
    let i = 0;
    let j = 2;

    let mut accounts = vec![
        TokenAccount { owner: Pubkey([1; 32]), mint: Pubkey([9; 32]), amount: Lamports(100) },
        TokenAccount { owner: Pubkey([2; 32]), mint: Pubkey([9; 32]), amount: Lamports(200) },
        TokenAccount { owner: Pubkey([3; 32]), mint: Pubkey([9; 32]), amount: Lamports(300) },
    ];

    apply_transfer_by_index(&mut accounts, i, j, Lamports(200), Pubkey([9; 32]));
    assert!(accounts[0].amount == Lamports(100) && accounts[2].amount == Lamports(300));
}

#[test]
fn apply_transfer_by_index_same_owner() {
    let i = 0;
    let j = 1;

    let mut accounts = vec![
        TokenAccount { owner: Pubkey([1; 32]), mint: Pubkey([9; 32]), amount: Lamports(100) },
        TokenAccount { owner: Pubkey([1; 32]), mint: Pubkey([9; 32]), amount: Lamports(300) },
    ];

    apply_transfer_by_index(&mut accounts, i, j, Lamports(50), Pubkey([9; 32]));

    assert!(accounts[0].amount == Lamports(100) && accounts[1].amount == Lamports(300));
}

#[test]
fn apply_transfer_by_index_miss_mint() {
    let i = 0;
    let j = 1;

    let mut accounts = vec![
        TokenAccount { owner: Pubkey([1; 32]), mint: Pubkey([9; 32]), amount: Lamports(100) },
        TokenAccount { owner: Pubkey([2; 32]), mint: Pubkey([8; 32]), amount: Lamports(300) },
    ];

    apply_transfer_by_index(&mut accounts, i, j, Lamports(50), Pubkey([9; 32]));

    assert!(accounts[0].amount == Lamports(100) && accounts[1].amount == Lamports(300));
}

#[test]
fn apply_transfer_by_index_zero_amount() {
    let i = 0;
    let j = 1;

    let mut accounts = vec![
        TokenAccount { owner: Pubkey([1; 32]), mint: Pubkey([9; 32]), amount: Lamports(100) },
        TokenAccount { owner: Pubkey([2; 32]), mint: Pubkey([9; 32]), amount: Lamports(300) },
    ];

    apply_transfer_by_index(&mut accounts, i, j, Lamports(0), Pubkey([9; 32]));

    assert!(accounts[0].amount == Lamports(100) && accounts[1].amount == Lamports(300));
}

#[test]
fn inplace_account_summary_shows_fields() {
    let acc = TokenAccount { owner: Pubkey([1; 32]), mint: Pubkey([9; 32]), amount: Lamports(100) };
    let summary = foundation::ledger::inplace::account_summary(&acc);
    assert!(summary.contains("owner: "));
    assert!(summary.contains("amount: 100 lamports"));
    assert!(summary.contains(&bs58::encode([9u8; 32]).into_string()));
}
