//! The checked transfer path: a two-index accessor with an explicit
//! bounds/identity error, an applier that commits both balance writes
//! together or not at all, and the composed by-index operation.

use vstd::prelude::*;

use crate::digits::{decimal_digits, u64_to_string, usize_to_string};
use crate::ledger::error_format::{seq_concat5, seq_concat6};
use crate::ledger::errors::TransferError;
use crate::ledger::models::{base58_of, Lamports, Pubkey, TokenAccount};
use crate::ledger::validate::{transfer_applied, transfer_check, validate_transfer};
use vstd::string::StringExecFns;

verus! {

/// One line describing a transfer error, payload fields written in.
pub fn format_error(e: &TransferError) -> (r: String)
    ensures
        e is SameOwner ==> r@ == "Source and destination owners are the same"@,
        e is ZeroAmount ==> r@ == "Transfer amount cannot be zero"@,
        e matches TransferError::MintMismatch { expected, from, to } ==> r@ == seq_concat6(
            "Mint mismatch: expected "@,
            base58_of(expected.0@),
            ", from "@,
            base58_of(from.0@),
            ", to "@,
            base58_of(to.0@),
        ),
        e matches TransferError::InsufficientFunds { have, need } ==> r@ == seq_concat5(
            "Not enough funds: have "@,
            decimal_digits(have.0 as nat),
            " lamports, need "@,
            decimal_digits(need.0 as nat),
            " lamports"@,
        ),
        e is OverflowToBalance ==> r@ == "Balance overflow on destination account"@,
        e is SameIndex ==> r@ == "Source and destination indexes are the same"@,
        e matches TransferError::IndexOutOfBounds { len, i, j } ==> r@ == seq_concat6(
            "Index out of bounds: len="@,
            decimal_digits(len as nat),
            ", i="@,
            decimal_digits(i as nat),
            ", j="@,
            decimal_digits(j as nat),
        ),
        e is AliasingDetected ==> r@
            == "Aliasing detected: cannot borrow same account mutably twice"@,
        e matches TransferError::InvalidInput(msg) ==> r@ == "Invalid input: "@ + msg@,
{
    match e {
        TransferError::SameOwner => String::from_str(
            "Source and destination owners are the same",
        ),
        TransferError::ZeroAmount => String::from_str("Transfer amount cannot be zero"),
        TransferError::MintMismatch { expected, from, to } => {
            let mut s = String::from_str("Mint mismatch: expected ");
            s.append(expected.to_base58().as_str());
            s.append(", from ");
            s.append(from.to_base58().as_str());
            s.append(", to ");
            s.append(to.to_base58().as_str());
            s
        },
        TransferError::InsufficientFunds { have, need } => {
            let mut s = String::from_str("Not enough funds: have ");
            s.append(u64_to_string(have.0).as_str());
            s.append(" lamports, need ");
            s.append(u64_to_string(need.0).as_str());
            s.append(" lamports");
            s
        },
        TransferError::OverflowToBalance => String::from_str(
            "Balance overflow on destination account",
        ),
        TransferError::SameIndex => String::from_str(
            "Source and destination indexes are the same",
        ),
        TransferError::IndexOutOfBounds { len, i, j } => {
            let mut s = String::from_str("Index out of bounds: len=");
            s.append(usize_to_string(*len).as_str());
            s.append(", i=");
            s.append(usize_to_string(*i).as_str());
            s.append(", j=");
            s.append(usize_to_string(*j).as_str());
            s
        },
        TransferError::AliasingDetected => String::from_str(
            "Aliasing detected: cannot borrow same account mutably twice",
        ),
        TransferError::InvalidInput(msg) => {
            let mut s = String::from_str("Invalid input: ");
            s.append(msg.as_str());
            s
        },
    }
}

/// Resolves two distinct indices of the store to snapshots of the two
/// accounts; `None` when an index is out of range or the two are equal.
pub fn get_two_accounts(
    accounts: &Vec<TokenAccount>,
    i: usize,
    j: usize,
) -> (r: Option<(TokenAccount, TokenAccount)>)
    ensures
        r is Some <==> i < accounts.len() && j < accounts.len() && i != j,
        r matches Some(p) ==> p.0 == accounts@[i as int] && p.1 == accounts@[j as int],
{
    let len = accounts.len();
    if i >= len || j >= len {
        return None;
    }
    if i == j {
        return None;
    }
    Some((accounts[i], accounts[j]))
}

/// Applies an already-validated transfer with checked arithmetic.
/// Both new balances are computed before either account is written, so
/// the two writes commit together: on any error neither account moves.
pub fn apply_transfer_inplace_checked(
    from: &mut TokenAccount,
    to: &mut TokenAccount,
    amount: Lamports,
    mint: Pubkey,
) -> (r: Result<(), TransferError>)
    ensures
        old(from).amount.0 < amount.0 ==> r == Err::<(), TransferError>(
            TransferError::InsufficientFunds { have: old(from).amount, need: amount },
        ),
        old(from).amount.0 >= amount.0 && old(to).amount.0 + amount.0 > u64::MAX ==> r == Err::<
            (),
            TransferError,
        >(TransferError::OverflowToBalance),
        r is Err ==> *final(from) == *old(from) && *final(to) == *old(to),
        old(from).amount.0 >= amount.0 && old(to).amount.0 + amount.0 <= u64::MAX ==> {
            &&& r == Ok::<(), TransferError>(())
            &&& *final(from) == (TokenAccount {
                amount: Lamports((old(from).amount.0 - amount.0) as u64),
                ..*old(from)
            })
            &&& *final(to) == (TokenAccount {
                amount: Lamports((old(to).amount.0 + amount.0) as u64),
                ..*old(to)
            })
        },
        r is Ok ==> final(from).amount.0 + final(to).amount.0 == old(from).amount.0 + old(
            to,
        ).amount.0,
{
    let new_from = match from.amount.0.checked_sub(amount.0) {
        Some(v) => v,
        None => {
            return Err(TransferError::InsufficientFunds { have: from.amount, need: amount });
        },
    };
    let new_to = match to.amount.0.checked_add(amount.0) {
        Some(v) => v,
        None => {
            return Err(TransferError::OverflowToBalance);
        },
    };
    from.amount = Lamports(new_from);
    to.amount = Lamports(new_to);
    Ok(())
}

/// The composed checked operation on the store: resolve both indices,
/// validate against snapshots, then debit and credit atomically. No
/// account moves unless every stage succeeds.
pub fn apply_transfer_by_index_checked(
    accounts: &mut Vec<TokenAccount>,
    i: usize,
    j: usize,
    amount: Lamports,
    mint: Pubkey,
) -> (r: Result<(), TransferError>)
    ensures
        r is Ok <==> transfer_check(old(accounts)@, i, j, amount, mint) is Ok,
        transfer_check(old(accounts)@, i, j, amount, mint) matches Err(e) ==> r == Err::<
            (),
            TransferError,
        >(e),
        r is Err ==> final(accounts)@ == old(accounts)@,
        r is Ok ==> final(accounts)@ == transfer_applied(old(accounts)@, i, j, amount),
        r is Ok ==> final(accounts)@[i as int].amount.0 + final(accounts)@[j as int].amount.0
            == old(accounts)@[i as int].amount.0 + old(accounts)@[j as int].amount.0,
        i >= old(accounts).len() || j >= old(accounts).len() ==> r == Err::<(), TransferError>(
            TransferError::IndexOutOfBounds { len: old(accounts).len(), i, j },
        ),
        i == j && i < old(accounts).len() ==> r == Err::<(), TransferError>(
            TransferError::SameIndex,
        ),
        i != j && i < old(accounts).len() && j < old(accounts).len() && amount.0 == 0 ==> r
            == Err::<(), TransferError>(TransferError::ZeroAmount),
{
    let len = accounts.len();
    if i >= len || j >= len {
        return Err(TransferError::IndexOutOfBounds { len, i, j });
    }
    if i == j {
        return Err(TransferError::SameIndex);
    }
    let mut from = accounts[i];
    let mut to = accounts[j];
    match validate_transfer(&from, &to, amount, mint) {
        Err(e) => {
            return Err(e);
        },
        Ok(()) => {},
    }
    match apply_transfer_inplace_checked(&mut from, &mut to, amount, mint) {
        Err(e) => {
            return Err(e);
        },
        Ok(()) => {},
    }
    accounts.set(i, from);
    accounts.set(j, to);
    Ok(())
}

} // verus!
