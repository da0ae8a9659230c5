//! The pure validator: checks a proposed transfer against snapshots of
//! the two accounts, in a fixed order, and reports the first failing
//! check.

use vstd::prelude::*;

use crate::ledger::errors::TransferError;
use crate::ledger::models::{Lamports, Pubkey, TokenAccount};

verus! {

/// Both accounts hold the requested token.
pub open spec fn mints_match(from: TokenAccount, to: TokenAccount, mint: Pubkey) -> bool {
    from.mint == mint && to.mint == mint
}

/// Every business precondition of a transfer between two account
/// snapshots: a positive amount, distinct owners, matching mints and a
/// covering source balance.
pub open spec fn transfer_allowed(
    from: TokenAccount,
    to: TokenAccount,
    amount: Lamports,
    mint: Pubkey,
) -> bool {
    &&& amount.0 != 0
    &&& from.owner != to.owner
    &&& mints_match(from, to, mint)
    &&& from.amount.0 >= amount.0
}

/// What validation reports, with the checks in their fixed order:
/// zero amount, then same owner, then mint mismatch, then balance.
pub open spec fn validate_result(
    from: TokenAccount,
    to: TokenAccount,
    amount: Lamports,
    mint: Pubkey,
) -> Result<(), TransferError> {
    if amount.0 == 0 {
        Err(TransferError::ZeroAmount)
    } else if from.owner == to.owner {
        Err(TransferError::SameOwner)
    } else if !mints_match(from, to, mint) {
        Err(TransferError::MintMismatch { expected: mint, from: from.mint, to: to.mint })
    } else if from.amount.0 < amount.0 {
        Err(TransferError::InsufficientFunds { have: from.amount, need: amount })
    } else {
        Ok(())
    }
}

/// What the composed transfer-by-index pipeline reports for a store
/// snapshot: bounds first, then index identity, then the validator's
/// checks, then the destination overflow check.
pub open spec fn transfer_check(
    s: Seq<TokenAccount>,
    i: usize,
    j: usize,
    amount: Lamports,
    mint: Pubkey,
) -> Result<(), TransferError> {
    if i >= s.len() || j >= s.len() {
        Err(TransferError::IndexOutOfBounds { len: s.len() as usize, i, j })
    } else if i == j {
        Err(TransferError::SameIndex)
    } else if validate_result(s[i as int], s[j as int], amount, mint) is Err {
        validate_result(s[i as int], s[j as int], amount, mint)
    } else if s[j as int].amount.0 + amount.0 > u64::MAX {
        Err(TransferError::OverflowToBalance)
    } else {
        Ok(())
    }
}

/// The store after a successful transfer: the source debited and the
/// destination credited, everything else untouched.
pub open spec fn transfer_applied(
    s: Seq<TokenAccount>,
    i: usize,
    j: usize,
    amount: Lamports,
) -> Seq<TokenAccount> {
    s.update(
        i as int,
        (TokenAccount { amount: Lamports((s[i as int].amount.0 - amount.0) as u64), ..s[i as int] }),
    ).update(
        j as int,
        (TokenAccount { amount: Lamports((s[j as int].amount.0 + amount.0) as u64), ..s[j as int] }),
    )
}

/// `Ok(())` when `cond` holds, the given error otherwise.
pub fn ensure(cond: bool, err: TransferError) -> (r: Result<(), TransferError>)
    ensures
        cond ==> r == Ok::<(), TransferError>(()),
        !cond ==> r == Err::<(), TransferError>(err),
{
    if cond {
        Ok(())
    } else {
        Err(err)
    }
}

/// Checks a proposed transfer against the two account snapshots.
/// Purely read-only: it takes the accounts by shared reference and
/// mutates nothing; its result is a function of its arguments alone.
pub fn validate_transfer(
    from: &TokenAccount,
    to: &TokenAccount,
    amount: Lamports,
    mint: Pubkey,
) -> (r: Result<(), TransferError>)
    ensures
        r == validate_result(*from, *to, amount, mint),
        r is Ok <==> transfer_allowed(*from, *to, amount, mint),
        amount.0 == 0 ==> r == Err::<(), TransferError>(TransferError::ZeroAmount),
{
    ensure(amount.0 != 0, TransferError::ZeroAmount)?;
    ensure(from.owner != to.owner, TransferError::SameOwner)?;
    ensure(
        from.mint == mint && to.mint == mint,
        TransferError::MintMismatch { expected: mint, from: from.mint, to: to.mint },
    )?;
    ensure(
        from.amount.0 >= amount.0,
        TransferError::InsufficientFunds { have: from.amount, need: amount },
    )?;
    Ok(())
}

/// Every valid transfer goes through: for two distinct in-range
/// indices, a positive amount within the source balance, matching
/// mints, distinct owners and a representable destination balance,
/// the pipeline accepts, the source is debited by exactly the amount,
/// the destination credited by exactly the amount, the two balances
/// together are conserved, and no other account moves.
pub proof fn lemma_valid_transfer_succeeds(
    s: Seq<TokenAccount>,
    i: usize,
    j: usize,
    amount: Lamports,
    mint: Pubkey,
)
    requires
        i < s.len(),
        j < s.len(),
        i != j,
        transfer_allowed(s[i as int], s[j as int], amount, mint),
        s[j as int].amount.0 + amount.0 <= u64::MAX,
    ensures
        transfer_check(s, i, j, amount, mint) is Ok,
        transfer_applied(s, i, j, amount).len() == s.len(),
        transfer_applied(s, i, j, amount)[i as int].amount.0 == s[i as int].amount.0 - amount.0,
        transfer_applied(s, i, j, amount)[j as int].amount.0 == s[j as int].amount.0 + amount.0,
        transfer_applied(s, i, j, amount)[i as int].amount.0 + transfer_applied(
            s,
            i,
            j,
            amount,
        )[j as int].amount.0 == s[i as int].amount.0 + s[j as int].amount.0,
        forall|k: int|
            0 <= k < s.len() && k != i && k != j ==> transfer_applied(s, i, j, amount)[k] == s[k],
{
}

/// Validation is deterministic: two results that both meet
/// `validate_transfer`'s contract for the same inputs are one result.
/// Together with the validator's read-only signature this makes
/// validation side-effect-free and idempotent.
pub proof fn lemma_validate_deterministic(
    from: TokenAccount,
    to: TokenAccount,
    amount: Lamports,
    mint: Pubkey,
    r1: Result<(), TransferError>,
    r2: Result<(), TransferError>,
)
    requires
        r1 == validate_result(from, to, amount, mint),
        r2 == validate_result(from, to, amount, mint),
    ensures
        r1 == r2,
{
}

} // verus!
