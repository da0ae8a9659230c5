//! The self-contained checked applier: it re-runs validation itself
//! before the checked balance mutation, so a caller needs no separate
//! validation step.

use vstd::prelude::*;

use crate::ledger::errors::TransferError;
use crate::ledger::models::{Lamports, Pubkey, TokenAccount};
use crate::ledger::validate::{validate_result, validate_transfer};

verus! {

/// Validates the transfer against the two accounts and, when every
/// check passes, debits and credits them with checked arithmetic.
/// Both writes commit together: on any error neither account moves.
pub fn apply_transfer_inplace_checked(
    from: &mut TokenAccount,
    to: &mut TokenAccount,
    amount: Lamports,
    mint: Pubkey,
) -> (r: Result<(), TransferError>)
    ensures
        validate_result(*old(from), *old(to), amount, mint) matches Err(e) ==> r == Err::<
            (),
            TransferError,
        >(e),
        validate_result(*old(from), *old(to), amount, mint) is Ok && old(to).amount.0 + amount.0
            > u64::MAX ==> r == Err::<(), TransferError>(TransferError::OverflowToBalance),
        r is Err ==> *final(from) == *old(from) && *final(to) == *old(to),
        validate_result(*old(from), *old(to), amount, mint) is Ok && old(to).amount.0 + amount.0
            <= u64::MAX ==> {
            &&& r == Ok::<(), TransferError>(())
            &&& *final(from) == (TokenAccount {
                amount: Lamports((old(from).amount.0 - amount.0) as u64),
                ..*old(from)
            })
            &&& *final(to) == (TokenAccount {
                amount: Lamports((old(to).amount.0 + amount.0) as u64),
                ..*old(to)
            })
        },
        r is Ok ==> final(from).amount.0 + final(to).amount.0 == old(from).amount.0 + old(
            to,
        ).amount.0,
{
    match validate_transfer(from, to, amount, mint) {
        Err(e) => {
            return Err(e);
        },
        Ok(()) => {},
    }
    let new_from = match from.amount.0.checked_sub(amount.0) {
        Some(v) => v,
        None => {
            return Err(TransferError::InsufficientFunds { have: from.amount, need: amount });
        },
    };
    let new_to = match to.amount.0.checked_add(amount.0) {
        Some(v) => v,
        None => {
            return Err(TransferError::OverflowToBalance);
        },
    };
    from.amount = Lamports(new_from);
    to.amount = Lamports(new_to);
    Ok(())
}

} // verus!
