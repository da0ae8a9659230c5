//! The earliest engine shape: a pure precondition test and a consuming
//! applier that returns fresh account values and a receipt.

use vstd::prelude::*;

use crate::digits::{decimal_digits, u64_to_string};
use crate::ledger::models::{base58_of, Lamports, Pubkey, TokenAccount, Transfer};
use vstd::string::StringExecFns;

verus! {

/// One line describing an account: owner and mint in base58, the
/// balance in decimal.
pub fn account_summary(acc: &TokenAccount) -> (r: String)
    ensures
        r@ == "Owner: "@ + base58_of(acc.owner.0@) + ", mint: "@ + base58_of(acc.mint.0@)
            + ", amount: "@ + decimal_digits(acc.amount.0 as nat),
{
    let mut s = String::from_str("Owner: ");
    s.append(acc.owner.to_base58().as_str());
    s.append(", mint: ");
    s.append(acc.mint.to_base58().as_str());
    s.append(", amount: ");
    s.append(u64_to_string(acc.amount.0).as_str());
    s
}

/// Whether a transfer of `amount` in token `mint` may move between the
/// two accounts: covering balance, matching mints, distinct owners.
/// (This early check does not reject a zero amount.)
pub fn can_transfer(
    from: &TokenAccount,
    to: &TokenAccount,
    amount: Lamports,
    mint: Pubkey,
) -> (r: bool)
    ensures
        r <==> from.amount.0 >= amount.0 && from.mint == mint && to.mint == mint && from.owner
            != to.owner,
{
    from.amount.0 >= amount.0 && from.mint == mint && to.mint == mint && from.owner != to.owner
}

/// Consumes the two accounts and yields their post-transfer values
/// together with the receipt. The pair of balances is conserved.
pub fn transfer_consume(
    from: TokenAccount,
    to: TokenAccount,
    amount: Lamports,
    mint: Pubkey,
) -> (r: (TokenAccount, TokenAccount, Transfer))
    requires
        from.amount.0 >= amount.0,
        to.amount.0 + amount.0 <= u64::MAX,
    ensures
        r.0 == (TokenAccount { amount: Lamports((from.amount.0 - amount.0) as u64), ..from }),
        r.1 == (TokenAccount { amount: Lamports((to.amount.0 + amount.0) as u64), ..to }),
        r.2 == (Transfer { from: from.owner, to: to.owner, mint, amount }),
        r.0.amount.0 + r.1.amount.0 == from.amount.0 + to.amount.0,
{
    let new_from = TokenAccount {
        owner: from.owner,
        mint: from.mint,
        amount: Lamports(from.amount.0 - amount.0),
    };
    let new_to = TokenAccount {
        owner: to.owner,
        mint: to.mint,
        amount: Lamports(to.amount.0 + amount.0),
    };
    let transfer = Transfer { from: from.owner, to: to.owner, mint, amount };
    (new_from, new_to, transfer)
}

} // verus!
