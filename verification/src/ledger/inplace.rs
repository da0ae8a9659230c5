//! The in-place engine shape: a full precondition test, owner lookup,
//! and appliers that mutate the accounts where they stand. The
//! appliers here demand their preconditions instead of reporting
//! typed errors; the checked modules replace that contract.

use vstd::prelude::*;

use crate::digits::decimal_digits;
use crate::ledger::models::{base58_of, Lamports, Pubkey, TokenAccount};
use crate::ledger::validate::{transfer_allowed, transfer_applied};
use vstd::string::StringExecFns;

verus! {

/// One line describing an account, each field in its display form.
pub fn account_summary(acc: &TokenAccount) -> (r: String)
    ensures
        r@ == "owner: "@ + base58_of(acc.owner.0@) + ", amount: "@ + decimal_digits(
            acc.amount.0 as nat,
        ) + " lamports"@ + ", mint: "@ + base58_of(acc.mint.0@),
{
    let mut s = String::from_str("owner: ");
    s.append(acc.owner.to_base58().as_str());
    s.append(", amount: ");
    s.append(acc.amount.to_text().as_str());
    s.append(", mint: ");
    s.append(acc.mint.to_base58().as_str());
    s
}

/// Whether a transfer of `amount` in token `mint` may move between the
/// two accounts: distinct owners, covering balance, matching mints and
/// a non-zero amount.
pub fn can_transfer(
    from: &TokenAccount,
    to: &TokenAccount,
    amount: Lamports,
    mint: Pubkey,
) -> (r: bool)
    ensures
        r == transfer_allowed(*from, *to, amount, mint),
{
    from.owner != to.owner && from.amount.0 >= amount.0 && from.mint == mint && to.mint == mint
        && amount.0 != 0
}

/// Debits `from` and credits `to` in place. Demands the transfer
/// preconditions up front; the pair of balances is conserved.
pub fn apply_transfer_inplace(
    from: &mut TokenAccount,
    to: &mut TokenAccount,
    amount: Lamports,
    mint: Pubkey,
)
    requires
        old(from).amount.0 >= amount.0,
        old(from).owner != old(to).owner,
        old(from).mint == mint && mint == old(to).mint,
        old(to).amount.0 + amount.0 <= u64::MAX,
    ensures
        *final(from) == (TokenAccount {
            amount: Lamports((old(from).amount.0 - amount.0) as u64),
            ..*old(from)
        }),
        *final(to) == (TokenAccount {
            amount: Lamports((old(to).amount.0 + amount.0) as u64),
            ..*old(to)
        }),
        final(from).amount.0 + final(to).amount.0 == old(from).amount.0 + old(to).amount.0,
{
    from.amount.0 = from.amount.0 - amount.0;
    to.amount.0 = to.amount.0 + amount.0;
}

/// Looks both owner keys up in the store and reports the first index
/// holding each; an owner that is not present reports index 0.
pub fn get_index(acc: &Vec<TokenAccount>, fromi: Pubkey, toj: Pubkey) -> (r: (usize, usize))
    ensures
        (exists|k: int| 0 <= k < acc@.len() && acc@[k].owner == fromi) ==> {
            &&& r.0 < acc@.len()
            &&& acc@[r.0 as int].owner == fromi
            &&& forall|m: int| 0 <= m < r.0 ==> acc@[m].owner != fromi
        },
        (forall|k: int| 0 <= k < acc@.len() ==> acc@[k].owner != fromi) ==> r.0 == 0,
        (exists|k: int| 0 <= k < acc@.len() && acc@[k].owner == toj) ==> {
            &&& r.1 < acc@.len()
            &&& acc@[r.1 as int].owner == toj
            &&& forall|m: int| 0 <= m < r.1 ==> acc@[m].owner != toj
        },
        (forall|k: int| 0 <= k < acc@.len() ==> acc@[k].owner != toj) ==> r.1 == 0,
{
    let mut i: usize = 0;
    let mut j: usize = 0;
    let len = acc.len();
    let mut k: usize = 0;
    let mut found_i = false;
    while k < len
        invariant
            0 <= k <= len,
            len == acc@.len(),
            !found_i ==> i == 0 && forall|m: int| 0 <= m < k ==> acc@[m].owner != fromi,
            found_i ==> i < k && acc@[i as int].owner == fromi && forall|m: int|
                0 <= m < i ==> acc@[m].owner != fromi,
        decreases len - k,
    {
        if !found_i && acc[k].owner == fromi {
            i = k;
            found_i = true;
        }
        k += 1;
    }
    let mut k: usize = 0;
    let mut found_j = false;
    while k < len
        invariant
            0 <= k <= len,
            len == acc@.len(),
            !found_j ==> j == 0 && forall|m: int| 0 <= m < k ==> acc@[m].owner != toj,
            found_j ==> j < k && acc@[j as int].owner == toj && forall|m: int|
                0 <= m < j ==> acc@[m].owner != toj,
        decreases len - k,
    {
        if !found_j && acc[k].owner == toj {
            j = k;
            found_j = true;
        }
        k += 1;
    }
    (i, j)
}

/// Applies a transfer between two distinct store indices in place,
/// after testing the transfer preconditions; when they do not hold the
/// store is left untouched.
pub fn apply_transfer_by_index(
    accounts: &mut Vec<TokenAccount>,
    i: usize,
    j: usize,
    amount: Lamports,
    mint: Pubkey,
)
    requires
        i != j,
        i < old(accounts).len(),
        j < old(accounts).len(),
        transfer_allowed(old(accounts)@[i as int], old(accounts)@[j as int], amount, mint)
            ==> old(accounts)@[j as int].amount.0 + amount.0 <= u64::MAX,
    ensures
        transfer_allowed(old(accounts)@[i as int], old(accounts)@[j as int], amount, mint)
            ==> final(accounts)@ == transfer_applied(old(accounts)@, i, j, amount),
        !transfer_allowed(old(accounts)@[i as int], old(accounts)@[j as int], amount, mint)
            ==> final(accounts)@ == old(accounts)@,
{
    let from = accounts[i];
    let to = accounts[j];
    if !can_transfer(&from, &to, amount, mint) {
        return ;
    }
    let mut from = from;
    let mut to = to;
    apply_transfer_inplace(&mut from, &mut to, amount, mint);
    accounts.set(i, from);
    accounts.set(j, to);
}

} // verus!
