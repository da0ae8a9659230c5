//! The service layer over the store: input parsing, the two-index
//! accessor with typed errors, a side-effect-free simulation and the
//! composed transfer entry point that returns a receipt.

use vstd::prelude::*;

use crate::ledger::errors::{ParseError, TransferError};
use crate::ledger::models::{Lamports, Pubkey, TokenAccount, Transfer};
use crate::ledger::validate::{transfer_applied, transfer_check, validate_transfer};
use crate::strings::{trim, trim_spec};
use vstd::string::StrSliceExecFns;

verus! {

/// A decimal digit.
pub open spec fn is_dec_digit(c: char) -> bool {
    '0' <= c && c <= '9'
}

/// The numeric value of one decimal digit character.
pub open spec fn digit_val(c: char) -> int {
    c as u32 - 48
}

/// The digits of a number text: everything after one optional leading
/// plus sign.
pub open spec fn digits_part(s: Seq<char>) -> Seq<char> {
    if s.len() > 0 && s[0] == '+' {
        s.subrange(1, s.len() as int)
    } else {
        s
    }
}

/// The text is a well-formed unsigned decimal, as `from_str` of the
/// unsigned integer types reads it: one optional leading plus sign,
/// then at least one decimal digit and nothing else.
pub open spec fn is_decimal_text(t: Seq<char>) -> bool {
    digits_part(t).len() > 0 && all_dec_digits(digits_part(t))
}

/// The number a well-formed unsigned decimal text denotes.
pub open spec fn decimal_text_value(t: Seq<char>) -> int {
    dec_value(digits_part(t))
}

/// Every character of `s` is a decimal digit.
pub open spec fn all_dec_digits(s: Seq<char>) -> bool {
    forall|k: int| 0 <= k < s.len() ==> is_dec_digit(s[k])
}

/// The number the digit sequence denotes, most significant first.
pub open spec fn dec_value(s: Seq<char>) -> int
    decreases s.len(),
{
    if s.len() == 0 {
        0
    } else {
        dec_value(s.subrange(0, s.len() - 1)) * 10 + digit_val(s[s.len() - 1])
    }
}

proof fn lemma_dec_value_nonneg(s: Seq<char>)
    requires
        all_dec_digits(s),
    ensures
        dec_value(s) >= 0,
    decreases s.len(),
{
    if s.len() > 0 {
        let t = s.subrange(0, s.len() - 1);
        assert(all_dec_digits(t));
        lemma_dec_value_nonneg(t);
    }
}

proof fn lemma_dec_value_prefix_le(s: Seq<char>, m: int)
    requires
        all_dec_digits(s),
        0 <= m <= s.len(),
    ensures
        dec_value(s.subrange(0, m)) <= dec_value(s),
    decreases s.len() - m,
{
    if m < s.len() {
        let p = s.subrange(0, m);
        let q = s.subrange(0, m + 1);
        assert(q.subrange(0, m) =~= p);
        assert(all_dec_digits(p));
        lemma_dec_value_nonneg(p);
        assert(dec_value(q) == dec_value(p) * 10 + digit_val(q[m]));
        assert(dec_value(p) * 10 >= dec_value(p)) by (nonlinear_arith)
            requires
                dec_value(p) >= 0,
        ;
        lemma_dec_value_prefix_le(s, m + 1);
    } else {
        assert(s.subrange(0, m) =~= s);
    }
}

/// Reads a well-formed unsigned decimal text (one optional leading
/// plus sign, then digits) as a 64-bit number; `None` when the text is
/// not of that shape or the value does not fit.
fn parse_decimal(t: &str) -> (r: Option<u64>)
    ensures
        r is Some <==> is_decimal_text(t@) && decimal_text_value(t@) <= u64::MAX,
        r matches Some(v) ==> v as int == decimal_text_value(t@),
{
    let len = t.unicode_len();
    let start: usize = if len > 0 && t.get_char(0) == '+' {
        1
    } else {
        0
    };
    proof {
        assert(digits_part(t@) =~= t@.subrange(start as int, len as int));
    }
    if start >= len {
        return None;
    }
    let ghost dp = digits_part(t@);
    let mut val: u64 = 0;
    let mut k: usize = start;
    proof {
        assert(dp.subrange(0, 0) =~= Seq::<char>::empty());
    }
    while k < len
        invariant
            start <= k <= len,
            len == t@.len(),
            dp == digits_part(t@),
            dp == t@.subrange(start as int, len as int),
            all_dec_digits(dp.subrange(0, k - start)),
            val as int == dec_value(dp.subrange(0, k - start)),
        decreases len - k,
    {
        let c = t.get_char(k);
        proof {
            assert(dp[k - start] == t@[k as int]);
        }
        if !('0' <= c && c <= '9') {
            return None;
        }
        let d: u64 = ((c as u8) - 48) as u64;
        proof {
            assert(d as int == digit_val(dp[k - start]));
            assert(dp.subrange(0, k - start + 1).subrange(0, k - start) =~= dp.subrange(
                0,
                k - start,
            ));
            assert(dec_value(dp.subrange(0, k - start + 1)) == dec_value(
                dp.subrange(0, k - start),
            ) * 10 + digit_val(dp[k - start]));
        }
        if val > (u64::MAX - d) / 10 {
            proof {
                assert(val * 10 + d > u64::MAX) by (nonlinear_arith)
                    requires
                        val > (u64::MAX - d) / 10,
                        0 <= d <= 9,
                        val >= 0,
                ;
                if all_dec_digits(dp) {
                    lemma_dec_value_prefix_le(dp, k - start + 1);
                }
            }
            return None;
        }
        proof {
            assert(val * 10 + d <= u64::MAX) by (nonlinear_arith)
                requires
                    val <= (u64::MAX - d) / 10,
                    0 <= d <= 9,
                    val >= 0,
            ;
        }
        val = val * 10 + d;
        k += 1;
    }
    proof {
        assert(dp.subrange(0, len - start) =~= dp);
    }
    Some(val)
}

/// Reads the trimmed text as an unsigned decimal amount of lamports,
/// exactly as `u64::from_str` would; anything else is
/// `InvalidAmountFormat`.
pub fn parse_lamports(s: &str) -> (r: Result<Lamports, ParseError>)
    ensures
        r is Ok <==> is_decimal_text(trim_spec(s@)) && decimal_text_value(trim_spec(s@))
            <= u64::MAX,
        r matches Ok(v) ==> v.0 as int == decimal_text_value(trim_spec(s@)),
        r is Err ==> r == Err::<Lamports, ParseError>(ParseError::InvalidAmountFormat),
{
    let t = trim(s);
    match parse_decimal(t) {
        Some(v) => Ok(Lamports(v)),
        None => Err(ParseError::InvalidAmountFormat),
    }
}

/// Reads the trimmed text as an unsigned decimal store index, exactly
/// as `usize::from_str` would; anything else is `InvalidIndexFormat`.
pub fn parse_index(s: &str) -> (r: Result<usize, ParseError>)
    ensures
        r is Ok <==> is_decimal_text(trim_spec(s@)) && decimal_text_value(trim_spec(s@))
            <= usize::MAX,
        r matches Ok(v) ==> v as int == decimal_text_value(trim_spec(s@)),
        r is Err ==> r == Err::<usize, ParseError>(ParseError::InvalidIndexFormat),
{
    let t = trim(s);
    match parse_decimal(t) {
        Some(v) => {
            if v > usize::MAX as u64 {
                Err(ParseError::InvalidIndexFormat)
            } else {
                Ok(v as usize)
            }
        },
        None => Err(ParseError::InvalidIndexFormat),
    }
}

/// Reads the trimmed text as an unsigned decimal byte, exactly as
/// `u8::from_str` would, and spreads it into a mint key; anything else
/// is `InvalidMintFormat`.
pub fn parse_mint(s: &str) -> (r: Result<Pubkey, ParseError>)
    ensures
        r is Ok <==> is_decimal_text(trim_spec(s@)) && decimal_text_value(trim_spec(s@))
            <= u8::MAX,
        r matches Ok(p) ==> forall|i: int| 0 <= i < 32 ==> p.0@[i] as int == decimal_text_value(
            trim_spec(s@),
        ),
        r is Err ==> r == Err::<Pubkey, ParseError>(ParseError::InvalidMintFormat),
{
    let t = trim(s);
    match parse_decimal(t) {
        Some(v) => {
            if v > 255 {
                Err(ParseError::InvalidMintFormat)
            } else {
                Ok(Pubkey([v as u8; 32]))
            }
        },
        None => Err(ParseError::InvalidMintFormat),
    }
}

/// Resolves two indices of the store to snapshots of the two accounts.
/// Bounds are checked first (`IndexOutOfBounds` carries the exact
/// length and both indices), then index identity (`SameIndex`).
pub fn get_two_mut_checked(
    xs: &Vec<TokenAccount>,
    i: usize,
    j: usize,
) -> (r: Result<(TokenAccount, TokenAccount), TransferError>)
    ensures
        i >= xs.len() || j >= xs.len() ==> r == Err::<(TokenAccount, TokenAccount), TransferError>(
            TransferError::IndexOutOfBounds { len: xs.len(), i, j },
        ),
        i < xs.len() && j < xs.len() && i == j ==> r == Err::<
            (TokenAccount, TokenAccount),
            TransferError,
        >(TransferError::SameIndex),
        i < xs.len() && j < xs.len() && i != j ==> r == Ok::<
            (TokenAccount, TokenAccount),
            TransferError,
        >((xs@[i as int], xs@[j as int])),
{
    let len = xs.len();
    if i >= len || j >= len {
        return Err(TransferError::IndexOutOfBounds { len, i, j });
    }
    if i == j {
        return Err(TransferError::SameIndex);
    }
    Ok((xs[i], xs[j]))
}

/// Runs the whole transfer pipeline against the store without touching
/// it, and reports the pair of balances the two accounts would end up
/// with. The store is left exactly as it was, whatever the outcome.
pub fn simulate_transfer(
    xs: &mut Vec<TokenAccount>,
    i: usize,
    j: usize,
    amount: Lamports,
    mint: Pubkey,
) -> (r: Result<(Lamports, Lamports), TransferError>)
    ensures
        final(xs)@ == old(xs)@,
        transfer_check(old(xs)@, i, j, amount, mint) matches Err(e) ==> r == Err::<
            (Lamports, Lamports),
            TransferError,
        >(e),
        transfer_check(old(xs)@, i, j, amount, mint) is Ok ==> r == Ok::<
            (Lamports, Lamports),
            TransferError,
        >(
            (
                Lamports((old(xs)@[i as int].amount.0 - amount.0) as u64),
                Lamports((old(xs)@[j as int].amount.0 + amount.0) as u64),
            ),
        ),
{
    let (from, to) = match get_two_mut_checked(xs, i, j) {
        Err(e) => {
            return Err(e);
        },
        Ok(p) => p,
    };
    match validate_transfer(&from, &to, amount, mint) {
        Err(e) => {
            return Err(e);
        },
        Ok(()) => {},
    }
    let from_new = match from.amount.0.checked_sub(amount.0) {
        Some(v) => v,
        None => {
            return Err(TransferError::InsufficientFunds { have: from.amount, need: amount });
        },
    };
    let to_new = match to.amount.0.checked_add(amount.0) {
        Some(v) => v,
        None => {
            return Err(TransferError::OverflowToBalance);
        },
    };
    Ok((Lamports(from_new), Lamports(to_new)))
}

/// The composed entry point of the ledger: resolve both indices,
/// validate against snapshots, debit and credit atomically, and return
/// the receipt. On any failure the store is untouched and the exact
/// taxonomy member is returned; the two balances together are
/// conserved on success.
pub fn apply_transfer(
    xs: &mut Vec<TokenAccount>,
    i: usize,
    j: usize,
    amount: Lamports,
    mint: Pubkey,
) -> (r: Result<Transfer, TransferError>)
    ensures
        r is Ok <==> transfer_check(old(xs)@, i, j, amount, mint) is Ok,
        transfer_check(old(xs)@, i, j, amount, mint) matches Err(e) ==> r == Err::<
            Transfer,
            TransferError,
        >(e),
        r is Err ==> final(xs)@ == old(xs)@,
        r is Ok ==> final(xs)@ == transfer_applied(old(xs)@, i, j, amount),
        r is Ok ==> r == Ok::<Transfer, TransferError>(
            (Transfer {
                from: old(xs)@[i as int].owner,
                to: old(xs)@[j as int].owner,
                mint,
                amount,
            }),
        ),
        r is Ok ==> final(xs)@[i as int].amount.0 + final(xs)@[j as int].amount.0 == old(
            xs,
        )@[i as int].amount.0 + old(xs)@[j as int].amount.0,
        i >= old(xs).len() || j >= old(xs).len() ==> r == Err::<Transfer, TransferError>(
            TransferError::IndexOutOfBounds { len: old(xs).len(), i, j },
        ),
        i == j && i < old(xs).len() ==> r == Err::<Transfer, TransferError>(
            TransferError::SameIndex,
        ),
        i != j && i < old(xs).len() && j < old(xs).len() && amount.0 == 0 ==> r == Err::<
            Transfer,
            TransferError,
        >(TransferError::ZeroAmount),
{
    let (mut from, mut to) = match get_two_mut_checked(xs, i, j) {
        Err(e) => {
            return Err(e);
        },
        Ok(p) => p,
    };
    match validate_transfer(&from, &to, amount, mint) {
        Err(e) => {
            return Err(e);
        },
        Ok(()) => {},
    }
    match crate::ledger::inplace_checked::apply_transfer_inplace_checked(
        &mut from,
        &mut to,
        amount,
        mint,
    ) {
        Err(e) => {
            return Err(e);
        },
        Ok(()) => {},
    }
    let tx = Transfer { from: from.owner, to: to.owner, mint, amount };
    xs.set(i, from);
    xs.set(j, to);
    Ok(tx)
}

} // verus!
