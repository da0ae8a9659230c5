//! Rendering of the error taxonomy for people: a short fixed message
//! per kind, and a verbose technical message embedding the payload.

use vstd::prelude::*;

use crate::digits::{decimal_digits, u64_to_string, usize_to_string};
use crate::ledger::errors::TransferError;
use crate::ledger::models::base58_of;
use vstd::string::StringExecFns;

verus! {

/// The short user-facing message for each error kind.
pub fn user_message(e: &TransferError) -> (r: &'static str)
    ensures
        e is SameOwner ==> r@ == "sender and receiver must be different"@,
        e is ZeroAmount ==> r@ == "transfer amount must be greater than zero"@,
        e is MintMismatch ==> r@ == "tokens must have matching mint"@,
        e is InsufficientFunds ==> r@ == "not enough funds"@,
        e is OverflowToBalance ==> r@ == "destination balance overflow"@,
        e is SameIndex ==> r@ == "source and destination must differ"@,
        e is IndexOutOfBounds ==> r@ == "index out of range"@,
        e is AliasingDetected ==> r@ == "internal error: aliasing detected"@,
        e is InvalidInput ==> r@ == "invalid input provided"@,
{
    match e {
        TransferError::SameOwner => "sender and receiver must be different",
        TransferError::ZeroAmount => "transfer amount must be greater than zero",
        TransferError::MintMismatch { .. } => "tokens must have matching mint",
        TransferError::InsufficientFunds { .. } => "not enough funds",
        TransferError::OverflowToBalance => "destination balance overflow",
        TransferError::SameIndex => "source and destination must differ",
        TransferError::IndexOutOfBounds { .. } => "index out of range",
        TransferError::AliasingDetected => "internal error: aliasing detected",
        TransferError::InvalidInput(_) => "invalid input provided",
    }
}

/// The verbose technical message: the fixed text of the kind with the
/// payload fields written into it (keys in base58, amounts in decimal).
pub fn tech_message(e: &TransferError) -> (r: String)
    ensures
        e is SameOwner ==> r@ == "Transfer rejected: same owner for both accounts"@,
        e is ZeroAmount ==> r@ == "Transfer rejected: amount is zero"@,
        e matches TransferError::MintMismatch { expected, from, to } ==> r@ == seq_concat6(
            "Mint mismatch: expected "@,
            base58_of(expected.0@),
            ", got from "@,
            base58_of(from.0@),
            " and to "@,
            base58_of(to.0@),
        ),
        e matches TransferError::InsufficientFunds { have, need } ==> r@ == seq_concat5(
            "Insufficient funds: have "@,
            decimal_digits(have.0 as nat),
            " lamports, need "@,
            decimal_digits(need.0 as nat),
            " lamports"@,
        ),
        e is OverflowToBalance ==> r@ == "Overflow when applying amount to destination account"@,
        e is SameIndex ==> r@ == "Indexes for sender and receiver are the same"@,
        e matches TransferError::IndexOutOfBounds { len, i, j } ==> r@ == seq_concat6(
            "Index out of bounds: len = "@,
            decimal_digits(len as nat),
            ", i = "@,
            decimal_digits(i as nat),
            ", j = "@,
            decimal_digits(j as nat),
        ),
        e is AliasingDetected ==> r@ == "Aliasing detected: attempted to borrow same account twice"@,
        e matches TransferError::InvalidInput(msg) ==> r@ == "Input parsing failed: "@ + msg@,
{
    match e {
        TransferError::SameOwner => String::from_str(
            "Transfer rejected: same owner for both accounts",
        ),
        TransferError::ZeroAmount => String::from_str("Transfer rejected: amount is zero"),
        TransferError::MintMismatch { expected, from, to } => {
            let mut s = String::from_str("Mint mismatch: expected ");
            s.append(expected.to_base58().as_str());
            s.append(", got from ");
            s.append(from.to_base58().as_str());
            s.append(" and to ");
            s.append(to.to_base58().as_str());
            s
        },
        TransferError::InsufficientFunds { have, need } => {
            let mut s = String::from_str("Insufficient funds: have ");
            s.append(u64_to_string(have.0).as_str());
            s.append(" lamports, need ");
            s.append(u64_to_string(need.0).as_str());
            s.append(" lamports");
            s
        },
        TransferError::OverflowToBalance => String::from_str(
            "Overflow when applying amount to destination account",
        ),
        TransferError::SameIndex => String::from_str("Indexes for sender and receiver are the same"),
        TransferError::IndexOutOfBounds { len, i, j } => {
            let mut s = String::from_str("Index out of bounds: len = ");
            s.append(usize_to_string(*len).as_str());
            s.append(", i = ");
            s.append(usize_to_string(*i).as_str());
            s.append(", j = ");
            s.append(usize_to_string(*j).as_str());
            s
        },
        TransferError::AliasingDetected => String::from_str(
            "Aliasing detected: attempted to borrow same account twice",
        ),
        TransferError::InvalidInput(msg) => {
            let mut s = String::from_str("Input parsing failed: ");
            s.append(msg.as_str());
            s
        },
    }
}

/// Five text pieces in order.
pub open spec fn seq_concat5(
    a: Seq<char>,
    b: Seq<char>,
    c: Seq<char>,
    d: Seq<char>,
    e: Seq<char>,
) -> Seq<char> {
    a + b + c + d + e
}

/// Six text pieces in order.
pub open spec fn seq_concat6(
    a: Seq<char>,
    b: Seq<char>,
    c: Seq<char>,
    d: Seq<char>,
    e: Seq<char>,
    f: Seq<char>,
) -> Seq<char> {
    a + b + c + d + e + f
}

} // verus!
