//! The closed error taxonomy of the ledger, the single source of truth
//! for every failure the transfer pipeline can report.

use vstd::prelude::*;

use crate::ledger::models::{Lamports, Pubkey};
use vstd::string::StringExecFns;

verus! {

/// Why a transfer was rejected. Every failure of the pipeline is one
/// of these; nothing panics on the checked path.
#[derive(Clone, Debug, PartialEq, Eq)]
pub enum TransferError {
    /// The two accounts belong to the same owner.
    SameOwner,
    /// The requested amount was zero.
    ZeroAmount,
    /// One of the accounts holds a different token than requested.
    MintMismatch { expected: Pubkey, from: Pubkey, to: Pubkey },
    /// The source balance cannot cover the amount.
    InsufficientFunds { have: Lamports, need: Lamports },
    /// Crediting the destination would overflow its balance.
    OverflowToBalance,
    /// Source and destination index are the same.
    SameIndex,
    /// An index does not fall inside the store.
    IndexOutOfBounds { len: usize, i: usize, j: usize },
    /// Two handles to one account were about to be produced.
    AliasingDetected,
    /// Input text could not be parsed; carries the parse failure text.
    InvalidInput(String),
}

/// Why input text could not be parsed into a ledger value.
#[derive(Clone, Copy, Debug, PartialEq, Eq, Structural)]
pub enum ParseError {
    InvalidAmountFormat,
    InvalidIndexFormat,
    InvalidMintFormat,
    InvalidNameFormat,
}

/// The fixed description of a parse failure.
pub open spec fn parse_error_text(e: ParseError) -> Seq<char> {
    match e {
        ParseError::InvalidAmountFormat => "invalid amount format"@,
        ParseError::InvalidIndexFormat => "invalid index format"@,
        ParseError::InvalidMintFormat => "invalid mint format"@,
        ParseError::InvalidNameFormat => "invalid name format"@,
    }
}

impl ParseError {
    /// The human-readable description of this parse failure.
    pub fn message(&self) -> (r: &'static str)
        ensures
            r@ == parse_error_text(*self),
    {
        match self {
            ParseError::InvalidAmountFormat => "invalid amount format",
            ParseError::InvalidIndexFormat => "invalid index format",
            ParseError::InvalidMintFormat => "invalid mint format",
            ParseError::InvalidNameFormat => "invalid name format",
        }
    }
}

impl TransferError {
    /// Wraps a parse failure as an `InvalidInput` transfer error whose
    /// text is the parse failure's description.
    pub fn from_parse(e: ParseError) -> (r: TransferError)
        ensures
            r matches TransferError::InvalidInput(m) && m@ == parse_error_text(e),
    {
        TransferError::InvalidInput(String::from_str(e.message()))
    }
}

} // verus!
