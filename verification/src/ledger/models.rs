//! Data model of the ledger: keys, amounts, accounts and the transfer
//! receipt.

use rand::Rng;
use vstd::prelude::*;
use vstd::string::StringExecFns;

verus! {

/// An opaque 32-byte key, used both as an account owner id and as a
/// mint (token-type) id. Equality is byte-wise.
#[derive(Clone, Copy, Debug, Eq)]
pub struct Pubkey(pub [u8; 32]);

impl PartialEq for Pubkey {
    fn eq(&self, other: &Pubkey) -> (r: bool) {
        let mut k: usize = 0;
        while k < 32
            invariant
                0 <= k <= 32,
                forall|m: int| 0 <= m < k ==> self.0@[m] == other.0@[m],
            decreases 32 - k,
        {
            if self.0[k] != other.0[k] {
                proof {
                    assert(self.0@[k as int] != other.0@[k as int]);
                }
                return false;
            }
            k += 1;
        }
        proof {
            assert(self.0 =~= other.0);
        }
        true
    }
}

impl vstd::std_specs::cmp::PartialEqSpecImpl for Pubkey {
    open spec fn obeys_eq_spec() -> bool {
        true
    }

    open spec fn eq_spec(&self, other: &Pubkey) -> bool {
        self.0 == other.0
    }
}

/// What `bs58::encode` produces for a byte sequence: the base58 text,
/// a function of the bytes alone (default alphabet, no checksum).
pub uninterp spec fn base58_of(bytes: Seq<u8>) -> Seq<char>;

impl Pubkey {
    /// Relies on `rand::thread_rng().fill` to draw 32 random bytes;
    /// nothing is promised of the value.
    #[verifier::external_body]
    pub fn new_random() -> Self {
        let mut bytes = [0u8; 32];
        rand::thread_rng().fill(&mut bytes);
        Pubkey(bytes)
    }

    /// Relies on `bs58::encode(..).into_string()`: the base58 rendering
    /// of the key's bytes, named by `base58_of`.
    #[verifier::external_body]
    pub fn to_base58(&self) -> (r: String)
        ensures
            r@ == base58_of(self.0@),
    {
        bs58::encode(self.0).into_string()
    }
}

/// A non-negative 64-bit quantity of value.
#[derive(Clone, Copy, Debug, PartialEq, Eq, Structural, PartialOrd, Ord)]
pub struct Lamports(pub u64);

impl Lamports {
    /// The display form of an amount: its decimal value followed by
    /// the unit.
    pub fn to_text(&self) -> (r: String)
        ensures
            r@ == crate::digits::decimal_digits(self.0 as nat) + " lamports"@,
    {
        let mut s = crate::digits::u64_to_string(self.0);
        s.append(" lamports");
        s
    }
}

/// An account: an owner key, the mint of the token it holds, and its
/// balance.
#[derive(Clone, Copy, Debug, PartialEq, Eq)]
pub struct TokenAccount {
    pub owner: Pubkey,
    pub mint: Pubkey,
    pub amount: Lamports,
}

impl TokenAccount {
    /// An account whose owner and mint share one fill byte, holding 100.
    pub fn new_dummy(byte: u8) -> (r: Self)
        ensures
            forall|i: int| 0 <= i < 32 ==> r.owner.0@[i] == byte,
            r.mint == r.owner,
            r.amount.0 == 100,
    {
        TokenAccount { owner: Pubkey([byte; 32]), mint: Pubkey([byte; 32]), amount: Lamports(100) }
    }

    /// An account with the given owner fill byte, balance and mint.
    pub fn new_with(owner_byte: u8, amount: u64, mint: Pubkey) -> (r: Self)
        ensures
            forall|i: int| 0 <= i < 32 ==> r.owner.0@[i] == owner_byte,
            r.mint == mint,
            r.amount.0 == amount,
    {
        TokenAccount { owner: Pubkey([owner_byte; 32]), mint, amount: Lamports(amount) }
    }
}

/// The receipt of a completed transfer: who paid, who received, in
/// which token, and how much.
#[derive(Clone, Copy, Debug, PartialEq, Eq)]
pub struct Transfer {
    pub from: Pubkey,
    pub to: Pubkey,
    pub mint: Pubkey,
    pub amount: Lamports,
}

} // verus!
