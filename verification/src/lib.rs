//! A small verified library whose heart is `ledger`: an in-memory
//! token ledger with a validate-then-apply transfer pipeline over an
//! indexed account store, a closed error taxonomy and proved
//! conservation of value.
//!
//! Around it stand a few smaller verified modules: user records, text
//! normalisation, policy and metrics rules, an id-keyed bag, and the
//! shared text helpers they build on.

pub mod bag;
pub mod digits;
pub mod ledger;
pub mod member;
pub mod metrics;
pub mod normalize;
pub mod policy;
pub mod profile;
pub mod strings;
pub mod text;
pub mod user;
