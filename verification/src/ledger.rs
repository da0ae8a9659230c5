//! The token-ledger core: account model, error taxonomy, a pure
//! validator, checked appliers and the composed transfer-by-index
//! entry points.

pub mod checked_apply;
pub mod engine;
pub mod error_format;
pub mod errors;
pub mod inplace;
pub mod inplace_checked;
pub mod models;
pub mod service;
pub mod validate;
