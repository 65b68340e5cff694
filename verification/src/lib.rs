//! Verified core of a double-entry wallet backend.
use vstd::prelude::*;

pub mod codec;
pub mod decimal;
pub mod accounts;
pub mod auth;
pub mod bookkeeping;
pub mod domain;
pub mod error;
pub mod events;
pub mod flow;
pub mod history;
pub mod idempotency;
pub mod json;
pub mod ledger;
pub mod models;
pub mod perf;
pub mod posting;
pub mod receipt;
pub mod seed;
pub mod text;

verus! {

} // verus!
