//! A minimal owner/agent-gated token balance ledger.
//!
//! A single owner account, recorded at initialization, may authorize agent
//! accounts. Authorized agents may buy (increment) or sell (decrement) the
//! balance recorded for a token, subject to authorization, zero-amount,
//! sufficiency and overflow checks. The hosting environment's ambient caller
//! identity is threaded into every entry point as an explicit parameter, so
//! the ledger can be exercised without a host harness.

pub mod laws;
pub mod ledger;
