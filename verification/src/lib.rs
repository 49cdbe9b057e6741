//! Decision kernel for watching a stream of log lines: a tiered pattern
//! pre-filter, a classifier-reply parser with a fail-safe default, an
//! append-only audit ledger with sequential ids, and the per-line decision
//! step that ties them together.

pub mod audit;
pub mod filter;
pub mod kernel;
pub mod llm;
pub mod text;
