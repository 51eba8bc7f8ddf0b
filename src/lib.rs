//! Capability-tier governance: a tier state machine, the ordered guard chain
//! that decides whether a capability downgrade may proceed, and a hash-chained
//! append-only ledger of accepted transitions.

pub mod tier;
pub mod policy_stack;
pub mod roles;
pub mod risk;
pub mod transition;
pub mod kernel;
pub mod text;
pub mod ledger;
pub mod rollback;
pub mod aln_policy;
pub mod taint;
