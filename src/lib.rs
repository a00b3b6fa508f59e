//! A candidate-backing interceptor for adversarial test networks: it replaces
//! a configurable share of seconding requests by forged candidates whose
//! hashes, commitments and collator signature are all consistent, so that only
//! re-execution of the poison block data reveals the forgery.

pub mod coin;
pub mod fabricate;
pub mod hashing;
pub mod interceptor;
pub mod signing;
pub mod types;
