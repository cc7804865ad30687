//! Apportionment of a single payment among creators, a buy-side rebate
//! recipient, a fee collector and the payment target, in exact integer
//! arithmetic, together with the ordered list of transfers that settles it.
//!
//! `engine` computes the distribution plan, `settlement` matches recipients
//! and orders the transfers, `metadata` reads royalty terms from a token
//! metadata account, and `guarantees` states what every plan satisfies.

pub mod config;
pub mod engine;
pub mod guarantees;
pub mod metadata;
pub mod model;
pub mod settlement;
