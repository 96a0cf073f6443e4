//! A two-party blackjack table with a commit-reveal shuffle, as verified
//! state transitions over a single table record, and the username claims
//! that go with it.
//!
//! - `cards`: play values, hand totals and the seeded shuffle.
//! - `digest`: the SHA-256 digest behind commitments and the final seed.
//! - `table`: creation, joining, commit-reveal, dealing, hit and stand.
//! - `settlement`: the winner of a settled table and the payout.
//! - `registry`: validation and records of a username claim.

pub mod cards;
pub mod digest;
pub mod registry;
pub mod settlement;
pub mod table;
