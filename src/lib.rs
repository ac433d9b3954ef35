//! A voting ledger: proposals are created, voted on at most once per voter,
//! and closed, each operation all-or-nothing.
pub mod proposal;
pub mod ledger;
pub mod laws;
