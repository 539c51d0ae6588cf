//! A two-asset automated market maker.
//!
//! Leaf first: [`math`] holds the overflow-checked fixed-point primitive,
//! [`error`] the failures an operation can end in, [`reserves`] the two
//! balances of the pool, [`shares`] the ledger of who owns which part of it
//! and [`sums`] what its counts add up to, [`swap`] the price of a trade,
//! [`pool`] the three of them as one unit that changes as a whole or not at
//! all, and [`engine`] the operations offered to the outside. [`laws`]
//! states what holds across operations.

pub mod engine;
pub mod error;
pub mod laws;
pub mod math;
pub mod pool;
pub mod reserves;
pub mod shares;
pub mod sums;
pub mod swap;
