//! A constant-product liquidity-pool engine.
//!
//! The pool holds two token reserves, issues fungible shares to liquidity
//! providers in proportion to what they contribute, and prices trades
//! against the reserves under a constant-product curve with a basis-point
//! fee on the input side.
//!
//! The crate is organised around three layers:
//! - [`curve`] holds the stateless pricing functions (deposit, withdrawal
//!   and swap amounts) together with the exact-arithmetic laws they obey;
//! - [`pool`] holds the pool record and the mutating operations, each a
//!   single atomic transition that either applies in full or leaves the
//!   pool untouched;
//! - [`store`] keys pool records by identity and rejects duplicate creation.
//!
//! All amounts are non-negative integers; intermediate products are computed
//! at double width so that rounding directions (up for deposits, down for
//! withdrawals and swap output) are exact.

pub mod arith;
pub mod curve;
pub mod error;
pub mod laws;
pub mod pool;
pub mod store;
