//! Canonical hash-oracle input for account timing and token symbols.
//!
//! A vesting schedule, an account's timing and a token symbol each map to a
//! fixed-shape sequence of atoms (full scalars and bit-width-tagged packed
//! values) that a downstream hash folds in order.

pub mod decimal;
pub mod document;
pub mod numbers;
pub mod roinput;
pub mod timing;
pub mod token_symbol;

pub use decimal::ParseError;
pub use numbers::{Amount, BlockTime};
pub use roinput::{Atom, ChunkedROInput};
pub use timing::{TimedData, Timing};
pub use token_symbol::TokenSymbol;
