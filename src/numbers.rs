//! Scalar quantities carried by an account.

use vstd::prelude::*;

verus! {

/// An amount of currency, in its smallest unit.
#[derive(Clone, Copy, Debug, Default, PartialEq, Eq, Structural)]
pub struct Amount(pub u64);

/// A point in time, or a duration, counted in global slots.
#[derive(Clone, Copy, Debug, Default, PartialEq, Eq, Structural)]
pub struct BlockTime(pub u64);

} // verus!
