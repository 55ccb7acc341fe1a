//! The interface through which a balance module can stand in for another.
use vstd::prelude::*;

verus! {

/// Types that implement the Traitz trait are able to supply an alternate balance module.
pub trait Traitz {
    /// The total supply of the balance module.
    fn bals(&self) -> u64;

    /// Stores `val` for `key` in the balance module.
    fn insertz(&mut self, key: u64, val: u64);
}

} // verus!
