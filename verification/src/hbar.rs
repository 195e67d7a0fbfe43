//! Amounts of the network's currency.

use vstd::prelude::*;

verus! {

/// The number of tinybars in one hbar.
pub const TINYBARS_PER_HBAR: i64 = 100_000_000;

/// An amount of the network's currency, held in its smallest unit.
#[derive(Clone, Copy, Debug, PartialEq, Eq)]
pub struct Hbar {
    pub tinybars: i64,
}

impl Hbar {
    /// The amount of `tinybars` tinybars.
    pub fn from_tinybars(tinybars: i64) -> (h: Hbar)
        ensures
            h.tinybars == tinybars,
    {
        Hbar { tinybars }
    }

    /// This amount in tinybars.
    pub fn to_tinybars(&self) -> (t: i64)
        ensures
            t == self.tinybars,
    {
        self.tinybars
    }

    /// The amount of `hbars` whole hbars, where that many tinybars fit in 64 bits.
    pub fn new(hbars: i64) -> (h: Hbar)
        requires
            i64::MIN <= hbars * 100_000_000 <= i64::MAX,
        ensures
            h.tinybars == hbars * 100_000_000,
    {
        Hbar { tinybars: hbars * TINYBARS_PER_HBAR }
    }

    /// The amount of `hbars` whole hbars, or nothing where that many tinybars do not fit in
    /// 64 bits.
    pub fn checked_new(hbars: i64) -> (h: Option<Hbar>)
        ensures
            h is Some <==> i64::MIN <= hbars * 100_000_000 <= i64::MAX,
            h is Some ==> h->Some_0.tinybars == hbars * 100_000_000,
    {
        match hbars.checked_mul(TINYBARS_PER_HBAR) {
            Some(tinybars) => Some(Hbar { tinybars }),
            None => None,
        }
    }
}

} // verus!
