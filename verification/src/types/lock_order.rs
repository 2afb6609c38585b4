//! The comparison of time locks.

use crate::types::timelock::TimeLock;
use std::cmp::Ordering;
use vstd::prelude::*;
use vstd::std_specs::cmp::PartialOrdSpecImpl;

verus! {

impl PartialOrd for TimeLock {
    /// Compares two locks by kind first, then by unlock time.
    fn partial_cmp(&self, other: &Self) -> (order: Option<Ordering>) {
        let own: u8 = self.kind_rank();
        let others: u8 = other.kind_rank();
        if own < others {
            Some(Ordering::Less)
        } else if own > others {
            Some(Ordering::Greater)
        } else {
            match (self, other) {
                (TimeLock::UnlockAt(a), TimeLock::UnlockAt(b)) => {
                    if *a < *b {
                        Some(Ordering::Less)
                    } else if *a > *b {
                        Some(Ordering::Greater)
                    } else {
                        Some(Ordering::Equal)
                    }
                },
                _ => Some(Ordering::Equal),
            }
        }
    }
}

impl PartialOrdSpecImpl for TimeLock {
    open spec fn obeys_partial_cmp_spec() -> bool {
        true
    }

    open spec fn partial_cmp_spec(&self, other: &TimeLock) -> Option<Ordering> {
        if self.precedes(*other) {
            Some(Ordering::Less)
        } else if *self == *other {
            Some(Ordering::Equal)
        } else {
            Some(Ordering::Greater)
        }
    }
}

/// Whether a lock comes before another in the order of locks.
pub fn comes_before(first: &TimeLock, second: &TimeLock) -> (before: bool)
    ensures
        before == first.precedes(*second),
{
    *first < *second
}

} // verus!
