//! Trusted boundary to the random source used to seed a fresh lattice.

use vstd::prelude::*;

verus! {

/// Relies on rand::random: draws one value from the thread-local generator.
/// Nothing is promised of the result; callers must hold for every outcome.
pub assume_specification<T>[ rand::random::<T> ]() -> (r: T)
    where
        rand::distributions::Standard: rand::distributions::Distribution<T>,
;

} // verus!
