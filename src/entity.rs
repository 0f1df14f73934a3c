//! Entity handles of the explicit registry.
use vstd::prelude::*;

verus! {

/// An integer handle naming one entity of the registry.
#[derive(Clone, Copy, Debug, PartialEq, Eq, Hash, Structural)]
pub struct Entity(pub u64);

/// The counter value that follows `n` when an entity is spawned.
pub open spec fn next_handle(n: u64) -> u64 {
    if n == u64::MAX {
        0
    } else {
        (n + 1) as u64
    }
}

} // verus!
