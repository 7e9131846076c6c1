//! The transformation used to exercise the adapters: one step of the
//! Collatz iteration.
use vstd::prelude::*;

verus! {

/// One Collatz step: an even number is halved, an odd number `n` becomes
/// `3n + 1`.
pub open spec fn collatz_step(n: nat) -> nat {
    if n % 2 == 0 {
        n / 2
    } else {
        3 * n + 1
    }
}

/// Computes one Collatz step of `n`.
///
/// Halving always fits. For an odd `n` the caller has to know that `3n + 1`
/// is still a `usize`.
pub fn collatz(n: usize) -> (r: usize)
    requires
        collatz_step(n as nat) <= usize::MAX,
    ensures
        r == collatz_step(n as nat),
{
    if n % 2 == 0 {
        n / 2
    } else {
        3 * n + 1
    }
}

} // verus!
