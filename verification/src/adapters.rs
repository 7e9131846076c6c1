//! The adapters themselves.
//!
//! A callable `f` carries a precondition, `f.requires((x,))`, and a
//! postcondition, `f.ensures((x,), y)`, which reads "a call of `f` on `x` may
//! return `y`". An adapter demands that `f` accepts what the adapter passes
//! to it, and promises that what it returns is something `f` may return for
//! that argument. For a callable whose postcondition fixes its result, this
//! fixes the adapter's result too.
use vstd::prelude::*;

verus! {

/// The argument every adapter starts from.
pub const PROBE: usize = 42;

/// `last` may come out of two calls of `f` in a row, the first on `first`
/// and the second on whatever the first returned.
pub open spec fn chained<F: FnMut(usize) -> usize>(f: F, first: usize, last: usize) -> bool {
    exists|mid: usize| #[trigger] f.ensures((first,), mid) && f.ensures((mid,), last)
}

/// Two calls in a row compose: when every result of `f` is the value of `g`
/// at the argument, the only thing that can come out of two chained calls
/// started on `first` is `g(g(first))`.
pub proof fn lemma_chained_composes<F: FnMut(usize) -> usize>(
    f: F,
    g: spec_fn(usize) -> usize,
    first: usize,
    last: usize,
)
    requires
        forall|x: usize, y: usize| #[trigger] f.ensures((x,), y) ==> y == g(x),
        chained(f, first, last),
    ensures
        last == g(g(first)),
{
}

/// Calls a plain function on [`PROBE`] and returns what it returns.
///
/// The parameter stands for a function that captures nothing: it can be
/// called through shared access and copied freely.
pub fn giveme_fnptr(f: impl Fn(usize) -> usize + Copy) -> (r: usize)
    requires
        f.requires((PROBE,)),
    ensures
        f.ensures((PROBE,), r),
{
    f(PROBE)
}

/// Calls `f` on [`PROBE`] through shared access and returns what it returns.
///
/// Shared access leaves `f` usable: pass a reference and the callable can be
/// handed to an adapter again afterwards.
pub fn giveme_fn(f: impl Fn(usize) -> usize) -> (r: usize)
    requires
        f.requires((PROBE,)),
    ensures
        f.ensures((PROBE,), r),
{
    f(PROBE)
}

/// Calls `f` twice through exclusive access, first on [`PROBE`] and then on
/// the outcome of the first call, and returns the outcome of the second.
///
/// `f` must accept [`PROBE`], and must accept whatever it may return for it.
/// What `f` has captured and changes stays with `f`: the contract speaks of
/// the results alone.
pub fn giveme_fnmut(mut f: impl FnMut(usize) -> usize) -> (r: usize)
    requires
        f.requires((PROBE,)),
        forall|mid: usize| #[trigger] f.ensures((PROBE,), mid) ==> f.requires((mid,)),
    ensures
        chained(f, PROBE, r),
{
    let x: usize = f(PROBE);
    f(x)
}

/// Takes `f` over, calls it on [`PROBE`] and returns what it returns.
///
/// The call uses `f` up. Unless the callable can be copied, nothing of it is
/// left to call again, here or at the caller, and the compiler rejects any
/// attempt.
pub fn giveme_fnonce(f: impl FnOnce(usize) -> usize) -> (r: usize)
    requires
        f.requires((PROBE,)),
    ensures
        f.ensures((PROBE,), r),
{
    let x: usize = f(PROBE);
    x
}

} // verus!
