//! Four small adapters, one for each way a caller may hand over something
//! callable: as a plain function, through shared access, through exclusive
//! access, or by giving it away for a single call.
//!
//! Each adapter calls what it was given on [`PROBE`] and returns the outcome.
//! Which callables an adapter accepts is decided by its parameter's bound, so
//! misuse is a compile error and none of the adapters has a failure path of
//! its own. What an adapter returns is stated over the callable's own
//! precondition and postcondition.
pub mod adapters;
pub mod transform;

pub use adapters::{
    chained, giveme_fn, giveme_fnmut, giveme_fnonce, giveme_fnptr, lemma_chained_composes, PROBE,
};
pub use transform::{collatz, collatz_step};
