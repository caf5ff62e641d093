//! Per-thread reentrancy guard.
//!
//! A thread carries one flag shared across every intercepted function it
//! touches: the flag is true exactly while the thread is executing inside the
//! hook pipeline. Dispatch consults it so that a handler's own use of an
//! intercepted function routes straight to the real implementation
//! instead of re-entering the chain.

use vstd::prelude::*;

verus! {

/// The per-thread flag. The embedding program keeps one value of this type
/// per thread (for example in thread-local storage) and passes it to every
/// entry point of the interception machinery.
pub struct ReentrancyGuard {
    in_hook: bool,
}

impl ReentrancyGuard {
    /// True while the owning thread is inside the hook pipeline.
    pub closed spec fn in_hook(&self) -> bool {
        self.in_hook
    }

    /// A fresh thread starts outside the hook pipeline.
    pub fn new() -> (g: ReentrancyGuard)
        ensures
            !g.in_hook(),
    {
        ReentrancyGuard { in_hook: false }
    }

    /// Reads the flag.
    pub fn is_in_hook(&self) -> (b: bool)
        ensures
            b == self.in_hook(),
    {
        self.in_hook
    }
}

/// Runs `primary` with the guard flag held, unless the flag is already set,
/// in which case `fallback` runs instead and the flag is left alone. The
/// fallback path is taken if and only if the flag was set on entry, and the
/// flag always ends the call with the value it began with.
pub fn with_hook_protection<F: FnOnce() -> R, G: FnOnce() -> R, R>(
    guard: &mut ReentrancyGuard,
    primary: F,
    fallback: G,
) -> (r: R)
    requires
        !old(guard).in_hook() ==> call_requires(primary, ()),
        old(guard).in_hook() ==> call_requires(fallback, ()),
    ensures
        final(guard).in_hook() == old(guard).in_hook(),
        !old(guard).in_hook() ==> call_ensures(primary, (), r),
        old(guard).in_hook() ==> call_ensures(fallback, (), r),
{
    if guard.in_hook {
        fallback()
    } else {
        guard.in_hook = true;
        let result = primary();
        guard.in_hook = false;
        result
    }
}

/// Runs `f` with the guard flag forced on, so that every intercepted call
/// made inside `f` takes the already-in-hook path; the prior value of the
/// flag is restored afterwards.
pub fn bypass_hooks<F: FnOnce() -> R, R>(guard: &mut ReentrancyGuard, f: F) -> (r: R)
    requires
        call_requires(f, ()),
    ensures
        final(guard).in_hook() == old(guard).in_hook(),
        call_ensures(f, (), r),
{
    let was_in_hook = guard.in_hook;
    guard.in_hook = true;
    let result = f();
    guard.in_hook = was_in_hook;
    result
}

/// Persistently sets the flag, so that subsequent dispatches bypass the
/// chain until `enable_hooks` is called. The caller pairs the two manually.
pub fn disable_hooks(guard: &mut ReentrancyGuard)
    ensures
        final(guard).in_hook(),
{
    guard.in_hook = true;
}

/// Persistently clears the flag set by `disable_hooks`.
pub fn enable_hooks(guard: &mut ReentrancyGuard)
    ensures
        !final(guard).in_hook(),
{
    guard.in_hook = false;
}

} // verus!
