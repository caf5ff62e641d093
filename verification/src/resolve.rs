//! Lazy, at-most-once resolution of the real implementation of an
//! intercepted function.
//!
//! Looking a symbol up in the process's link order is an outside capability:
//! the caller injects it as a closure, and this cache invokes it at most once
//! per process lifetime. The contract enforces that: permission to call the
//! lookup is granted only while the cache is still unresolved, and a resolved
//! cache (even one that resolved to "symbol absent") is never written again.

use vstd::prelude::*;

verus! {

/// The cache for one intercepted function's real implementation.
pub struct LazyOriginal<O> {
    /// `None` until the first resolution attempt; afterwards the attempt's
    /// outcome, where an inner `None` records that the symbol was absent.
    state: Option<Option<O>>,
}

impl<O: Copy> LazyOriginal<O> {
    /// Whether a resolution attempt has happened.
    pub closed spec fn attempted(&self) -> bool {
        self.state is Some
    }

    /// The outcome of the attempt: the original callable, or `None` when the
    /// symbol was absent from the link order. Meaningful only once
    /// `attempted()` holds.
    pub closed spec fn target(&self) -> Option<O> {
        self.state->0
    }

    /// A cache starts unresolved.
    pub fn new() -> (c: LazyOriginal<O>)
        ensures
            !c.attempted(),
    {
        LazyOriginal { state: None }
    }

    /// Returns the original callable, performing the lookup on the first call
    /// and answering from the cache afterwards. The lookup may be called only
    /// while the cache is unresolved, so it runs at most once per cache; its
    /// outcome, success or failure, is cached for the process lifetime.
    pub fn resolve<L: FnOnce() -> Option<O>>(&mut self, lookup: L) -> (r: Option<O>)
        requires
            !old(self).attempted() ==> call_requires(lookup, ()),
        ensures
            final(self).attempted(),
            r == final(self).target(),
            old(self).attempted() ==> *final(self) == *old(self),
            !old(self).attempted() ==> call_ensures(lookup, (), r),
    {
        match self.state {
            Some(cached) => cached,
            None => {
                let found = lookup();
                self.state = Some(found);
                found
            },
        }
    }
}

} // verus!
