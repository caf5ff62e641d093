//! Ordered, append-only collection of hook handlers for one intercepted
//! function. Insertion order is chain order; there is no removal and no
//! reordering. The embedding program serializes access (for example with a
//! mutual-exclusion lock around the whole interception point).

use vstd::prelude::*;

verus! {

/// The hook handlers registered for one intercepted function, in the order
/// they were added.
pub struct HookRegistry<H> {
    hooks: Vec<H>,
}

impl<H: Copy> HookRegistry<H> {
    /// The registered handlers, oldest first.
    pub closed spec fn hooks(&self) -> Seq<H> {
        self.hooks@
    }

    /// A registry starts empty.
    pub fn new() -> (reg: HookRegistry<H>)
        ensures
            reg.hooks() =~= Seq::<H>::empty(),
    {
        HookRegistry { hooks: Vec::new() }
    }

    /// Appends a handler at the end of the chain.
    pub fn add_hook(&mut self, handler: H)
        ensures
            final(self).hooks() =~= old(self).hooks().push(handler),
    {
        self.hooks.push(handler);
    }

    /// How many handlers are registered.
    pub fn len(&self) -> (n: usize)
        ensures
            n == self.hooks().len(),
    {
        self.hooks.len()
    }

    /// The handler at `index`, if any: `Some` exactly when `index` is within
    /// the registered sequence. Hands out a copy of the handler value, so a
    /// caller never retains a borrow of the registry while it runs the
    /// handler.
    pub fn snapshot_at(&self, index: usize) -> (h: Option<H>)
        ensures
            index < self.hooks().len() ==> h == Some(self.hooks()[index as int]),
            index >= self.hooks().len() ==> h is None,
    {
        if index < self.hooks.len() {
            Some(self.hooks[index])
        } else {
            None
        }
    }

    /// A copy of the whole chain, for a per-call snapshot.
    pub fn snapshot(&self) -> (v: Vec<H>)
        ensures
            v@ =~= self.hooks(),
    {
        let mut v: Vec<H> = Vec::new();
        let mut i: usize = 0;
        while i < self.hooks.len()
            invariant
                i <= self.hooks@.len(),
                v@ =~= self.hooks@.subrange(0, i as int),
            decreases self.hooks@.len() - i,
        {
            v.push(self.hooks[i]);
            assert(v@ =~= self.hooks@.subrange(0, i + 1 as int));
            i = i + 1;
        }
        assert(v@ =~= self.hooks@);
        v
    }
}

} // verus!
