//! The invocation chain: a per-call cursor over a snapshot of the hook
//! registry that threads one logical call through zero or more handlers and
//! finally to the real implementation.
//!
//! Each chain carries a ghost trace of what ran, in order: `HookRun { index }`
//! when the handler registered at `index` was invoked, `OriginalRun` when the
//! real implementation was invoked. The trace is what the contracts of
//! dispatch speak of: handlers run in strictly increasing registration order,
//! and the direct bypass paths record no handler at all.

use vstd::prelude::*;

verus! {

/// One step of interception activity, as recorded in a chain's ghost trace.
pub enum Event {
    /// The handler registered at position `index` was invoked.
    HookRun { index: usize },
    /// The real implementation was invoked.
    OriginalRun,
}

/// Every handler invocation recorded in `t` names a position below `bound`.
pub open spec fn hook_events_bounded(t: Seq<Event>, bound: int) -> bool {
    forall|k: int|
        0 <= k < t.len() ==> ((#[trigger] t[k]) matches Event::HookRun { index } ==> index < bound)
}

/// Handler invocations recorded in `t` occur at strictly increasing
/// positions: no handler runs twice, and none runs after a later one.
pub open spec fn hook_events_ordered(t: Seq<Event>) -> bool {
    forall|j: int, k: int|
        0 <= j < k < t.len() ==> ((#[trigger] t[j]) matches Event::HookRun { index: a }
            ==> ((#[trigger] t[k]) matches Event::HookRun { index: b } ==> a < b))
}

/// The real implementation of one intercepted function, together with
/// its argument and return types. The embedding program implements this for
/// the callable that the symbol resolver produced; nothing is promised of
/// what a call returns, since the original may do arbitrary outside work.
pub trait OriginalFn: Sized {
    /// The intercepted function's arguments, as one plain value.
    type Args;

    /// The intercepted function's return type.
    type Ret;

    /// Invokes the real implementation.
    fn call_original(&self, args: Self::Args) -> Self::Ret;
}

/// A hook handler for one intercepted function. The chain hands the handler
/// the call's arguments and a cursor positioned after the handler itself; the
/// handler continues the chain through `Chain::call` zero or more times, or
/// returns its own result without continuing ("early return").
///
/// The contract states what any handler that drives the chain only through
/// its public interface observes: the snapshot and the original are fixed,
/// the cursor never moves backwards, and the trace only grows.
pub trait Hook<O: OriginalFn>: Sized {
    /// The handler's own postcondition: how the chain and the result it
    /// hands back relate to the chain it was handed. Each handler type
    /// chooses this relation and proves its `handle` meets it, so callers of
    /// the dispatch machinery can reason about what a known handler did —
    /// for instance, that a replacing handler left the chain untouched. The
    /// default claims nothing.
    open spec fn handle_post(&self, pre: Chain<Self, O>, post: Chain<Self, O>, r: O::Ret) -> bool {
        true
    }

    fn handle(&self, args: O::Args, chain: &mut Chain<Self, O>) -> (r: O::Ret)
        requires
            old(chain).wf(),
        ensures
            final(chain).wf(),
            final(chain).hooks() =~= old(chain).hooks(),
            final(chain).original() == old(chain).original(),
            final(chain).cursor() >= old(chain).cursor(),
            old(chain).trace().is_prefix_of(final(chain).trace()),
            self.handle_post(*old(chain), *final(chain), r),
        decreases old(chain).hooks().len() - old(chain).cursor(), 1int,
    ;
}

/// A transient cursor into a snapshot of one intercepted function's hook
/// registry: created fresh per intercepted call, destroyed when the call
/// returns, never shared across calls or threads.
pub struct Chain<H, O> {
    hooks: Vec<H>,
    orig: O,
    index: usize,
    events: Ghost<Seq<Event>>,
}

impl<H, O> Chain<H, O> {
    /// The snapshot of registered handlers this call runs against.
    pub closed spec fn hooks(&self) -> Seq<H> {
        self.hooks@
    }

    /// The resolved real implementation this call falls through to.
    pub closed spec fn original(&self) -> O {
        self.orig
    }

    /// The position of the next handler to run.
    pub closed spec fn cursor(&self) -> int {
        self.index as int
    }

    /// What has run so far on behalf of this call, in order.
    pub closed spec fn trace(&self) -> Seq<Event> {
        self.events@
    }

    /// The chain's invariant: the cursor stays within the snapshot, every
    /// recorded handler ran at a position the cursor has already passed, and
    /// handlers ran in strictly increasing order.
    pub open spec fn wf(&self) -> bool {
        &&& self.cursor() <= self.hooks().len()
        &&& hook_events_bounded(self.trace(), self.cursor())
        &&& hook_events_ordered(self.trace())
    }
}

impl<H: Hook<O> + Copy, O: OriginalFn + Copy> Chain<H, O> {
    /// A fresh chain over a registry snapshot, positioned at the first
    /// handler, with nothing run yet.
    pub(crate) fn new(hooks: Vec<H>, orig: O) -> (c: Chain<H, O>)
        ensures
            c.hooks() =~= hooks@,
            c.original() == orig,
            c.cursor() == 0,
            c.trace() =~= Seq::<Event>::empty(),
            c.wf(),
    {
        Chain { hooks, orig, index: 0, events: Ghost(Seq::empty()) }
    }

    /// Continues the call at the cursor: if a handler remains, advances past
    /// it and invokes it (recording `HookRun` at the old position); once the
    /// snapshot is exhausted, invokes the real implementation instead
    /// (recording `OriginalRun`). The result is whatever the handler or the
    /// original returned, uninspected.
    pub fn call(&mut self, args: O::Args) -> (r: O::Ret)
        requires
            old(self).wf(),
        ensures
            final(self).wf(),
            final(self).hooks() =~= old(self).hooks(),
            final(self).original() == old(self).original(),
            final(self).cursor() >= old(self).cursor(),
            old(self).trace().is_prefix_of(final(self).trace()),
            old(self).cursor() < old(self).hooks().len() ==> {
                &&& final(self).cursor() > old(self).cursor()
                &&& final(self).trace().len() > old(self).trace().len()
                &&& (final(self).trace()[old(self).trace().len() as int] matches Event::HookRun {
                    index,
                } && index == old(self).cursor())
            },
            old(self).cursor() >= old(self).hooks().len() ==> {
                &&& final(self).cursor() == old(self).cursor()
                &&& final(self).trace() =~= old(self).trace().push(Event::OriginalRun)
            },
            old(self).cursor() < old(self).hooks().len() ==> exists|mid: Chain<H, O>|
                {
                    &&& mid.hooks() =~= old(self).hooks()
                    &&& mid.original() == old(self).original()
                    &&& mid.cursor() == old(self).cursor() + 1
                    &&& mid.trace() =~= old(self).trace().push(
                        Event::HookRun { index: old(self).cursor() as usize },
                    )
                    &&& mid.wf()
                    &&& #[trigger] old(self).hooks()[old(self).cursor()].handle_post(
                        mid,
                        *final(self),
                        r,
                    )
                },
        decreases old(self).hooks().len() - old(self).cursor(), 0int,
    {
        if self.index < self.hooks.len() {
            let handler: H = self.hooks[self.index];
            let ghost pre = *self;
            self.events = Ghost(self.events@.push(Event::HookRun { index: self.index }));
            self.index = self.index + 1;
            proof {
                assert(pre.trace().is_prefix_of(self.trace())) by {
                    assert(pre.trace() =~= self.trace().subrange(0, pre.trace().len() as int));
                };
                assert(self.wf());
            }
            let ghost mid = *self;
            let r = handler.handle(args, self);
            proof {
                assert(pre.trace().is_prefix_of(self.trace())) by {
                    assert(mid.trace() =~= self.trace().subrange(0, mid.trace().len() as int));
                    assert(pre.trace() =~= self.trace().subrange(0, pre.trace().len() as int));
                };
                assert(self.trace()[pre.trace().len() as int] == mid.trace()[pre.trace().len() as int]);
                assert(pre.hooks()[pre.cursor()].handle_post(mid, *self, r));
            }
            r
        } else {
            self.chain_orig(args)
        }
    }

    /// Bypasses every remaining handler and calls the real implementation
    /// directly: the fallthrough tail of the chain, and the path the
    /// trampoline's fallback takes when the thread is already inside the
    /// hook pipeline.
    pub fn chain_orig(&mut self, args: O::Args) -> (r: O::Ret)
        requires
            old(self).wf(),
        ensures
            final(self).wf(),
            final(self).hooks() =~= old(self).hooks(),
            final(self).original() == old(self).original(),
            final(self).cursor() == old(self).cursor(),
            final(self).trace() =~= old(self).trace().push(Event::OriginalRun),
    {
        self.events = Ghost(self.events@.push(Event::OriginalRun));
        self.orig.call_original(args)
    }
}

/// A handler that replaces the intercepted call outright: it returns its
/// stored value and never continues the chain, so neither any handler
/// registered after it nor the real implementation runs for that
/// invocation.
pub struct ShortCircuit<T> {
    /// The value every intercepted call receives in place of a real result.
    pub value: T,
}

impl<T: Copy> Clone for ShortCircuit<T> {
    fn clone(&self) -> (c: Self)
        ensures
            c == *self,
    {
        ShortCircuit { value: self.value }
    }
}

impl<T: Copy> Copy for ShortCircuit<T> {

}

impl<O: OriginalFn> Hook<O> for ShortCircuit<O::Ret> where O::Ret: Copy {
    /// A replacing handler leaves the chain exactly as it found it — so
    /// nothing registered after it and not the real implementation runs on
    /// its behalf — and its stored value is the call's result.
    open spec fn handle_post(&self, pre: Chain<Self, O>, post: Chain<Self, O>, r: O::Ret) -> bool {
        post == pre && r == self.value
    }

    fn handle(&self, _args: O::Args, chain: &mut Chain<Self, O>) -> (r: O::Ret)
        ensures
            *final(chain) == *old(chain),
            r == self.value,
    {
        proof {
            assert(chain.trace().is_prefix_of(chain.trace())) by {
                assert(chain.trace() =~= chain.trace().subrange(0, chain.trace().len() as int));
            };
        }
        self.value
    }
}

} // verus!
