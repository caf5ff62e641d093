//! One interception point: the per-function registry, the lazily resolved
//! original, and the dispatch logic the exported trampoline drives.
//!
//! The embedding program owns one `InterceptPoint` per intercepted function
//! (typically behind a process-wide lock), one `ReentrancyGuard` per thread,
//! and an ABI-exact exported symbol whose body does nothing but call
//! `dispatch`. A cumulative ghost history records every handler and original
//! invocation the point ever made, so the contracts can say exactly which
//! paths run handlers and which never do.

use vstd::prelude::*;

use crate::chain::{Chain, Event, Hook, OriginalFn, hook_events_bounded, hook_events_ordered};
use crate::guard::{ReentrancyGuard, disable_hooks, enable_hooks};
use crate::registry::HookRegistry;
use crate::resolve::LazyOriginal;

verus! {

/// Why a dispatched call could not reach any implementation.
#[derive(Clone, Copy, PartialEq, Eq, Structural, Debug)]
pub enum InterceptError {
    /// The intercepted symbol has no implementation later in the process's
    /// link order, so there is no original to fall through to.
    UnresolvedSymbol,
}

/// Everything the framework keeps for one intercepted function.
pub struct InterceptPoint<H, O> {
    registry: HookRegistry<H>,
    original: LazyOriginal<O>,
    history: Ghost<Seq<Event>>,
}

impl<H: Copy, O: Copy> InterceptPoint<H, O> {
    /// The registered handlers, in registration order.
    pub closed spec fn hooks(&self) -> Seq<H> {
        self.registry.hooks()
    }

    /// Every handler and original invocation this point has made, in order,
    /// across all dispatched calls.
    pub closed spec fn history(&self) -> Seq<Event> {
        self.history@
    }

    /// Whether the real implementation has been looked up yet.
    pub closed spec fn resolution_attempted(&self) -> bool {
        self.original.attempted()
    }

    /// The outcome of that lookup: the original callable, or `None` when the
    /// symbol was absent. Meaningful once `resolution_attempted()` holds.
    pub closed spec fn resolved_target(&self) -> Option<O> {
        self.original.target()
    }
}

impl<H: Hook<O> + Copy, O: OriginalFn + Copy> InterceptPoint<H, O> {
    /// A fresh interception point: no handlers, nothing resolved, nothing
    /// run.
    pub fn new() -> (p: InterceptPoint<H, O>)
        ensures
            p.hooks() =~= Seq::<H>::empty(),
            p.history() =~= Seq::<Event>::empty(),
            !p.resolution_attempted(),
    {
        InterceptPoint {
            registry: HookRegistry::new(),
            original: LazyOriginal::new(),
            history: Ghost(Seq::empty()),
        }
    }

    /// Appends a handler at the end of this function's chain. Registration
    /// order is chain order; handlers are never removed.
    pub fn add_hook(&mut self, handler: H)
        ensures
            final(self).hooks() =~= old(self).hooks().push(handler),
            final(self).history() =~= old(self).history(),
            final(self).resolution_attempted() == old(self).resolution_attempted(),
            final(self).resolved_target() == old(self).resolved_target(),
    {
        self.registry.add_hook(handler);
    }

    /// The exported trampoline's body: resolves the original (at most once
    /// per point), then either enters the hook chain afresh — when this
    /// thread is not already inside the hook pipeline — or bypasses every
    /// handler and calls the original directly. The guard flag is held while
    /// the chain runs and always ends with the value it began with.
    ///
    /// The history pins the routing down: an already-set guard flag, like an
    /// empty registry, adds exactly one `OriginalRun` and no handler; a
    /// fresh entry with handlers registered starts with the handler at
    /// position zero, and whatever the handlers then drive stays within the
    /// registered chain, in strictly increasing registration order.
    pub fn dispatch<L: FnOnce() -> Option<O>>(
        &mut self,
        guard: &mut ReentrancyGuard,
        args: O::Args,
        lookup: L,
    ) -> (r: Result<O::Ret, InterceptError>)
        requires
            !old(self).resolution_attempted() ==> call_requires(lookup, ()),
        ensures
            final(guard).in_hook() == old(guard).in_hook(),
            final(self).hooks() =~= old(self).hooks(),
            final(self).resolution_attempted(),
            old(self).resolution_attempted() ==> final(self).resolved_target() == old(self).resolved_target(),
            !old(self).resolution_attempted() ==> call_ensures(lookup, (), final(self).resolved_target()),
            r is Err <==> final(self).resolved_target() is None,
            final(self).resolved_target() is None ==> final(self).history() =~= old(self).history(),
            final(self).resolved_target() is Some && old(guard).in_hook() ==> final(self).history() =~= old(self).history().push(Event::OriginalRun),
            final(self).resolved_target() is Some && !old(guard).in_hook() && old(self).hooks().len() == 0 ==> final(self).history() =~= old(self).history().push(
                Event::OriginalRun,
            ),
            final(self).resolved_target() is Some && !old(guard).in_hook() && old(self).hooks().len() > 0 ==> {
                &&& old(self).history().is_prefix_of(final(self).history())
                &&& final(self).history().len() > old(self).history().len()
                &&& (final(self).history()[old(self).history().len() as int] matches Event::HookRun {
                    index,
                } && index == 0)
            },
            final(self).resolved_target() is Some && !old(guard).in_hook() ==> {
                &&& hook_events_ordered(
                    final(self).history().skip(old(self).history().len() as int),
                )
                &&& hook_events_bounded(
                    final(self).history().skip(old(self).history().len() as int),
                    old(self).hooks().len() as int,
                )
            },
            final(self).resolved_target() is Some && !old(guard).in_hook() && old(self).hooks().len()
                > 0 ==> exists|pre: Chain<H, O>, post: Chain<H, O>, rv: O::Ret|
                {
                    &&& r == Ok::<O::Ret, InterceptError>(rv)
                    &&& pre.hooks() =~= old(self).hooks()
                    &&& pre.original() == final(self).resolved_target()->0
                    &&& pre.cursor() == 1
                    &&& pre.trace() =~= Seq::<Event>::empty().push(Event::HookRun { index: 0 })
                    &&& pre.wf()
                    &&& final(self).history() =~= old(self).history() + post.trace()
                    &&& #[trigger] old(self).hooks()[0].handle_post(pre, post, rv)
                },
    {
        let target = self.original.resolve(lookup);
        match target {
            None => Err(InterceptError::UnresolvedSymbol),
            Some(orig) => {
                if guard.is_in_hook() {
                    // Re-entered from inside a handler on this thread: take
                    // the fallback path, a fresh chain's fallthrough, so no
                    // handler runs again.
                    let mut chain = Chain::<H, O>::new(Vec::new(), orig);
                    let result = chain.chain_orig(args);
                    proof {
                        self.history@ = self.history@ + chain.trace();
                        assert(self.history@ =~= old(self).history().push(Event::OriginalRun));
                    }
                    Ok(result)
                } else {
                    // Fresh, top-level entry: hold the guard flag while the
                    // chain walks a snapshot of the registry.
                    disable_hooks(guard);
                    let snapshot = self.registry.snapshot();
                    let mut chain = Chain::<H, O>::new(snapshot, orig);
                    let ghost start = chain;
                    let result = chain.call(args);
                    enable_hooks(guard);
                    proof {
                        let pre_hist = self.history@;
                        self.history@ = self.history@ + chain.trace();
                        assert(pre_hist.is_prefix_of(self.history@)) by {
                            assert(pre_hist =~= self.history@.subrange(0, pre_hist.len() as int));
                        };
                        assert(chain.trace() =~= self.history@.skip(pre_hist.len() as int));
                        if old(self).hooks().len() == 0 {
                            assert(self.history@ =~= pre_hist.push(Event::OriginalRun));
                        } else {
                            let mid = choose|mid: Chain<H, O>|
                                {
                                    &&& mid.hooks() =~= start.hooks()
                                    &&& mid.original() == start.original()
                                    &&& mid.cursor() == start.cursor() + 1
                                    &&& mid.trace() =~= start.trace().push(
                                        Event::HookRun { index: start.cursor() as usize },
                                    )
                                    &&& mid.wf()
                                    &&& #[trigger] start.hooks()[start.cursor()].handle_post(
                                        mid,
                                        chain,
                                        result,
                                    )
                                };
                            assert(old(self).hooks()[0].handle_post(mid, chain, result));
                            assert(mid.trace() =~= Seq::<Event>::empty().push(
                                Event::HookRun { index: 0 },
                            ));
                            assert(mid.hooks() =~= old(self).hooks());
                        }
                    }
                    Ok(result)
                }
            },
        }
    }

    /// The unconditional escape hatch: resolves the original (at most once
    /// per point) and invokes it directly. No registered handler ever runs
    /// through this entry point, however many are registered — the history
    /// gains exactly one `OriginalRun`.
    pub fn call_original<L: FnOnce() -> Option<O>>(&mut self, args: O::Args, lookup: L) -> (r:
        Result<O::Ret, InterceptError>)
        requires
            !old(self).resolution_attempted() ==> call_requires(lookup, ()),
        ensures
            final(self).hooks() =~= old(self).hooks(),
            final(self).resolution_attempted(),
            old(self).resolution_attempted() ==> final(self).resolved_target() == old(self).resolved_target(),
            !old(self).resolution_attempted() ==> call_ensures(lookup, (), final(self).resolved_target()),
            r is Err <==> final(self).resolved_target() is None,
            final(self).resolved_target() is None ==> final(self).history() =~= old(self).history(),
            final(self).resolved_target() is Some ==> final(self).history() =~= old(self).history().push(Event::OriginalRun),
    {
        let target = self.original.resolve(lookup);
        match target {
            None => Err(InterceptError::UnresolvedSymbol),
            Some(orig) => {
                let result = orig.call_original(args);
                proof {
                    self.history@ = self.history@.push(Event::OriginalRun);
                }
                Ok(result)
            },
        }
    }
}

/// Early return: when the first handler of a dispatched call replaces the
/// call outright — its postcondition says it hands the chain back exactly as
/// it found it — then no handler registered after it and not the real
/// implementation runs for that call: the point's history grows by exactly
/// that one handler's invocation. The premises are what `dispatch` ensures
/// for a fresh entry with handlers registered, plus the replacing shape of
/// the handler's postcondition (`ShortCircuit` has it).
pub proof fn lemma_early_return_stops_chain<H: Hook<O> + Copy, O: OriginalFn + Copy>(
    hooks: Seq<H>,
    pre: Chain<H, O>,
    post: Chain<H, O>,
    rv: O::Ret,
    old_hist: Seq<Event>,
    new_hist: Seq<Event>,
)
    requires
        hooks.len() > 0,
        pre.trace() =~= Seq::<Event>::empty().push(Event::HookRun { index: 0 }),
        hooks[0].handle_post(pre, post, rv),
        new_hist =~= old_hist + post.trace(),
        forall|p: Chain<H, O>, q: Chain<H, O>, r: O::Ret|
            #[trigger] hooks[0].handle_post(p, q, r) ==> q == p,
    ensures
        new_hist =~= old_hist.push(Event::HookRun { index: 0 }),
{
    assert(post == pre);
}

} // verus!
