//! Chain dispatch, early return, bypass, and lazy resolution, driven through
//! stand-in real implementations over plain values.

use std::cell::Cell;

use dylib_hook::chain::{Chain, Hook, OriginalFn, ShortCircuit};
use dylib_hook::guard::{ReentrancyGuard, disable_hooks, enable_hooks};
use dylib_hook::point::{InterceptError, InterceptPoint};
use dylib_hook::registry::HookRegistry;
use dylib_hook::resolve::LazyOriginal;

/// Stand-in for an `open`-style original: path and flags in, descriptor out.
#[derive(Clone, Copy)]
struct FakeOpen;

impl OriginalFn for FakeOpen {
    type Args = (String, i32);
    type Ret = i32;

    fn call_original(&self, (path, _flags): (String, i32)) -> i32 {
        if path == "/etc/passwd" {
            3
        } else {
            -1
        }
    }
}

/// Hooks over `FakeOpen` that record their run in the result value.
#[derive(Clone, Copy)]
enum OpenHook {
    /// Continues the chain, then adds `m` to whatever came back.
    AddMark(i32),
    /// Early return: answers `v` without continuing the chain.
    Fixed(i32),
    /// Continues the chain, then folds its mark in order-sensitively.
    Scale(i32),
    /// Continues the chain twice and sums both results.
    Twice,
}

impl Hook<FakeOpen> for OpenHook {
    fn handle(&self, args: (String, i32), chain: &mut Chain<OpenHook, FakeOpen>) -> i32 {
        match *self {
            OpenHook::AddMark(m) => m + chain.call(args),
            OpenHook::Fixed(v) => v,
            OpenHook::Scale(m) => 10 * chain.call(args) + m,
            OpenHook::Twice => {
                let first = chain.call(args.clone());
                first + chain.call(args)
            },
        }
    }
}

fn lookup_open() -> Option<FakeOpen> {
    Some(FakeOpen)
}

#[test]
fn single_hook() {
    let mut guard = ReentrancyGuard::new();
    let mut point: InterceptPoint<OpenHook, FakeOpen> = InterceptPoint::new();
    point.add_hook(OpenHook::AddMark(100));
    let fd = point
        .dispatch(&mut guard, (String::from("/etc/passwd"), 0), lookup_open)
        .unwrap();
    assert!(fd >= 0);
    // the hook's mark and the original's descriptor are both in the result
    assert_eq!(fd, 103);
}

#[test]
fn multiple_hooks() {
    let mut guard = ReentrancyGuard::new();
    let mut point: InterceptPoint<OpenHook, FakeOpen> = InterceptPoint::new();
    point.add_hook(OpenHook::Scale(1));
    point.add_hook(OpenHook::Scale(2));
    let fd = point
        .dispatch(&mut guard, (String::from("/etc/passwd"), 0), lookup_open)
        .unwrap();
    assert!(fd >= 0);
    // registration order: first hook outermost, then the second, then the
    // original's 3: 10 * (10 * 3 + 2) + 1
    assert_eq!(fd, 321);
    // a second dispatch walks the chain in the same order again
    let fd2 = point
        .dispatch(&mut guard, (String::from("/etc/passwd"), 0), lookup_open)
        .unwrap();
    assert_eq!(fd2, 321);
}

#[test]
fn early_return_hook() {
    let mut guard = ReentrancyGuard::new();
    let mut point: InterceptPoint<OpenHook, FakeOpen> = InterceptPoint::new();
    point.add_hook(OpenHook::Fixed(0));
    point.add_hook(OpenHook::AddMark(100));
    let fd = point
        .dispatch(&mut guard, (String::from("/etc/passwd"), 0), lookup_open)
        .unwrap();
    // the early return's sentinel comes back untouched: had the second hook
    // or the original run, their mark or descriptor would show
    assert_eq!(fd, 0);
    assert_ne!(fd, 100);
    assert_ne!(fd, 103);
}

#[test]
fn hook_protection() {
    let mut guard = ReentrancyGuard::new();
    let mut point: InterceptPoint<OpenHook, FakeOpen> = InterceptPoint::new();
    point.add_hook(OpenHook::Fixed(-1));
    // simulate a call made from inside the hook pipeline: the guard flag is
    // set, so dispatch bypasses the chain and reaches the original
    disable_hooks(&mut guard);
    let fd = point
        .dispatch(&mut guard, (String::from("/etc/passwd"), 0), lookup_open)
        .unwrap();
    assert_ne!(fd, -1);
    assert_eq!(fd, 3);
    // once the flag is cleared, the same dispatch runs the hook again
    enable_hooks(&mut guard);
    let fd2 = point
        .dispatch(&mut guard, (String::from("/etc/passwd"), 0), lookup_open)
        .unwrap();
    assert_eq!(fd2, -1);
}

#[test]
fn orig_bypasses_hooks() {
    let mut guard = ReentrancyGuard::new();
    let mut point: InterceptPoint<OpenHook, FakeOpen> = InterceptPoint::new();
    point.add_hook(OpenHook::AddMark(100));
    // the escape hatch reaches the original untouched by the hook
    let fd = point
        .call_original((String::from("/etc/passwd"), 0), lookup_open)
        .unwrap();
    assert_ne!(fd, 103);
    assert_eq!(fd, 3);
    // while ordinary dispatch still runs the hook
    let fd2 = point
        .dispatch(&mut guard, (String::from("/etc/passwd"), 0), lookup_open)
        .unwrap();
    assert_eq!(fd2, 103);
}

#[test]
fn short_circuit_handler() {
    let mut guard = ReentrancyGuard::new();
    let mut point: InterceptPoint<ShortCircuit<i32>, FakeOpen> = InterceptPoint::new();
    point.add_hook(ShortCircuit { value: 42 });
    let fd = point
        .dispatch(&mut guard, (String::from("/etc/passwd"), 0), lookup_open)
        .unwrap();
    assert_eq!(fd, 42);
    let fd2 = point
        .call_original((String::from("/etc/passwd"), 0), lookup_open)
        .unwrap();
    assert_eq!(fd2, 3);
}

#[test]
fn empty_chain_reaches_original() {
    let mut guard = ReentrancyGuard::new();
    let mut point: InterceptPoint<OpenHook, FakeOpen> = InterceptPoint::new();
    let fd = point
        .dispatch(&mut guard, (String::from("/etc/passwd"), 0), lookup_open)
        .unwrap();
    assert_eq!(fd, 3);
    let miss = point
        .dispatch(&mut guard, (String::from("/no/such/file"), 0), lookup_open)
        .unwrap();
    assert_eq!(miss, -1);
}

#[test]
fn continuing_twice_reenters_remainder() {
    let mut guard = ReentrancyGuard::new();
    let mut point: InterceptPoint<OpenHook, FakeOpen> = InterceptPoint::new();
    point.add_hook(OpenHook::Twice);
    point.add_hook(OpenHook::AddMark(100));
    // each continuation resumes the chain at its current cursor: the first
    // runs the later hook and the original (100 + 3); by the second the
    // cursor is past every hook, so it reaches the original alone (3)
    let fd = point
        .dispatch(&mut guard, (String::from("/etc/passwd"), 0), lookup_open)
        .unwrap();
    assert_eq!(fd, 106);
}

#[test]
fn hooks_added_later_join_the_next_call() {
    let mut guard = ReentrancyGuard::new();
    let mut point: InterceptPoint<OpenHook, FakeOpen> = InterceptPoint::new();
    point.add_hook(OpenHook::AddMark(100));
    let fd = point
        .dispatch(&mut guard, (String::from("/etc/passwd"), 0), lookup_open)
        .unwrap();
    assert_eq!(fd, 103);
    point.add_hook(OpenHook::AddMark(1000));
    let fd2 = point
        .dispatch(&mut guard, (String::from("/etc/passwd"), 0), lookup_open)
        .unwrap();
    assert_eq!(fd2, 1103);
}

#[test]
fn resolution_happens_once() {
    let lookups = Cell::new(0);
    let mut guard = ReentrancyGuard::new();
    let mut point: InterceptPoint<OpenHook, FakeOpen> = InterceptPoint::new();
    let count_lookup = || {
        lookups.set(lookups.get() + 1);
        Some(FakeOpen)
    };
    for _ in 0..5 {
        let fd = point
            .dispatch(&mut guard, (String::from("/etc/passwd"), 0), count_lookup)
            .unwrap();
        assert_eq!(fd, 3);
    }
    let fd = point
        .call_original((String::from("/etc/passwd"), 0), count_lookup)
        .unwrap();
    assert_eq!(fd, 3);
    assert_eq!(lookups.get(), 1);
}

#[test]
fn unresolved_symbol_fails_every_call() {
    let lookups = Cell::new(0);
    let mut guard = ReentrancyGuard::new();
    let mut point: InterceptPoint<OpenHook, FakeOpen> = InterceptPoint::new();
    let absent_lookup = || {
        lookups.set(lookups.get() + 1);
        None
    };
    let r = point.dispatch(&mut guard, (String::from("/etc/passwd"), 0), absent_lookup);
    assert_eq!(r, Err(InterceptError::UnresolvedSymbol));
    // the failed outcome is cached too: no second lookup, same error
    let r2 = point.call_original((String::from("/etc/passwd"), 0), absent_lookup);
    assert_eq!(r2, Err(InterceptError::UnresolvedSymbol));
    assert_eq!(lookups.get(), 1);
}

#[test]
fn registry_keeps_insertion_order() {
    let mut registry: HookRegistry<i32> = HookRegistry::new();
    assert_eq!(registry.len(), 0);
    assert_eq!(registry.snapshot_at(0), None);
    registry.add_hook(10);
    registry.add_hook(20);
    registry.add_hook(30);
    assert_eq!(registry.len(), 3);
    assert_eq!(registry.snapshot_at(0), Some(10));
    assert_eq!(registry.snapshot_at(1), Some(20));
    assert_eq!(registry.snapshot_at(2), Some(30));
    assert_eq!(registry.snapshot_at(3), None);
    let snapshot = registry.snapshot();
    assert_eq!(snapshot, vec![10, 20, 30]);
}

#[test]
fn lazy_original_caches_first_outcome() {
    let lookups = Cell::new(0);
    let mut cache: LazyOriginal<i32> = LazyOriginal::new();
    let count_lookup = || {
        lookups.set(lookups.get() + 1);
        Some(7)
    };
    assert_eq!(cache.resolve(count_lookup), Some(7));
    assert_eq!(cache.resolve(count_lookup), Some(7));
    assert_eq!(cache.resolve(|| Some(99)), Some(7));
    assert_eq!(lookups.get(), 1);
}
