//! A runtime function-interception core: an ordered, append-only chain of
//! hook handlers in front of a real implementation, with lazy one-shot
//! resolution of that implementation and a per-thread reentrancy guard that
//! keeps a handler's own calls from re-entering the hook pipeline.
//!
//! The embedding program supplies what a verified library cannot hold: the
//! process-wide and thread-local homes of these values, the exported
//! ABI-exact trampoline symbols, and the dynamic-loader lookup, which enters
//! through the resolver as an injected capability.

pub mod chain;
pub mod guard;
pub mod point;
pub mod registry;
pub mod resolve;
