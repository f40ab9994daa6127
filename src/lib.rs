//! Generation-counted object handles.
//!
//! Objects start out confined to one thread, with cheap bookkeeping, and can be
//! promoted to cross-thread records without invalidating the observers that were
//! handed out before.  Counter records live in append-only arenas and are only
//! ever recycled, never freed; payloads are released exactly once, by whichever
//! participant is last able to take exclusive access after retirement.

pub mod access;
pub mod counter;
pub mod arena;
pub mod heap;
pub mod pointers;
pub mod handles;
pub mod laws;
