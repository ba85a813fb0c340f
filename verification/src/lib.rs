//! Cache-maintenance primitives for an ARM-based platform, together with a
//! verified model of their effect on memory as seen by the owning core and
//! by a non-cache-coherent observer.
//!
//! The hardware operations themselves (clean, invalidate, clean-and-invalidate
//! of the whole data cache, and range-bounded flushes of the data and
//! instruction caches) are side-effect-only privileged instruction sequences.
//! This crate models the cache state they act on, states each operation's
//! effect as a contract, and proves the content-preservation, idempotence,
//! range-bounding and ordering guarantees that callers rely on.

pub mod binding;
pub mod cache;
pub mod laws;
pub mod model;
