//! A hash map whose entries each carry a time-to-live.
//!
//! Entries are never evicted by a timer. An entry whose time-to-live has run
//! out stays in the backing table until a sweep or a replacement removes it,
//! but every read treats it as absent. Each operation that depends on the
//! clock comes in two forms: one that reads the monotonic clock itself, and
//! one ending in `_at` that takes the reading as an argument and whose
//! contract says exactly what that reading leads to.

pub mod clock;
pub mod entry;
pub mod store;
pub mod map;
pub mod set;
pub mod laws;

pub use entry::ExpiryValue;
pub use map::{ExpiringMap, MINIMUM_VACUUM_SIZE};
pub use set::ExpiringSet;
