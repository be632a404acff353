//! A process-local cache for one expensive-to-produce value with a
//! time-to-live, coalescing concurrent refreshes of a stale value into a
//! single execution.

pub mod errors;
pub mod latch;
pub mod resources;
pub mod store;
pub mod timestamp;
