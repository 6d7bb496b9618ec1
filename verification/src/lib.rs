//! A replicated, conflict-free shared map container.
//!
//! A `YMap` is either *preliminary* (a purely local key-value table, not yet
//! visible to any other replica) or *integrated* (a lightweight view into a
//! shared document managed by the `yrs` engine, where every mutation runs
//! inside a transaction). This crate verifies the container logic: state
//! dispatch, the one-way preliminary-to-integrated transition, the
//! transaction-scoped operation contracts, entry iteration, and the
//! change-event bookkeeping delivered at commit time.

pub mod errors;
pub mod value;
pub mod local;
pub mod engine;
pub mod map;
pub mod event;
pub mod laws;
