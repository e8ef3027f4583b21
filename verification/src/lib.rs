//! Deferred, in-place value construction.
//!
//! A producer can hand over either a finished value or a *deferred
//! constructor*: an exclusively owned, move-only handle for a value that will
//! be built directly at its final storage location. This crate models the
//! runtime contract of that mechanism: size/alignment descriptors, deferred
//! constructors and their composition, the dual value accepted at API
//! boundaries, the construction driver, allocator-backed containers, and the
//! pinned extension that permits self-referential values.

pub mod container;
pub mod ctor;
pub mod dest;
pub mod driver;
pub mod dual;
pub mod layout;
pub mod pinned;
pub mod values;
