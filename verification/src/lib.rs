//! A verified model of a host-side bridge to a reference-counted, tagged-object
//! foreign heap.
//!
//! The bridge constructs values that are binary-compatible with the foreign
//! runtime's object layout, participates in its reference-counting protocol,
//! and accumulates GUI mutation requests issued by foreign callbacks into an
//! effect batch that the host applies atomically after each event dispatch.
//!
//! Everything here operates on plain values: headers, payloads and handles are
//! modelled as integers and byte vectors.  The thin unsafe layer that pokes
//! these values into raw foreign memory lives outside this crate.

pub mod apply;
pub mod closures;
pub mod effects;
pub mod events;
pub mod external;
pub mod layout;
pub mod refcount;
pub mod results;
pub mod scalar;
pub mod strings;
