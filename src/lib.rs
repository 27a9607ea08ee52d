//! Ownership and lifecycle model for natively backed vector geometries,
//! features and layers.
//!
//! Native objects are referred to by their handle, an address held as a
//! `usize` (`0` is the null handle). The native engine itself is not part of
//! this crate: its outcomes (handles it returned, status codes) are handed in
//! as plain values, and the library decides what each one means.

pub mod feature;
pub mod geometry;
pub mod layer;
pub mod types;
