//! Header codec for the cpio archive format family.
//!
//! The format family defines several mutually incompatible fixed-size binary
//! layouts for the header record that precedes each archive entry. This crate
//! models those layouts and proves that constructing a blank record and
//! projecting it to bytes reproduce the wire contract exactly.

pub mod header;
