//! Lifetime management for device memory imported from an OS resource.
//!
//! The library decides which driver primitives run, in which order, and what
//! their outcomes make of the owning objects. The caller performs each
//! [`driver::DriverCall`] and hands the outcome back.
pub mod driver;
pub mod memory;
pub mod laws;
