//! Normalization of raw CPU-identification leaves for presenting a
//! consistent virtual CPU topology to a guest.
//!
//! The crate is organized leaves-first:
//! - [`bit_helper`] holds the bit-range arithmetic every transform builds on;
//! - [`cpu_leaf`] names the leaf numbers and register sub-fields;
//! - [`transformer`] holds the per-vCPU topology descriptor and the raw
//!   leaf entry that transforms mutate in place;
//! - [`intel`] holds the Intel-specific leaf transforms and the vendor
//!   dispatcher that selects one per leaf.

pub mod bit_helper;
pub mod cpu_leaf;
pub mod intel;
pub mod transformer;
