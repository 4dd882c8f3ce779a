//! Verified core of a binding to a text generator: generation options and their defaults,
//! the per-step callback that may stop a generation, and the shape of generation results.

pub mod config;
pub mod generator;
pub mod types;
