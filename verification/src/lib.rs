//! `nsim` is a small N-body simulation library. This crate holds the parts of
//! the simulation whose behaviour does not depend on floating-point
//! arithmetic: particle bookkeeping (the structure-of-arrays layout and the
//! massive-first ordering), the storage of per-particle vector data and of
//! diagnostic samples, output file naming and error reporting.
//!
//! Floating-point values are carried as IEEE-754 binary64 bit patterns
//! (`u64`), so the layout logic is independent of the numerical code that
//! reads them.
pub mod diagnostics;
pub mod error;
pub mod math_util;
pub mod particle;
pub mod force;
pub mod integration;
pub mod output;
