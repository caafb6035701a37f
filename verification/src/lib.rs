//! Control-and-timing kernel for a chain of BM1387-family mining ASICs.
//!
//! The crate computes the clock divisors and work-rotation timeouts used to
//! talk to the chips, models the work/solution pipeline of one hashboard
//! (generation, classification, deduplication), and keeps the running
//! statistics a monitoring collaborator reads.

pub mod bm1387;
pub mod config;
pub mod error;
pub mod gpio;
pub mod hal;
pub mod power;
pub mod registry;
pub mod s9;
