//! Timed acquisition of a two-channel pressure transducer and the exact
//! transfer function from raw converter codes to pressure.
//!
//! The library holds the decisions of a sampling run (how many ticks, which
//! channel to read next, when to sleep, when the run is over or has failed)
//! and the arithmetic of the conversion. Talking to the bus, sleeping and
//! writing charts or spreadsheets is left to the caller, who feeds the
//! outcome of each action back into a [`sampler::Sampler`].

pub mod config;
pub mod convert;
pub mod pipeline;
pub mod sampler;
