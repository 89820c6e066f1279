//! Typed, time-aligned forecast model for prefecture weather forecast bulletins.
//!
//! A bulletin lists every forecast quantity on its own, tied to the block's time
//! markers only by a numeric reference identifier. This crate rebuilds one record
//! per time marker from those lists and states, as contracts, which record holds
//! which value.

pub mod feed;
pub mod fuken_r1;
pub mod lists;
pub mod order;
pub mod text;
