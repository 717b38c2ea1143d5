//! One-dimensional elementary cellular automata: a rule index in 0..=255 is
//! decoded into a lookup table over 3-cell neighborhoods, and a circular
//! universe of boolean cells is evolved by applying that table at every
//! position, under one of three interchangeable execution strategies.

pub mod engine;
pub mod rule;
mod par;
