//! Ephemeris layer: configuration modes, the SPICE context, and the choice of
//! where the state of each body comes from.
pub mod config;
pub mod spice;
pub mod bodies;
pub mod validation;
