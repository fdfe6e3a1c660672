//! Discrete core of the ASTRO-TFC Earth–Moon transfer engine: SPICE context
//! bookkeeping, body identification, ephemeris source selection, manifold
//! propagation directions, the Dormand–Prince 8(7) tableau in exact rational
//! form, and the sequencing of the six mission stages.
pub mod ephemeris;
pub mod integration;
pub mod manifold;
pub mod tfc;
pub mod mission;
