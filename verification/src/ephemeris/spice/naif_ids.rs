//! NAIF integer codes of the bodies the engine works with.
use vstd::prelude::*;

verus! {

pub const SUN: i32 = 10;
pub const EARTH: i32 = 399;
pub const MOON: i32 = 301;
pub const MARS: i32 = 499;
pub const VENUS: i32 = 299;
pub const JUPITER: i32 = 599;
pub const SATURN: i32 = 699;
/// Solar-system barycentre.
pub const SSB: i32 = 0;

} // verus!
