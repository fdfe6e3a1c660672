//! The invariant manifolds of the Earth–Moon L1 point: which branch a
//! trajectory follows, the sense of time in which it is propagated, and the
//! side of L1 on which a transit must start.
use vstd::prelude::*;

verus! {

/// The branch of the L1 manifolds a propagation follows.
#[derive(Clone, Copy, PartialEq, Eq, Debug, Structural)]
pub enum ManifoldType {
    /// Stable manifold: approaches L1 as time grows.
    Stable,
    /// Unstable manifold: leaves L1 as time grows.
    Unstable,
    /// Earth → Moon transit, propagated forward in time.
    TransitToMoon,
    /// Moon → Earth transit, propagated backward in time.
    TransitToEarth,
}

/// A side of L1 along the Earth–Moon line.
#[derive(Clone, Copy, PartialEq, Eq, Debug, Structural)]
pub enum Realm {
    /// `x > x_L1`, with the velocity pointing toward the Moon (`vx > 0`).
    Lunar,
    /// `x < x_L1`, with the velocity pointing toward the Earth (`vx < 0`).
    Terrestrial,
}

/// The sense of time in which a branch is propagated: `-1` backward, `+1`
/// forward.
pub open spec fn time_sense(m: ManifoldType) -> int {
    match m {
        ManifoldType::Stable => -1,
        ManifoldType::Unstable => 1,
        ManifoldType::TransitToMoon => 1,
        ManifoldType::TransitToEarth => -1,
    }
}

/// The realm a branch must start in, if it constrains one.
pub open spec fn start_realm(m: ManifoldType) -> Option<Realm> {
    match m {
        ManifoldType::TransitToMoon => Some(Realm::Lunar),
        ManifoldType::TransitToEarth => Some(Realm::Terrestrial),
        _ => None,
    }
}

/// The stable and unstable branches run in opposite senses of time, and so do
/// the two transits, which also start on opposite sides of L1.
pub proof fn lemma_branches_mirror_each_other()
    ensures
        time_sense(ManifoldType::Stable) == -time_sense(ManifoldType::Unstable),
        time_sense(ManifoldType::TransitToMoon) == -time_sense(ManifoldType::TransitToEarth),
        start_realm(ManifoldType::TransitToMoon) != start_realm(ManifoldType::TransitToEarth),
{
}

impl ManifoldType {
    /// The sense of time of the propagation: `-1` for the stable branch and
    /// the transit to the Earth, `+1` for the unstable branch and the transit
    /// to the Moon.
    pub fn time_direction(&self) -> (d: i8)
        ensures
            d as int == time_sense(*self),
    {
        match self {
            ManifoldType::Stable => -1,
            ManifoldType::Unstable => 1,
            ManifoldType::TransitToMoon => 1,
            ManifoldType::TransitToEarth => -1,
        }
    }

    /// The realm a transit must start in: the lunar side for the transit to
    /// the Moon, the terrestrial side for the transit to the Earth; the stable
    /// and unstable branches impose none.
    pub fn required_realm(&self) -> (r: Option<Realm>)
        ensures
            r == start_realm(*self),
    {
        match self {
            ManifoldType::TransitToMoon => Some(Realm::Lunar),
            ManifoldType::TransitToEarth => Some(Realm::Terrestrial),
            _ => None,
        }
    }
}

} // verus!
