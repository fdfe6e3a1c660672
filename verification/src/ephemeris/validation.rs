//! The strategies of the historical lunar missions the engine is compared
//! against.
use vstd::prelude::*;

verus! {

/// The transfer strategy of a mission.
#[derive(Clone, Copy, PartialEq, Eq, Debug, Structural)]
pub enum MissionStrategyType {
    LowThrustSpiral,
    BallisticDirect,
    BallisticCapture,
    HybridTugChemical,
}

impl MissionStrategyType {
    /// The display text of the strategy, naming its reference mission.
    pub fn label(&self) -> (s: &'static str)
        ensures
            *self == MissionStrategyType::LowThrustSpiral ==> s@ == "Low Thrust Spiral (SMART-1)"@,
            *self == MissionStrategyType::BallisticDirect ==> s@ == "Ballistic Direct (GRAIL)"@,
            *self == MissionStrategyType::BallisticCapture ==> s@ == "Ballistic Capture (CAPSTONE)"@,
            *self == MissionStrategyType::HybridTugChemical ==> s@ == "Hybrid TUG+Chemical (L-RAIL)"@,
    {
        match self {
            MissionStrategyType::LowThrustSpiral => "Low Thrust Spiral (SMART-1)",
            MissionStrategyType::BallisticDirect => "Ballistic Direct (GRAIL)",
            MissionStrategyType::BallisticCapture => "Ballistic Capture (CAPSTONE)",
            MissionStrategyType::HybridTugChemical => "Hybrid TUG+Chemical (L-RAIL)",
        }
    }
}

} // verus!
