use vstd::prelude::*;

verus! {

/// How body states are obtained.
#[derive(Clone, Copy, PartialEq, Eq, Debug, Structural)]
pub enum EphemerisMode {
    /// Every body comes from the SPICE kernels.
    Spice,
    /// Every body comes from the analytical Keplerian model.
    Analytical,
    /// Earth, Moon and Sun from SPICE when it is loaded, the rest analytical.
    Hybrid,
}

impl EphemerisMode {
    /// Whether the SPICE kernels are loaded in this mode: every mode but the
    /// purely analytical one uses them.
    pub fn uses_spice_kernels(&self) -> (b: bool)
        ensures
            b <==> *self != EphemerisMode::Analytical,
    {
        match self {
            EphemerisMode::Analytical => false,
            _ => true,
        }
    }
}

} // verus!
