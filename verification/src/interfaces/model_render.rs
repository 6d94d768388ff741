//! The drawing of models.

use vstd::prelude::*;

verus! {

/// What a forced material stands in for.
#[derive(Debug, Clone, Copy, PartialEq, Eq, Structural)]
pub enum OverrideType {
    Normal,
    BuildShadows,
    DepthWrite,
    CustomMaterial,
    SsaoDepthWrite,
}

impl OverrideType {
    /// The number by which the host knows this kind of override.
    pub open spec fn spec_number(&self) -> i32 {
        match self {
            OverrideType::Normal => 0i32,
            OverrideType::BuildShadows => 1,
            OverrideType::DepthWrite => 2,
            OverrideType::CustomMaterial => 3,
            OverrideType::SsaoDepthWrite => 4,
        }
    }

    /// The number by which the host knows this kind of override.
    #[verifier::when_used_as_spec(spec_number)]
    pub fn number(&self) -> (n: i32)
        ensures
            n == self.spec_number(),
    {
        match self {
            OverrideType::Normal => 0,
            OverrideType::BuildShadows => 1,
            OverrideType::DepthWrite => 2,
            OverrideType::CustomMaterial => 3,
            OverrideType::SsaoDepthWrite => 4,
        }
    }
}

} // verus!
