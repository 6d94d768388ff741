//! The stages of a frame.

use vstd::prelude::*;

verus! {

/// The stage of a frame at which the host calls out.
#[derive(Debug, Clone, Copy, PartialEq, Eq, Structural)]
pub enum FrameStage {
    UNDEFINED,
    START,
    NetUpdateStart,
    NetUpdatePostdataupdateStart,
    NetUpdatePostdataupdateEnd,
    NetUpdateEnd,
    RenderStart,
    RenderEnd,
}

impl FrameStage {
    /// The number by which the host knows this stage.
    pub open spec fn spec_number(&self) -> i32 {
        match self {
            FrameStage::UNDEFINED => -1i32,
            FrameStage::START => 0,
            FrameStage::NetUpdateStart => 1,
            FrameStage::NetUpdatePostdataupdateStart => 2,
            FrameStage::NetUpdatePostdataupdateEnd => 3,
            FrameStage::NetUpdateEnd => 4,
            FrameStage::RenderStart => 5,
            FrameStage::RenderEnd => 6,
        }
    }

    /// The number by which the host knows this stage.
    #[verifier::when_used_as_spec(spec_number)]
    pub fn number(&self) -> (n: i32)
        ensures
            n == self.spec_number(),
    {
        match self {
            FrameStage::UNDEFINED => -1,
            FrameStage::START => 0,
            FrameStage::NetUpdateStart => 1,
            FrameStage::NetUpdatePostdataupdateStart => 2,
            FrameStage::NetUpdatePostdataupdateEnd => 3,
            FrameStage::NetUpdateEnd => 4,
            FrameStage::RenderStart => 5,
            FrameStage::RenderEnd => 6,
        }
    }
}

} // verus!
