//! The beams that the host draws.

use vstd::prelude::*;

verus! {

/// A flag of a beam.
#[derive(Debug, Clone, Copy, PartialEq, Eq, Structural)]
pub enum EBeamType {
    FbeamStartEntity,
    FbeamEndEntity,
    FbeamFadeIn,
    FbeamFadeOut,
    FbeamSineNoise,
    FbeamSolid,
    FbeamShadein,
    FbeamShadeout,
    FbeamOnlyNoiseOnce,
    FbeamNotile,
    FbeamUseHitboxes,
    FbeamStartVisible,
    FbeamEndVisible,
    FbeamIsActive,
    FbeamForever,
    FbeamHaloBeam,
    FbeamReversed,
}

impl EBeamType {
    /// The bit that stands for this flag in the flags of a beam.
    pub open spec fn spec_number(&self) -> i32 {
        match self {
            EBeamType::FbeamStartEntity => 0x1i32,
            EBeamType::FbeamEndEntity => 0x2,
            EBeamType::FbeamFadeIn => 0x4,
            EBeamType::FbeamFadeOut => 0x8,
            EBeamType::FbeamSineNoise => 0x10,
            EBeamType::FbeamSolid => 0x20,
            EBeamType::FbeamShadein => 0x40,
            EBeamType::FbeamShadeout => 0x80,
            EBeamType::FbeamOnlyNoiseOnce => 0x100,
            EBeamType::FbeamNotile => 0x200,
            EBeamType::FbeamUseHitboxes => 0x400,
            EBeamType::FbeamStartVisible => 0x800,
            EBeamType::FbeamEndVisible => 0x1000,
            EBeamType::FbeamIsActive => 0x2000,
            EBeamType::FbeamForever => 0x4000,
            EBeamType::FbeamHaloBeam => 0x8000,
            EBeamType::FbeamReversed => 0x10000,
        }
    }

    /// The bit that stands for this flag in the flags of a beam.
    #[verifier::when_used_as_spec(spec_number)]
    pub fn number(&self) -> (n: i32)
        ensures
            n == self.spec_number(),
    {
        match self {
            EBeamType::FbeamStartEntity => 0x1,
            EBeamType::FbeamEndEntity => 0x2,
            EBeamType::FbeamFadeIn => 0x4,
            EBeamType::FbeamFadeOut => 0x8,
            EBeamType::FbeamSineNoise => 0x10,
            EBeamType::FbeamSolid => 0x20,
            EBeamType::FbeamShadein => 0x40,
            EBeamType::FbeamShadeout => 0x80,
            EBeamType::FbeamOnlyNoiseOnce => 0x100,
            EBeamType::FbeamNotile => 0x200,
            EBeamType::FbeamUseHitboxes => 0x400,
            EBeamType::FbeamStartVisible => 0x800,
            EBeamType::FbeamEndVisible => 0x1000,
            EBeamType::FbeamIsActive => 0x2000,
            EBeamType::FbeamForever => 0x4000,
            EBeamType::FbeamHaloBeam => 0x8000,
            EBeamType::FbeamReversed => 0x10000,
        }
    }
}

/// A beam of the host, known only by its address.
#[derive(Debug, Clone, Copy)]
pub struct BeamT;

pub const TE_BEAMPOINTS: i32 = 0;

pub const TE_SPRITE: i32 = 1;

pub const TE_BEAMDISK: i32 = 2;

pub const TE_BEAMCYLINDER: i32 = 3;

pub const TE_BEAMFOLLOW: i32 = 4;

pub const TE_BEAMRING: i32 = 5;

pub const TE_BEAMSPLINE: i32 = 6;

pub const TE_BEAMRINGPOINT: i32 = 7;

pub const TE_BEAMLASER: i32 = 8;

pub const TE_BEAMTESLA: i32 = 9;

pub const MAX_BEAM_ENTS: i32 = 10;

pub const NOISE_DIVISIONS: i32 = 128;

} // verus!
