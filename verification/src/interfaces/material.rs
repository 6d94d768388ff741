//! The materials of the host.

use vstd::prelude::*;

verus! {

/// A flag of a material.
#[derive(Debug, Clone, Copy, PartialEq, Eq, Structural)]
pub enum MaterialVarFlags {
    MaterialVarDebug,
    MaterialVarNoDebugOverride,
    MaterialVarNoDraw,
    MaterialVarUseInFillrateMode,
    MaterialVarVertexcolor,
    MaterialVarVertexalpha,
    MaterialVarSelfillum,
    MaterialVarAdditive,
    MaterialVarAlphatest,
    MaterialVarPseudoTranslucent,
    MaterialVarZnearer,
    MaterialVarModel,
    MaterialVarFlat,
    MaterialVarNocull,
    MaterialVarNofog,
    MaterialVarIgnorez,
    MaterialVarDecal,
    MaterialVarEnvmapsphere,
    MaterialVarAoprepass,
    MaterialVarEnvmapcameraspace,
    MaterialVarBasealphaenvmapmask,
    MaterialVarTranslucent,
    MaterialVarNormalmapalphaenvmapmask,
    MaterialVarNeedsSoftwareSkinning,
    MaterialVarOpaquetexture,
    MaterialVarMultiply,
    MaterialVarSuppressDecals,
    MaterialVarHalflambert,
    MaterialVarWireframe,
    MaterialVarAllowalphatocoverage,
    MaterialVarAlphaModifiedByProxy,
    MaterialVarVertexfog,
}

impl MaterialVarFlags {
    /// The bit that stands for this flag in the flags of a material.
    pub open spec fn spec_number(&self) -> u32 {
        match self {
            MaterialVarFlags::MaterialVarDebug => 0x1u32,
            MaterialVarFlags::MaterialVarNoDebugOverride => 0x2,
            MaterialVarFlags::MaterialVarNoDraw => 0x4,
            MaterialVarFlags::MaterialVarUseInFillrateMode => 0x8,
            MaterialVarFlags::MaterialVarVertexcolor => 0x10,
            MaterialVarFlags::MaterialVarVertexalpha => 0x20,
            MaterialVarFlags::MaterialVarSelfillum => 0x40,
            MaterialVarFlags::MaterialVarAdditive => 0x80,
            MaterialVarFlags::MaterialVarAlphatest => 0x100,
            MaterialVarFlags::MaterialVarPseudoTranslucent => 0x200,
            MaterialVarFlags::MaterialVarZnearer => 0x400,
            MaterialVarFlags::MaterialVarModel => 0x800,
            MaterialVarFlags::MaterialVarFlat => 0x1000,
            MaterialVarFlags::MaterialVarNocull => 0x2000,
            MaterialVarFlags::MaterialVarNofog => 0x4000,
            MaterialVarFlags::MaterialVarIgnorez => 0x8000,
            MaterialVarFlags::MaterialVarDecal => 0x10000,
            MaterialVarFlags::MaterialVarEnvmapsphere => 0x20000,
            MaterialVarFlags::MaterialVarAoprepass => 0x40000,
            MaterialVarFlags::MaterialVarEnvmapcameraspace => 0x80000,
            MaterialVarFlags::MaterialVarBasealphaenvmapmask => 0x100000,
            MaterialVarFlags::MaterialVarTranslucent => 0x200000,
            MaterialVarFlags::MaterialVarNormalmapalphaenvmapmask => 0x400000,
            MaterialVarFlags::MaterialVarNeedsSoftwareSkinning => 0x800000,
            MaterialVarFlags::MaterialVarOpaquetexture => 0x1000000,
            MaterialVarFlags::MaterialVarMultiply => 0x2000000,
            MaterialVarFlags::MaterialVarSuppressDecals => 0x4000000,
            MaterialVarFlags::MaterialVarHalflambert => 0x8000000,
            MaterialVarFlags::MaterialVarWireframe => 0x10000000,
            MaterialVarFlags::MaterialVarAllowalphatocoverage => 0x20000000,
            MaterialVarFlags::MaterialVarAlphaModifiedByProxy => 0x40000000,
            MaterialVarFlags::MaterialVarVertexfog => 0x80000000,
        }
    }

    /// The bit that stands for this flag in the flags of a material.
    #[verifier::when_used_as_spec(spec_number)]
    pub fn number(&self) -> (n: u32)
        ensures
            n == self.spec_number(),
    {
        match self {
            MaterialVarFlags::MaterialVarDebug => 0x1,
            MaterialVarFlags::MaterialVarNoDebugOverride => 0x2,
            MaterialVarFlags::MaterialVarNoDraw => 0x4,
            MaterialVarFlags::MaterialVarUseInFillrateMode => 0x8,
            MaterialVarFlags::MaterialVarVertexcolor => 0x10,
            MaterialVarFlags::MaterialVarVertexalpha => 0x20,
            MaterialVarFlags::MaterialVarSelfillum => 0x40,
            MaterialVarFlags::MaterialVarAdditive => 0x80,
            MaterialVarFlags::MaterialVarAlphatest => 0x100,
            MaterialVarFlags::MaterialVarPseudoTranslucent => 0x200,
            MaterialVarFlags::MaterialVarZnearer => 0x400,
            MaterialVarFlags::MaterialVarModel => 0x800,
            MaterialVarFlags::MaterialVarFlat => 0x1000,
            MaterialVarFlags::MaterialVarNocull => 0x2000,
            MaterialVarFlags::MaterialVarNofog => 0x4000,
            MaterialVarFlags::MaterialVarIgnorez => 0x8000,
            MaterialVarFlags::MaterialVarDecal => 0x10000,
            MaterialVarFlags::MaterialVarEnvmapsphere => 0x20000,
            MaterialVarFlags::MaterialVarAoprepass => 0x40000,
            MaterialVarFlags::MaterialVarEnvmapcameraspace => 0x80000,
            MaterialVarFlags::MaterialVarBasealphaenvmapmask => 0x100000,
            MaterialVarFlags::MaterialVarTranslucent => 0x200000,
            MaterialVarFlags::MaterialVarNormalmapalphaenvmapmask => 0x400000,
            MaterialVarFlags::MaterialVarNeedsSoftwareSkinning => 0x800000,
            MaterialVarFlags::MaterialVarOpaquetexture => 0x1000000,
            MaterialVarFlags::MaterialVarMultiply => 0x2000000,
            MaterialVarFlags::MaterialVarSuppressDecals => 0x4000000,
            MaterialVarFlags::MaterialVarHalflambert => 0x8000000,
            MaterialVarFlags::MaterialVarWireframe => 0x10000000,
            MaterialVarFlags::MaterialVarAllowalphatocoverage => 0x20000000,
            MaterialVarFlags::MaterialVarAlphaModifiedByProxy => 0x40000000,
            MaterialVarFlags::MaterialVarVertexfog => 0x80000000,
        }
    }
}

} // verus!
