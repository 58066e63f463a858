//! Graphics-engine contexts, stacks, list arguments and states.

use vstd::prelude::*;

verus! {

/// Stores the state of the GE.
pub struct GeContext {
    pub context: [u32; 512],
}

/// Structure storing a stack (for CALL/RET)
pub struct GeStack {
    pub stack: [u32;8],
}

pub struct GeListArgs {
    pub size: u32,
    /// Address (a pointer in the system interface).
    pub context: u32,
    pub num_stacks: u32,
    /// Address (a pointer in the system interface).
    pub stacks: u32,
}

/// Drawing queue interruption parameter
pub struct GeBreakParam {
    pub buf: [u32;4],
}

/// GE matrix types.
#[derive(Clone, Copy, Debug, PartialEq, Eq, Structural)]
pub enum GeMatrixType {
    /// Bone matrices.
    Bone0,
    Bone1,
    Bone2,
    Bone3,
    Bone4,
    Bone5,
    Bone6,
    Bone7,
    /// World matrix
    World,
    /// View matrix
    View,
    /// Projection Matrix
    Projection,
    TexGen,
}

impl GeMatrixType {
    /// The value of this variant in the system interface.
    pub open spec fn spec_to_i32(self) -> i32 {
        match self {
            GeMatrixType::Bone0 => 0,
            GeMatrixType::Bone1 => 1,
            GeMatrixType::Bone2 => 2,
            GeMatrixType::Bone3 => 3,
            GeMatrixType::Bone4 => 4,
            GeMatrixType::Bone5 => 5,
            GeMatrixType::Bone6 => 6,
            GeMatrixType::Bone7 => 7,
            GeMatrixType::World => 8,
            GeMatrixType::View => 9,
            GeMatrixType::Projection => 10,
            GeMatrixType::TexGen => 11,
        }
    }

    /// The value of this variant in the system interface.
    pub fn to_i32(self) -> (v: i32)
        ensures
            v == self.spec_to_i32(),
    {
        match self {
            GeMatrixType::Bone0 => 0,
            GeMatrixType::Bone1 => 1,
            GeMatrixType::Bone2 => 2,
            GeMatrixType::Bone3 => 3,
            GeMatrixType::Bone4 => 4,
            GeMatrixType::Bone5 => 5,
            GeMatrixType::Bone6 => 6,
            GeMatrixType::Bone7 => 7,
            GeMatrixType::World => 8,
            GeMatrixType::View => 9,
            GeMatrixType::Projection => 10,
            GeMatrixType::TexGen => 11,
        }
    }
}

/// List status for sce_ge_list_sync() and sce_ge_draw_sync().
#[derive(Clone, Copy, Debug, PartialEq, Eq, Structural)]
pub enum GeListState {
    Done,
    Queued,
    DrawingDone,
    StallReached,
    CancelDone,
}

impl GeListState {
    /// The value of this variant in the system interface.
    pub open spec fn spec_to_i32(self) -> i32 {
        match self {
            GeListState::Done => 0,
            GeListState::Queued => 1,
            GeListState::DrawingDone => 2,
            GeListState::StallReached => 3,
            GeListState::CancelDone => 4,
        }
    }

    /// The value of this variant in the system interface.
    pub fn to_i32(self) -> (v: i32)
        ensures
            v == self.spec_to_i32(),
    {
        match self {
            GeListState::Done => 0,
            GeListState::Queued => 1,
            GeListState::DrawingDone => 2,
            GeListState::StallReached => 3,
            GeListState::CancelDone => 4,
        }
    }
}

impl GeListState {
    /// The state whose value in the system interface is `v`, if any.
    pub fn from_i32(v: i32) -> (s: Option<GeListState>)
        ensures
            s matches Some(st) ==> st.spec_to_i32() == v,
            s is None <==> !(0 <= v <= 4),
    {
        if v == 0 {
            Some(GeListState::Done)
        } else if v == 1 {
            Some(GeListState::Queued)
        } else if v == 2 {
            Some(GeListState::DrawingDone)
        } else if v == 3 {
            Some(GeListState::StallReached)
        } else if v == 4 {
            Some(GeListState::CancelDone)
        } else {
            None
        }
    }
}

impl Default for GeListArgs {
    /// Arguments with no size, no context and no stacks.
    fn default() -> (args: Self)
        ensures
            args.size == 0,
            args.context == 0,
            args.num_stacks == 0,
            args.stacks == 0,
    {
        GeListArgs { size: 0, context: 0, num_stacks: 0, stacks: 0 }
    }
}

/// Commands of the graphics engine. Each display-list word holds the
/// command in its top 8 bits and a 24-bit argument below.
#[derive(Clone, Copy, Debug, PartialEq, Eq, Structural)]
pub enum Command {
    Nop,
    Vaddr,
    Iaddr,
    Prim,
    Bezier,
    Spline,
    BoundingBox,
    Jump,
    BJump,
    Call,
    Ret,
    End,
    Signal,
    Finish,
    Base,
    VertexType,
    OffsetAddr,
    Origin,
    Region1,
    Region2,
    LightingEnable,
    LightEnable0,
    LightEnable1,
    LightEnable2,
    LightEnable3,
    DepthClampEnable,
    CullFaceEnable,
    TextureMapEnable,
    FogEnable,
    DitherEnable,
    AlphaBlendEnable,
    AlphaTestEnable,
    ZTestEnable,
    StencilTestEnable,
    AntiAliasEnable,
    PatchCullEnable,
    ColorTestEnable,
    LogicOpEnable,
    BoneMatrixNumber,
    BoneMatrixData,
    MorphWeight0,
    MorphWeight1,
    MorphWeight2,
    MorphWeight3,
    MorphWeight4,
    MorphWeight5,
    MorphWeight6,
    MorphWeight7,
    PatchDivision,
    PatchPrimitive,
    PatchFacing,
    WorldMatrixNumber,
    WorldMatrixData,
    ViewMatrixNumber,
    ViewMatrixData,
    ProjMatrixNumber,
    ProjMatrixData,
    TGenMatrixNumber,
    TGenMatrixData,
    ViewportXScale,
    ViewportYScale,
    ViewportZScale,
    ViewportXCenter,
    ViewportYCenter,
    ViewportZCenter,
    TexScaleU,
    TexScaleV,
    TexOffsetU,
    TexOffsetV,
    OffsetX,
    OffsetY,
    ShadeMode,
    ReverseNormal,
    MaterialUpdate,
    MaterialEmissive,
    MaterialAmbient,
    MaterialDiffuse,
    MaterialSpecular,
    MaterialAlpha,
    MaterialSpecularCoef,
    AmbientColor,
    AmbientAlpha,
    LightMode,
    LightType0,
    LightType1,
    LightType2,
    LightType3,
    Light0X,
    Light0Y,
    Light0Z,
    Light1X,
    Light1Y,
    Light1Z,
    Light2X,
    Light2Y,
    Light2Z,
    Light3X,
    Light3Y,
    Light3Z,
    Light0DirectionX,
    Light0DirectionY,
    Light0DirectionZ,
    Light1DirectionX,
    Light1DirectionY,
    Light1DirectionZ,
    Light2DirectionX,
    Light2DirectionY,
    Light2DirectionZ,
    Light3DirectionX,
    Light3DirectionY,
    Light3DirectionZ,
    Light0ConstantAtten,
    Light0LinearAtten,
    Light0QuadtraticAtten,
    Light1ConstantAtten,
    Light1LinearAtten,
    Light1QuadtraticAtten,
    Light2ConstantAtten,
    Light2LinearAtten,
    Light2QuadtraticAtten,
    Light3ConstantAtten,
    Light3LinearAtten,
    Light3QuadtraticAtten,
    Light0ExponentAtten,
    Light1ExponentAtten,
    Light2ExponentAtten,
    Light3ExponentAtten,
    Light0CutoffAtten,
    Light1CutoffAtten,
    Light2CutoffAtten,
    Light3CutoffAtten,
    Light0Ambient,
    Light0Diffuse,
    Light0Specular,
    Light1Ambient,
    Light1Diffuse,
    Light1Specular,
    Light2Ambient,
    Light2Diffuse,
    Light2Specular,
    Light3Ambient,
    Light3Diffuse,
    Light3Specular,
    Cull,
    FrameBufPtr,
    FrameBufWidth,
    ZBufPtr,
    ZBufWidth,
    TexAddr0,
    TexAddr1,
    TexAddr2,
    TexAddr3,
    TexAddr4,
    TexAddr5,
    TexAddr6,
    TexAddr7,
    TexBufWidth0,
    TexBufWidth1,
    TexBufWidth2,
    TexBufWidth3,
    TexBufWidth4,
    TexBufWidth5,
    TexBufWidth6,
    TexBufWidth7,
    ClutAddr,
    ClutAddrUpper,
    TransferSrc,
    TransferSrcW,
    TransferDst,
    TransferDstW,
    TexSize0,
    TexSize1,
    TexSize2,
    TexSize3,
    TexSize4,
    TexSize5,
    TexSize6,
    TexSize7,
    TexMapMode,
    TexShadeLs,
    TexMode,
    TexFormat,
    LoadClut,
    ClutFormat,
    TexFilter,
    TexWrap,
    TexLevel,
    TexFunc,
    TexEnvColor,
    TexFlush,
    TexSync,
    Fog1,
    Fog2,
    FogColor,
    TexLodSlope,
    FramebufPixFormat,
    ClearMode,
    Scissor1,
    Scissor2,
    MinZ,
    MaxZ,
    ColorTest,
    ColorRef,
    ColorTestmask,
    AlphaTest,
    StencilTest,
    StencilOp,
    ZTest,
    BlendMode,
    BlendFixedA,
    BlendFixedB,
    Dith0,
    Dith1,
    Dith2,
    Dith3,
    LogicOp,
    ZWriteDisable,
    MaskRgb,
    MaskAlpha,
    TransferStart,
    TransferSrcPos,
    TransferDstPos,
    TransferSize,
    Vscx,
    Vscy,
    Vscz,
    Vtcs,
    Vtct,
    Vtcq,
    Vcv,
    Vap,
    Vfc,
    Vscv,
}

impl Command {
    /// The command number.
    pub open spec fn spec_to_u32(self) -> u32 {
        match self {
            Command::Nop => 0,
            Command::Vaddr => 1,
            Command::Iaddr => 2,
            Command::Prim => 4,
            Command::Bezier => 5,
            Command::Spline => 6,
            Command::BoundingBox => 7,
            Command::Jump => 8,
            Command::BJump => 9,
            Command::Call => 10,
            Command::Ret => 11,
            Command::End => 12,
            Command::Signal => 14,
            Command::Finish => 15,
            Command::Base => 16,
            Command::VertexType => 18,
            Command::OffsetAddr => 19,
            Command::Origin => 20,
            Command::Region1 => 21,
            Command::Region2 => 22,
            Command::LightingEnable => 23,
            Command::LightEnable0 => 24,
            Command::LightEnable1 => 25,
            Command::LightEnable2 => 26,
            Command::LightEnable3 => 27,
            Command::DepthClampEnable => 28,
            Command::CullFaceEnable => 29,
            Command::TextureMapEnable => 30,
            Command::FogEnable => 31,
            Command::DitherEnable => 32,
            Command::AlphaBlendEnable => 33,
            Command::AlphaTestEnable => 34,
            Command::ZTestEnable => 35,
            Command::StencilTestEnable => 36,
            Command::AntiAliasEnable => 37,
            Command::PatchCullEnable => 38,
            Command::ColorTestEnable => 39,
            Command::LogicOpEnable => 40,
            Command::BoneMatrixNumber => 42,
            Command::BoneMatrixData => 43,
            Command::MorphWeight0 => 44,
            Command::MorphWeight1 => 45,
            Command::MorphWeight2 => 46,
            Command::MorphWeight3 => 47,
            Command::MorphWeight4 => 48,
            Command::MorphWeight5 => 49,
            Command::MorphWeight6 => 50,
            Command::MorphWeight7 => 51,
            Command::PatchDivision => 54,
            Command::PatchPrimitive => 55,
            Command::PatchFacing => 56,
            Command::WorldMatrixNumber => 58,
            Command::WorldMatrixData => 59,
            Command::ViewMatrixNumber => 60,
            Command::ViewMatrixData => 61,
            Command::ProjMatrixNumber => 62,
            Command::ProjMatrixData => 63,
            Command::TGenMatrixNumber => 64,
            Command::TGenMatrixData => 65,
            Command::ViewportXScale => 66,
            Command::ViewportYScale => 67,
            Command::ViewportZScale => 68,
            Command::ViewportXCenter => 69,
            Command::ViewportYCenter => 70,
            Command::ViewportZCenter => 71,
            Command::TexScaleU => 72,
            Command::TexScaleV => 73,
            Command::TexOffsetU => 74,
            Command::TexOffsetV => 75,
            Command::OffsetX => 76,
            Command::OffsetY => 77,
            Command::ShadeMode => 80,
            Command::ReverseNormal => 81,
            Command::MaterialUpdate => 83,
            Command::MaterialEmissive => 84,
            Command::MaterialAmbient => 85,
            Command::MaterialDiffuse => 86,
            Command::MaterialSpecular => 87,
            Command::MaterialAlpha => 88,
            Command::MaterialSpecularCoef => 91,
            Command::AmbientColor => 92,
            Command::AmbientAlpha => 93,
            Command::LightMode => 94,
            Command::LightType0 => 95,
            Command::LightType1 => 96,
            Command::LightType2 => 97,
            Command::LightType3 => 98,
            Command::Light0X => 99,
            Command::Light0Y => 100,
            Command::Light0Z => 101,
            Command::Light1X => 102,
            Command::Light1Y => 103,
            Command::Light1Z => 104,
            Command::Light2X => 105,
            Command::Light2Y => 106,
            Command::Light2Z => 107,
            Command::Light3X => 108,
            Command::Light3Y => 109,
            Command::Light3Z => 110,
            Command::Light0DirectionX => 111,
            Command::Light0DirectionY => 112,
            Command::Light0DirectionZ => 113,
            Command::Light1DirectionX => 114,
            Command::Light1DirectionY => 115,
            Command::Light1DirectionZ => 116,
            Command::Light2DirectionX => 117,
            Command::Light2DirectionY => 118,
            Command::Light2DirectionZ => 119,
            Command::Light3DirectionX => 120,
            Command::Light3DirectionY => 121,
            Command::Light3DirectionZ => 122,
            Command::Light0ConstantAtten => 123,
            Command::Light0LinearAtten => 124,
            Command::Light0QuadtraticAtten => 125,
            Command::Light1ConstantAtten => 126,
            Command::Light1LinearAtten => 127,
            Command::Light1QuadtraticAtten => 128,
            Command::Light2ConstantAtten => 129,
            Command::Light2LinearAtten => 130,
            Command::Light2QuadtraticAtten => 131,
            Command::Light3ConstantAtten => 132,
            Command::Light3LinearAtten => 133,
            Command::Light3QuadtraticAtten => 134,
            Command::Light0ExponentAtten => 135,
            Command::Light1ExponentAtten => 136,
            Command::Light2ExponentAtten => 137,
            Command::Light3ExponentAtten => 138,
            Command::Light0CutoffAtten => 139,
            Command::Light1CutoffAtten => 140,
            Command::Light2CutoffAtten => 141,
            Command::Light3CutoffAtten => 142,
            Command::Light0Ambient => 143,
            Command::Light0Diffuse => 144,
            Command::Light0Specular => 145,
            Command::Light1Ambient => 146,
            Command::Light1Diffuse => 147,
            Command::Light1Specular => 148,
            Command::Light2Ambient => 149,
            Command::Light2Diffuse => 150,
            Command::Light2Specular => 151,
            Command::Light3Ambient => 152,
            Command::Light3Diffuse => 153,
            Command::Light3Specular => 154,
            Command::Cull => 155,
            Command::FrameBufPtr => 156,
            Command::FrameBufWidth => 157,
            Command::ZBufPtr => 158,
            Command::ZBufWidth => 159,
            Command::TexAddr0 => 160,
            Command::TexAddr1 => 161,
            Command::TexAddr2 => 162,
            Command::TexAddr3 => 163,
            Command::TexAddr4 => 164,
            Command::TexAddr5 => 165,
            Command::TexAddr6 => 166,
            Command::TexAddr7 => 167,
            Command::TexBufWidth0 => 168,
            Command::TexBufWidth1 => 169,
            Command::TexBufWidth2 => 170,
            Command::TexBufWidth3 => 171,
            Command::TexBufWidth4 => 172,
            Command::TexBufWidth5 => 173,
            Command::TexBufWidth6 => 174,
            Command::TexBufWidth7 => 175,
            Command::ClutAddr => 176,
            Command::ClutAddrUpper => 177,
            Command::TransferSrc => 178,
            Command::TransferSrcW => 179,
            Command::TransferDst => 180,
            Command::TransferDstW => 181,
            Command::TexSize0 => 184,
            Command::TexSize1 => 185,
            Command::TexSize2 => 186,
            Command::TexSize3 => 187,
            Command::TexSize4 => 188,
            Command::TexSize5 => 189,
            Command::TexSize6 => 190,
            Command::TexSize7 => 191,
            Command::TexMapMode => 192,
            Command::TexShadeLs => 193,
            Command::TexMode => 194,
            Command::TexFormat => 195,
            Command::LoadClut => 196,
            Command::ClutFormat => 197,
            Command::TexFilter => 198,
            Command::TexWrap => 199,
            Command::TexLevel => 200,
            Command::TexFunc => 201,
            Command::TexEnvColor => 202,
            Command::TexFlush => 203,
            Command::TexSync => 204,
            Command::Fog1 => 205,
            Command::Fog2 => 206,
            Command::FogColor => 207,
            Command::TexLodSlope => 208,
            Command::FramebufPixFormat => 210,
            Command::ClearMode => 211,
            Command::Scissor1 => 212,
            Command::Scissor2 => 213,
            Command::MinZ => 214,
            Command::MaxZ => 215,
            Command::ColorTest => 216,
            Command::ColorRef => 217,
            Command::ColorTestmask => 218,
            Command::AlphaTest => 219,
            Command::StencilTest => 220,
            Command::StencilOp => 221,
            Command::ZTest => 222,
            Command::BlendMode => 223,
            Command::BlendFixedA => 224,
            Command::BlendFixedB => 225,
            Command::Dith0 => 226,
            Command::Dith1 => 227,
            Command::Dith2 => 228,
            Command::Dith3 => 229,
            Command::LogicOp => 230,
            Command::ZWriteDisable => 231,
            Command::MaskRgb => 232,
            Command::MaskAlpha => 233,
            Command::TransferStart => 234,
            Command::TransferSrcPos => 235,
            Command::TransferDstPos => 236,
            Command::TransferSize => 238,
            Command::Vscx => 240,
            Command::Vscy => 241,
            Command::Vscz => 242,
            Command::Vtcs => 243,
            Command::Vtct => 244,
            Command::Vtcq => 245,
            Command::Vcv => 246,
            Command::Vap => 247,
            Command::Vfc => 248,
            Command::Vscv => 249,
        }
    }

    /// The command number.
    pub fn to_u32(self) -> (v: u32)
        ensures
            v == self.spec_to_u32(),
    {
        match self {
            Command::Nop => 0,
            Command::Vaddr => 1,
            Command::Iaddr => 2,
            Command::Prim => 4,
            Command::Bezier => 5,
            Command::Spline => 6,
            Command::BoundingBox => 7,
            Command::Jump => 8,
            Command::BJump => 9,
            Command::Call => 10,
            Command::Ret => 11,
            Command::End => 12,
            Command::Signal => 14,
            Command::Finish => 15,
            Command::Base => 16,
            Command::VertexType => 18,
            Command::OffsetAddr => 19,
            Command::Origin => 20,
            Command::Region1 => 21,
            Command::Region2 => 22,
            Command::LightingEnable => 23,
            Command::LightEnable0 => 24,
            Command::LightEnable1 => 25,
            Command::LightEnable2 => 26,
            Command::LightEnable3 => 27,
            Command::DepthClampEnable => 28,
            Command::CullFaceEnable => 29,
            Command::TextureMapEnable => 30,
            Command::FogEnable => 31,
            Command::DitherEnable => 32,
            Command::AlphaBlendEnable => 33,
            Command::AlphaTestEnable => 34,
            Command::ZTestEnable => 35,
            Command::StencilTestEnable => 36,
            Command::AntiAliasEnable => 37,
            Command::PatchCullEnable => 38,
            Command::ColorTestEnable => 39,
            Command::LogicOpEnable => 40,
            Command::BoneMatrixNumber => 42,
            Command::BoneMatrixData => 43,
            Command::MorphWeight0 => 44,
            Command::MorphWeight1 => 45,
            Command::MorphWeight2 => 46,
            Command::MorphWeight3 => 47,
            Command::MorphWeight4 => 48,
            Command::MorphWeight5 => 49,
            Command::MorphWeight6 => 50,
            Command::MorphWeight7 => 51,
            Command::PatchDivision => 54,
            Command::PatchPrimitive => 55,
            Command::PatchFacing => 56,
            Command::WorldMatrixNumber => 58,
            Command::WorldMatrixData => 59,
            Command::ViewMatrixNumber => 60,
            Command::ViewMatrixData => 61,
            Command::ProjMatrixNumber => 62,
            Command::ProjMatrixData => 63,
            Command::TGenMatrixNumber => 64,
            Command::TGenMatrixData => 65,
            Command::ViewportXScale => 66,
            Command::ViewportYScale => 67,
            Command::ViewportZScale => 68,
            Command::ViewportXCenter => 69,
            Command::ViewportYCenter => 70,
            Command::ViewportZCenter => 71,
            Command::TexScaleU => 72,
            Command::TexScaleV => 73,
            Command::TexOffsetU => 74,
            Command::TexOffsetV => 75,
            Command::OffsetX => 76,
            Command::OffsetY => 77,
            Command::ShadeMode => 80,
            Command::ReverseNormal => 81,
            Command::MaterialUpdate => 83,
            Command::MaterialEmissive => 84,
            Command::MaterialAmbient => 85,
            Command::MaterialDiffuse => 86,
            Command::MaterialSpecular => 87,
            Command::MaterialAlpha => 88,
            Command::MaterialSpecularCoef => 91,
            Command::AmbientColor => 92,
            Command::AmbientAlpha => 93,
            Command::LightMode => 94,
            Command::LightType0 => 95,
            Command::LightType1 => 96,
            Command::LightType2 => 97,
            Command::LightType3 => 98,
            Command::Light0X => 99,
            Command::Light0Y => 100,
            Command::Light0Z => 101,
            Command::Light1X => 102,
            Command::Light1Y => 103,
            Command::Light1Z => 104,
            Command::Light2X => 105,
            Command::Light2Y => 106,
            Command::Light2Z => 107,
            Command::Light3X => 108,
            Command::Light3Y => 109,
            Command::Light3Z => 110,
            Command::Light0DirectionX => 111,
            Command::Light0DirectionY => 112,
            Command::Light0DirectionZ => 113,
            Command::Light1DirectionX => 114,
            Command::Light1DirectionY => 115,
            Command::Light1DirectionZ => 116,
            Command::Light2DirectionX => 117,
            Command::Light2DirectionY => 118,
            Command::Light2DirectionZ => 119,
            Command::Light3DirectionX => 120,
            Command::Light3DirectionY => 121,
            Command::Light3DirectionZ => 122,
            Command::Light0ConstantAtten => 123,
            Command::Light0LinearAtten => 124,
            Command::Light0QuadtraticAtten => 125,
            Command::Light1ConstantAtten => 126,
            Command::Light1LinearAtten => 127,
            Command::Light1QuadtraticAtten => 128,
            Command::Light2ConstantAtten => 129,
            Command::Light2LinearAtten => 130,
            Command::Light2QuadtraticAtten => 131,
            Command::Light3ConstantAtten => 132,
            Command::Light3LinearAtten => 133,
            Command::Light3QuadtraticAtten => 134,
            Command::Light0ExponentAtten => 135,
            Command::Light1ExponentAtten => 136,
            Command::Light2ExponentAtten => 137,
            Command::Light3ExponentAtten => 138,
            Command::Light0CutoffAtten => 139,
            Command::Light1CutoffAtten => 140,
            Command::Light2CutoffAtten => 141,
            Command::Light3CutoffAtten => 142,
            Command::Light0Ambient => 143,
            Command::Light0Diffuse => 144,
            Command::Light0Specular => 145,
            Command::Light1Ambient => 146,
            Command::Light1Diffuse => 147,
            Command::Light1Specular => 148,
            Command::Light2Ambient => 149,
            Command::Light2Diffuse => 150,
            Command::Light2Specular => 151,
            Command::Light3Ambient => 152,
            Command::Light3Diffuse => 153,
            Command::Light3Specular => 154,
            Command::Cull => 155,
            Command::FrameBufPtr => 156,
            Command::FrameBufWidth => 157,
            Command::ZBufPtr => 158,
            Command::ZBufWidth => 159,
            Command::TexAddr0 => 160,
            Command::TexAddr1 => 161,
            Command::TexAddr2 => 162,
            Command::TexAddr3 => 163,
            Command::TexAddr4 => 164,
            Command::TexAddr5 => 165,
            Command::TexAddr6 => 166,
            Command::TexAddr7 => 167,
            Command::TexBufWidth0 => 168,
            Command::TexBufWidth1 => 169,
            Command::TexBufWidth2 => 170,
            Command::TexBufWidth3 => 171,
            Command::TexBufWidth4 => 172,
            Command::TexBufWidth5 => 173,
            Command::TexBufWidth6 => 174,
            Command::TexBufWidth7 => 175,
            Command::ClutAddr => 176,
            Command::ClutAddrUpper => 177,
            Command::TransferSrc => 178,
            Command::TransferSrcW => 179,
            Command::TransferDst => 180,
            Command::TransferDstW => 181,
            Command::TexSize0 => 184,
            Command::TexSize1 => 185,
            Command::TexSize2 => 186,
            Command::TexSize3 => 187,
            Command::TexSize4 => 188,
            Command::TexSize5 => 189,
            Command::TexSize6 => 190,
            Command::TexSize7 => 191,
            Command::TexMapMode => 192,
            Command::TexShadeLs => 193,
            Command::TexMode => 194,
            Command::TexFormat => 195,
            Command::LoadClut => 196,
            Command::ClutFormat => 197,
            Command::TexFilter => 198,
            Command::TexWrap => 199,
            Command::TexLevel => 200,
            Command::TexFunc => 201,
            Command::TexEnvColor => 202,
            Command::TexFlush => 203,
            Command::TexSync => 204,
            Command::Fog1 => 205,
            Command::Fog2 => 206,
            Command::FogColor => 207,
            Command::TexLodSlope => 208,
            Command::FramebufPixFormat => 210,
            Command::ClearMode => 211,
            Command::Scissor1 => 212,
            Command::Scissor2 => 213,
            Command::MinZ => 214,
            Command::MaxZ => 215,
            Command::ColorTest => 216,
            Command::ColorRef => 217,
            Command::ColorTestmask => 218,
            Command::AlphaTest => 219,
            Command::StencilTest => 220,
            Command::StencilOp => 221,
            Command::ZTest => 222,
            Command::BlendMode => 223,
            Command::BlendFixedA => 224,
            Command::BlendFixedB => 225,
            Command::Dith0 => 226,
            Command::Dith1 => 227,
            Command::Dith2 => 228,
            Command::Dith3 => 229,
            Command::LogicOp => 230,
            Command::ZWriteDisable => 231,
            Command::MaskRgb => 232,
            Command::MaskAlpha => 233,
            Command::TransferStart => 234,
            Command::TransferSrcPos => 235,
            Command::TransferDstPos => 236,
            Command::TransferSize => 238,
            Command::Vscx => 240,
            Command::Vscy => 241,
            Command::Vscz => 242,
            Command::Vtcs => 243,
            Command::Vtct => 244,
            Command::Vtcq => 245,
            Command::Vcv => 246,
            Command::Vap => 247,
            Command::Vfc => 248,
            Command::Vscv => 249,
        }
    }

}

/// The display-list word for `cmd` with `argument`: the command number in the
/// top 8 bits, the low 24 bits of the argument below.
pub open spec fn spec_command_word(cmd: Command, argument: i32) -> u32 {
    (cmd.spec_to_u32() << 24u32) | ((argument as u32) & 0xffffffu32)
}

/// The display-list word for `cmd` with `argument`: the command number in the
/// top 8 bits, the low 24 bits of the argument below.
pub fn command_word(cmd: Command, argument: i32) -> (w: u32)
    ensures
        w == spec_command_word(cmd, argument),
{
    (cmd.to_u32() << 24u32) | ((argument as u32) & 0xffffffu32)
}

/// The command number held in the top 8 bits of a display-list word.
pub open spec fn word_command(w: u32) -> u32 {
    w >> 24u32
}

/// The 24-bit argument held in the low bits of a display-list word.
pub open spec fn word_argument(w: u32) -> u32 {
    w & 0xffffffu32
}

/// Every command number fits in the 8 bits that a word gives it.
pub proof fn lemma_command_number_fits(cmd: Command)
    ensures
        cmd.spec_to_u32() < 256,
{
}

/// A command word gives back its command and the low 24 bits of its argument.
pub proof fn lemma_command_word_fields(cmd: Command, argument: i32)
    ensures
        word_command(spec_command_word(cmd, argument)) == cmd.spec_to_u32(),
        word_argument(spec_command_word(cmd, argument)) == (argument as u32) & 0xffffffu32,
{
    lemma_command_number_fits(cmd);
    let n = cmd.spec_to_u32();
    let a = argument as u32;
    assert(((n << 24u32) | (a & 0xffffffu32)) >> 24u32 == n) by (bit_vector)
        requires
            n < 256,
    ;
    assert(((n << 24u32) | (a & 0xffffffu32)) & 0xffffffu32 == a & 0xffffffu32) by (bit_vector)
        requires
            n < 256,
    ;
}

} // verus!
