//! Graphics-unit enumerations, colour packing and vertex-format encoding.

use vstd::prelude::*;
use crate::sys::ge::{command_word, lemma_command_word_fields, spec_command_word, word_argument, word_command, Command};
use crate::sys::gu_laws::{
    addresses, holds_bytes, holds_point, lemma_address_words, lemma_alpha_word, lemma_byte_fields_word,
    lemma_color_word, lemma_low_byte, lemma_point_word, lemma_pointer_width_words,
    lemma_width_word_unsigned, points_with_width,
};
use crate::sys::display::DisplayPixelFormat;
use crate::sys::types::{IMatrix4, IVector4};

verus! {

/// Primitive types
#[derive(Clone, Copy, Debug, PartialEq, Eq, Structural)]
pub enum Primitive {
    /// Single pixel points (1 vertex per primitive)
    Points,
    /// Single pixel lines (2 vertices per primitive)
    Lines,
    /// Single pixel line-strip (2 vertices for the first primitive, 1 for every following)
    LineStrip,
    /// Filled triangles (3 vertices per primitive)
    Triangles,
    /// Filled triangles-strip (3 vertices for the first primitive, 1 for every following)
    TriangleStrip,
    /// Filled triangle-fan (3 vertices for the first primitive, 1 for every following)
    TriangleFan,
    /// Filled blocks (2 vertices per primitive)
    Sprites,
}

impl Primitive {
    /// The value of this variant in the system interface.
    pub open spec fn spec_to_u32(self) -> u32 {
        match self {
            Primitive::Points => 0,
            Primitive::Lines => 1,
            Primitive::LineStrip => 2,
            Primitive::Triangles => 3,
            Primitive::TriangleStrip => 4,
            Primitive::TriangleFan => 5,
            Primitive::Sprites => 6,
        }
    }

    /// The value of this variant in the system interface.
    pub fn to_u32(self) -> (v: u32)
        ensures
            v == self.spec_to_u32(),
    {
        match self {
            Primitive::Points => 0,
            Primitive::Lines => 1,
            Primitive::LineStrip => 2,
            Primitive::Triangles => 3,
            Primitive::TriangleStrip => 4,
            Primitive::TriangleFan => 5,
            Primitive::Sprites => 6,
        }
    }
}

/// Patch primitive types
#[derive(Clone, Copy, Debug, PartialEq, Eq, Structural)]
pub enum PatchPrimitive {
    /// Single pixel points (1 vertex per primitive)
    Points,
    /// Single pixel line-strip (2 vertices for the first primitive, 1 for every following)
    LineStrip,
    /// Filled triangles-strip (3 vertices for the first primitive, 1 for every following)
    TriangleStrip,
}

impl PatchPrimitive {
    /// The value of this variant in the system interface.
    pub open spec fn spec_to_u32(self) -> u32 {
        match self {
            PatchPrimitive::Points => 0,
            PatchPrimitive::LineStrip => 2,
            PatchPrimitive::TriangleStrip => 4,
        }
    }

    /// The value of this variant in the system interface.
    pub fn to_u32(self) -> (v: u32)
        ensures
            v == self.spec_to_u32(),
    {
        match self {
            PatchPrimitive::Points => 0,
            PatchPrimitive::LineStrip => 2,
            PatchPrimitive::TriangleStrip => 4,
        }
    }
}

/// States
#[derive(Clone, Copy, Debug, PartialEq, Eq, Structural)]
pub enum State {
    AlphaTest,
    DepthTest,
    ScissorTest,
    StencilTest,
    Blend,
    CullFace,
    Dither,
    Fog,
    ClipPlanes,
    Texture2D,
    Lighting,
    Light0,
    Light1,
    Light2,
    Light3,
    LineSmooth,
    PatchCullFace,
    ColorTest,
    ColorLogicOp,
    FaceNormalReverse,
    PatchFace,
    Fragment2X,
}

impl State {
    /// The value of this variant in the system interface.
    pub open spec fn spec_to_u32(self) -> u32 {
        match self {
            State::AlphaTest => 0,
            State::DepthTest => 1,
            State::ScissorTest => 2,
            State::StencilTest => 3,
            State::Blend => 4,
            State::CullFace => 5,
            State::Dither => 6,
            State::Fog => 7,
            State::ClipPlanes => 8,
            State::Texture2D => 9,
            State::Lighting => 10,
            State::Light0 => 11,
            State::Light1 => 12,
            State::Light2 => 13,
            State::Light3 => 14,
            State::LineSmooth => 15,
            State::PatchCullFace => 16,
            State::ColorTest => 17,
            State::ColorLogicOp => 18,
            State::FaceNormalReverse => 19,
            State::PatchFace => 20,
            State::Fragment2X => 21,
        }
    }

    /// The value of this variant in the system interface.
    pub fn to_u32(self) -> (v: u32)
        ensures
            v == self.spec_to_u32(),
    {
        match self {
            State::AlphaTest => 0,
            State::DepthTest => 1,
            State::ScissorTest => 2,
            State::StencilTest => 3,
            State::Blend => 4,
            State::CullFace => 5,
            State::Dither => 6,
            State::Fog => 7,
            State::ClipPlanes => 8,
            State::Texture2D => 9,
            State::Lighting => 10,
            State::Light0 => 11,
            State::Light1 => 12,
            State::Light2 => 13,
            State::Light3 => 14,
            State::LineSmooth => 15,
            State::PatchCullFace => 16,
            State::ColorTest => 17,
            State::ColorLogicOp => 18,
            State::FaceNormalReverse => 19,
            State::PatchFace => 20,
            State::Fragment2X => 21,
        }
    }
}

/// Matrix modes
#[derive(Clone, Copy, Debug, PartialEq, Eq, Structural)]
pub enum MatrixMode {
    Projection,
    View,
    Model,
    Texture,
}

impl MatrixMode {
    /// The value of this variant in the system interface.
    pub open spec fn spec_to_u32(self) -> u32 {
        match self {
            MatrixMode::Projection => 0,
            MatrixMode::View => 1,
            MatrixMode::Model => 2,
            MatrixMode::Texture => 3,
        }
    }

    /// The value of this variant in the system interface.
    pub fn to_u32(self) -> (v: u32)
        ensures
            v == self.spec_to_u32(),
    {
        match self {
            MatrixMode::Projection => 0,
            MatrixMode::View => 1,
            MatrixMode::Model => 2,
            MatrixMode::Texture => 3,
        }
    }
}

/// Texture pixel formats
#[derive(Clone, Copy, Debug, PartialEq, Eq, Structural)]
pub enum TexturePixelFormat {
    /// Hicolor, 16-bit.
    Psm5650,
    /// Hicolor, 16-bit
    Psm5551,
    /// Hicolor, 16-bit
    Psm4444,
    /// Truecolor, 32-bit
    Psm8888,
    /// Indexed, 4-bit (2 pixels per byte)
    PsmT4,
    /// Indexed, 8-bit
    PsmT8,
    /// Indexed, 16-bit
    PsmT16,
    /// Indexed, 32-bit
    PsmT32,
    PsmDxt1,
    PsmDxt3,
    PsmDxt5,
}

impl TexturePixelFormat {
    /// The value of this variant in the system interface.
    pub open spec fn spec_to_u32(self) -> u32 {
        match self {
            TexturePixelFormat::Psm5650 => 0,
            TexturePixelFormat::Psm5551 => 1,
            TexturePixelFormat::Psm4444 => 2,
            TexturePixelFormat::Psm8888 => 3,
            TexturePixelFormat::PsmT4 => 4,
            TexturePixelFormat::PsmT8 => 5,
            TexturePixelFormat::PsmT16 => 6,
            TexturePixelFormat::PsmT32 => 7,
            TexturePixelFormat::PsmDxt1 => 8,
            TexturePixelFormat::PsmDxt3 => 9,
            TexturePixelFormat::PsmDxt5 => 10,
        }
    }

    /// The value of this variant in the system interface.
    pub fn to_u32(self) -> (v: u32)
        ensures
            v == self.spec_to_u32(),
    {
        match self {
            TexturePixelFormat::Psm5650 => 0,
            TexturePixelFormat::Psm5551 => 1,
            TexturePixelFormat::Psm4444 => 2,
            TexturePixelFormat::Psm8888 => 3,
            TexturePixelFormat::PsmT4 => 4,
            TexturePixelFormat::PsmT8 => 5,
            TexturePixelFormat::PsmT16 => 6,
            TexturePixelFormat::PsmT32 => 7,
            TexturePixelFormat::PsmDxt1 => 8,
            TexturePixelFormat::PsmDxt3 => 9,
            TexturePixelFormat::PsmDxt5 => 10,
        }
    }
}

/// Spline Mode
#[derive(Clone, Copy, Debug, PartialEq, Eq, Structural)]
pub enum SplineMode {
    FillFill,
    OpenFill,
    FillOpen,
    OpenOpen,
}

impl SplineMode {
    /// The value of this variant in the system interface.
    pub open spec fn spec_to_u32(self) -> u32 {
        match self {
            SplineMode::FillFill => 0,
            SplineMode::OpenFill => 1,
            SplineMode::FillOpen => 2,
            SplineMode::OpenOpen => 3,
        }
    }

    /// The value of this variant in the system interface.
    pub fn to_u32(self) -> (v: u32)
        ensures
            v == self.spec_to_u32(),
    {
        match self {
            SplineMode::FillFill => 0,
            SplineMode::OpenFill => 1,
            SplineMode::FillOpen => 2,
            SplineMode::OpenOpen => 3,
        }
    }
}

/// Shading Model
#[derive(Clone, Copy, Debug, PartialEq, Eq, Structural)]
pub enum ShadingModel {
    Flat,
    Smooth,
}

impl ShadingModel {
    /// The value of this variant in the system interface.
    pub open spec fn spec_to_u32(self) -> u32 {
        match self {
            ShadingModel::Flat => 0,
            ShadingModel::Smooth => 1,
        }
    }

    /// The value of this variant in the system interface.
    pub fn to_u32(self) -> (v: u32)
        ensures
            v == self.spec_to_u32(),
    {
        match self {
            ShadingModel::Flat => 0,
            ShadingModel::Smooth => 1,
        }
    }
}

/// Logical operation
#[derive(Clone, Copy, Debug, PartialEq, Eq, Structural)]
pub enum LogicalOperation {
    Clear,
    And,
    AndReverse,
    Copy,
    AndInverted,
    Noop,
    Xor,
    Or,
    Nor,
    Equiv,
    Inverted,
    OrReverse,
    CopyInverted,
    OrInverted,
    Nand,
    /// Every bit set (the operation named `Set` by the hardware documentation).
    SetAll,
}

impl LogicalOperation {
    /// The value of this variant in the system interface.
    pub open spec fn spec_to_u32(self) -> u32 {
        match self {
            LogicalOperation::Clear => 0,
            LogicalOperation::And => 1,
            LogicalOperation::AndReverse => 2,
            LogicalOperation::Copy => 3,
            LogicalOperation::AndInverted => 4,
            LogicalOperation::Noop => 5,
            LogicalOperation::Xor => 6,
            LogicalOperation::Or => 7,
            LogicalOperation::Nor => 8,
            LogicalOperation::Equiv => 9,
            LogicalOperation::Inverted => 10,
            LogicalOperation::OrReverse => 11,
            LogicalOperation::CopyInverted => 12,
            LogicalOperation::OrInverted => 13,
            LogicalOperation::Nand => 14,
            LogicalOperation::SetAll => 15,
        }
    }

    /// The value of this variant in the system interface.
    pub fn to_u32(self) -> (v: u32)
        ensures
            v == self.spec_to_u32(),
    {
        match self {
            LogicalOperation::Clear => 0,
            LogicalOperation::And => 1,
            LogicalOperation::AndReverse => 2,
            LogicalOperation::Copy => 3,
            LogicalOperation::AndInverted => 4,
            LogicalOperation::Noop => 5,
            LogicalOperation::Xor => 6,
            LogicalOperation::Or => 7,
            LogicalOperation::Nor => 8,
            LogicalOperation::Equiv => 9,
            LogicalOperation::Inverted => 10,
            LogicalOperation::OrReverse => 11,
            LogicalOperation::CopyInverted => 12,
            LogicalOperation::OrInverted => 13,
            LogicalOperation::Nand => 14,
            LogicalOperation::SetAll => 15,
        }
    }
}

/// Texture Filter
#[derive(Clone, Copy, Debug, PartialEq, Eq, Structural)]
pub enum TextureFilter {
    Nearest,
    Linear,
    NearestMipmapNearest,
    LinearMipmapNearest,
    NearestMipmapLinear,
    LinearMipmapLinear,
}

impl TextureFilter {
    /// The value of this variant in the system interface.
    pub open spec fn spec_to_u32(self) -> u32 {
        match self {
            TextureFilter::Nearest => 0,
            TextureFilter::Linear => 1,
            TextureFilter::NearestMipmapNearest => 4,
            TextureFilter::LinearMipmapNearest => 5,
            TextureFilter::NearestMipmapLinear => 6,
            TextureFilter::LinearMipmapLinear => 7,
        }
    }

    /// The value of this variant in the system interface.
    pub fn to_u32(self) -> (v: u32)
        ensures
            v == self.spec_to_u32(),
    {
        match self {
            TextureFilter::Nearest => 0,
            TextureFilter::Linear => 1,
            TextureFilter::NearestMipmapNearest => 4,
            TextureFilter::LinearMipmapNearest => 5,
            TextureFilter::NearestMipmapLinear => 6,
            TextureFilter::LinearMipmapLinear => 7,
        }
    }
}

/// Texture Map Mode
#[derive(Clone, Copy, Debug, PartialEq, Eq, Structural)]
pub enum TextureMapMode {
    TextureCoords,
    TextureMatrix,
    EnvironmentMap,
}

impl TextureMapMode {
    /// The value of this variant in the system interface.
    pub open spec fn spec_to_u32(self) -> u32 {
        match self {
            TextureMapMode::TextureCoords => 0,
            TextureMapMode::TextureMatrix => 1,
            TextureMapMode::EnvironmentMap => 2,
        }
    }

    /// The value of this variant in the system interface.
    pub fn to_u32(self) -> (v: u32)
        ensures
            v == self.spec_to_u32(),
    {
        match self {
            TextureMapMode::TextureCoords => 0,
            TextureMapMode::TextureMatrix => 1,
            TextureMapMode::EnvironmentMap => 2,
        }
    }
}

/// Texture Level Mode
#[derive(Clone, Copy, Debug, PartialEq, Eq, Structural)]
pub enum TextureLevelMode {
    Auto,
    Const,
    Slope,
}

impl TextureLevelMode {
    /// The value of this variant in the system interface.
    pub open spec fn spec_to_u32(self) -> u32 {
        match self {
            TextureLevelMode::Auto => 0,
            TextureLevelMode::Const => 1,
            TextureLevelMode::Slope => 2,
        }
    }

    /// The value of this variant in the system interface.
    pub fn to_u32(self) -> (v: u32)
        ensures
            v == self.spec_to_u32(),
    {
        match self {
            TextureLevelMode::Auto => 0,
            TextureLevelMode::Const => 1,
            TextureLevelMode::Slope => 2,
        }
    }
}

/// Texture Projection Map Mode
#[derive(Clone, Copy, Debug, PartialEq, Eq, Structural)]
pub enum TextureProjectionMapMode {
    Position,
    Uv,
    NormalizedNormal,
    Normal,
}

impl TextureProjectionMapMode {
    /// The value of this variant in the system interface.
    pub open spec fn spec_to_u32(self) -> u32 {
        match self {
            TextureProjectionMapMode::Position => 0,
            TextureProjectionMapMode::Uv => 1,
            TextureProjectionMapMode::NormalizedNormal => 2,
            TextureProjectionMapMode::Normal => 3,
        }
    }

    /// The value of this variant in the system interface.
    pub fn to_u32(self) -> (v: u32)
        ensures
            v == self.spec_to_u32(),
    {
        match self {
            TextureProjectionMapMode::Position => 0,
            TextureProjectionMapMode::Uv => 1,
            TextureProjectionMapMode::NormalizedNormal => 2,
            TextureProjectionMapMode::Normal => 3,
        }
    }
}

/// Wrap Mode
#[derive(Clone, Copy, Debug, PartialEq, Eq, Structural)]
pub enum WrapMode {
    /// The texture repeats after crossing the border
    Repeat,
    /// Texture clamps at the border
    Clamp,
}

impl WrapMode {
    /// The value of this variant in the system interface.
    pub open spec fn spec_to_u32(self) -> u32 {
        match self {
            WrapMode::Repeat => 0,
            WrapMode::Clamp => 1,
        }
    }

    /// The value of this variant in the system interface.
    pub fn to_u32(self) -> (v: u32)
        ensures
            v == self.spec_to_u32(),
    {
        match self {
            WrapMode::Repeat => 0,
            WrapMode::Clamp => 1,
        }
    }
}

/// Front Face Direction
#[derive(Clone, Copy, Debug, PartialEq, Eq, Structural)]
pub enum FrontFaceDirection {
    Clockwise,
    CounterClockwise,
}

impl FrontFaceDirection {
    /// The value of this variant in the system interface.
    pub open spec fn spec_to_u32(self) -> u32 {
        match self {
            FrontFaceDirection::Clockwise => 0,
            FrontFaceDirection::CounterClockwise => 1,
        }
    }

    /// The value of this variant in the system interface.
    pub fn to_u32(self) -> (v: u32)
        ensures
            v == self.spec_to_u32(),
    {
        match self {
            FrontFaceDirection::Clockwise => 0,
            FrontFaceDirection::CounterClockwise => 1,
        }
    }
}

/// Test function for alpha test
#[derive(Clone, Copy, Debug, PartialEq, Eq, Structural)]
pub enum AlphaFunc {
    Never,
    Always,
    Equal,
    NotEqual,
    Less,
    LessOrEqual,
    Greater,
    GreaterOrEqual,
}

impl AlphaFunc {
    /// The value of this variant in the system interface.
    pub open spec fn spec_to_u32(self) -> u32 {
        match self {
            AlphaFunc::Never => 0,
            AlphaFunc::Always => 1,
            AlphaFunc::Equal => 2,
            AlphaFunc::NotEqual => 3,
            AlphaFunc::Less => 4,
            AlphaFunc::LessOrEqual => 5,
            AlphaFunc::Greater => 6,
            AlphaFunc::GreaterOrEqual => 7,
        }
    }

    /// The value of this variant in the system interface.
    pub fn to_u32(self) -> (v: u32)
        ensures
            v == self.spec_to_u32(),
    {
        match self {
            AlphaFunc::Never => 0,
            AlphaFunc::Always => 1,
            AlphaFunc::Equal => 2,
            AlphaFunc::NotEqual => 3,
            AlphaFunc::Less => 4,
            AlphaFunc::LessOrEqual => 5,
            AlphaFunc::Greater => 6,
            AlphaFunc::GreaterOrEqual => 7,
        }
    }
}

/// Test function for stencil test
#[derive(Clone, Copy, Debug, PartialEq, Eq, Structural)]
pub enum StencilFunc {
    Never,
    Always,
    Equal,
    NotEqual,
    Less,
    LessOrEqual,
    Greater,
    GreaterOrEqual,
}

impl StencilFunc {
    /// The value of this variant in the system interface.
    pub open spec fn spec_to_u32(self) -> u32 {
        match self {
            StencilFunc::Never => 0,
            StencilFunc::Always => 1,
            StencilFunc::Equal => 2,
            StencilFunc::NotEqual => 3,
            StencilFunc::Less => 4,
            StencilFunc::LessOrEqual => 5,
            StencilFunc::Greater => 6,
            StencilFunc::GreaterOrEqual => 7,
        }
    }

    /// The value of this variant in the system interface.
    pub fn to_u32(self) -> (v: u32)
        ensures
            v == self.spec_to_u32(),
    {
        match self {
            StencilFunc::Never => 0,
            StencilFunc::Always => 1,
            StencilFunc::Equal => 2,
            StencilFunc::NotEqual => 3,
            StencilFunc::Less => 4,
            StencilFunc::LessOrEqual => 5,
            StencilFunc::Greater => 6,
            StencilFunc::GreaterOrEqual => 7,
        }
    }
}

/// Test function for color test
#[derive(Clone, Copy, Debug, PartialEq, Eq, Structural)]
pub enum ColorFunc {
    Never,
    Always,
    Equal,
    NotEqual,
}

impl ColorFunc {
    /// The value of this variant in the system interface.
    pub open spec fn spec_to_u32(self) -> u32 {
        match self {
            ColorFunc::Never => 0,
            ColorFunc::Always => 1,
            ColorFunc::Equal => 2,
            ColorFunc::NotEqual => 3,
        }
    }

    /// The value of this variant in the system interface.
    pub fn to_u32(self) -> (v: u32)
        ensures
            v == self.spec_to_u32(),
    {
        match self {
            ColorFunc::Never => 0,
            ColorFunc::Always => 1,
            ColorFunc::Equal => 2,
            ColorFunc::NotEqual => 3,
        }
    }
}

/// Test function for depth test
#[derive(Clone, Copy, Debug, PartialEq, Eq, Structural)]
pub enum DepthFunc {
    /// No pixels pass the depth-test
    Never,
    /// All pixels pass the depth-test
    Always,
    /// Pixels that match the depth-test pass
    Equal,
    /// Pixels that doesn't match the depth-test pass
    NotEqual,
    /// Pixels that are less in depth passes
    Less,
    /// Pixels that are less or equal in depth passes
    LessOrEqual,
    /// Pixels that are greater in depth passes
    Greater,
    /// Pixels that are greater or equal passes
    GreaterOrEqual,
}

impl DepthFunc {
    /// The value of this variant in the system interface.
    pub open spec fn spec_to_u32(self) -> u32 {
        match self {
            DepthFunc::Never => 0,
            DepthFunc::Always => 1,
            DepthFunc::Equal => 2,
            DepthFunc::NotEqual => 3,
            DepthFunc::Less => 4,
            DepthFunc::LessOrEqual => 5,
            DepthFunc::Greater => 6,
            DepthFunc::GreaterOrEqual => 7,
        }
    }

    /// The value of this variant in the system interface.
    pub fn to_u32(self) -> (v: u32)
        ensures
            v == self.spec_to_u32(),
    {
        match self {
            DepthFunc::Never => 0,
            DepthFunc::Always => 1,
            DepthFunc::Equal => 2,
            DepthFunc::NotEqual => 3,
            DepthFunc::Less => 4,
            DepthFunc::LessOrEqual => 5,
            DepthFunc::Greater => 6,
            DepthFunc::GreaterOrEqual => 7,
        }
    }
}

/// Texture effect apply-modes.
///
/// Key for the apply-modes:
/// - `Cv`: Color value result
/// - `Ct`: Texture color
/// - `Cf`: Fragment color
/// - `Cc`: Constant color (specified by `sce_gu_tex_env_color`)
///
/// The fields TCC_RGB and TCC_RGBA specify components that differ between
/// the two different component modes.
#[derive(Clone, Copy, Debug, PartialEq, Eq, Structural)]
pub enum TextureEffect {
    /// The texture is multiplied with the current diffuse fragment.
    ///
    /// `Cv=Ct*Cf TCC_RGB: Av=Af TCC_RGBA: Av=At*Af`
    Modulate,
    /// `TCC_RGB: Cv=Ct,Av=Af TCC_RGBA: Cv=Cf*(1-At)+Ct*At Av=Af`
    Decal,
    /// `Cv=(Cf*(1-Ct))+(Cc*Ct) TCC_RGB: Av=Af TCC_RGBA: Av=At*Af`
    Blend,
    /// The texture replaces the fragment
    ///
    /// `Cv=Ct TCC_RGB: Av=Af TCC_RGBA: Av=At`
    Replace,
    /// The texture is added on-top of the diffuse fragment
    ///
    /// `Cv=Cf+Ct TCC_RGB: Av=Af TCC_RGBA: Av=At*Af`
    Add,
}

impl TextureEffect {
    /// The value of this variant in the system interface.
    pub open spec fn spec_to_u32(self) -> u32 {
        match self {
            TextureEffect::Modulate => 0,
            TextureEffect::Decal => 1,
            TextureEffect::Blend => 2,
            TextureEffect::Replace => 3,
            TextureEffect::Add => 4,
        }
    }

    /// The value of this variant in the system interface.
    pub fn to_u32(self) -> (v: u32)
        ensures
            v == self.spec_to_u32(),
    {
        match self {
            TextureEffect::Modulate => 0,
            TextureEffect::Decal => 1,
            TextureEffect::Blend => 2,
            TextureEffect::Replace => 3,
            TextureEffect::Add => 4,
        }
    }
}

/// Texture color component-modes.
#[derive(Clone, Copy, Debug, PartialEq, Eq, Structural)]
pub enum TextureColorComponent {
    /// The texture alpha does not have any effect.
    Rgb,
    /// The texture alpha is taken into account.
    Rgba,
}

impl TextureColorComponent {
    /// The value of this variant in the system interface.
    pub open spec fn spec_to_u32(self) -> u32 {
        match self {
            TextureColorComponent::Rgb => 0,
            TextureColorComponent::Rgba => 1,
        }
    }

    /// The value of this variant in the system interface.
    pub fn to_u32(self) -> (v: u32)
        ensures
            v == self.spec_to_u32(),
    {
        match self {
            TextureColorComponent::Rgb => 0,
            TextureColorComponent::Rgba => 1,
        }
    }
}

/// Mipmap Level
#[derive(Clone, Copy, Debug, PartialEq, Eq, Structural)]
pub enum MipmapLevel {
    /// No mipmap level (level 0).
    NoLevel,
    Level1,
    Level2,
    Level3,
    Level4,
    Level5,
    Level6,
    Level7,
}

impl MipmapLevel {
    /// The value of this variant in the system interface.
    pub open spec fn spec_to_u32(self) -> u32 {
        match self {
            MipmapLevel::NoLevel => 0,
            MipmapLevel::Level1 => 1,
            MipmapLevel::Level2 => 2,
            MipmapLevel::Level3 => 3,
            MipmapLevel::Level4 => 4,
            MipmapLevel::Level5 => 5,
            MipmapLevel::Level6 => 6,
            MipmapLevel::Level7 => 7,
        }
    }

    /// The value of this variant in the system interface.
    pub fn to_u32(self) -> (v: u32)
        ensures
            v == self.spec_to_u32(),
    {
        match self {
            MipmapLevel::NoLevel => 0,
            MipmapLevel::Level1 => 1,
            MipmapLevel::Level2 => 2,
            MipmapLevel::Level3 => 3,
            MipmapLevel::Level4 => 4,
            MipmapLevel::Level5 => 5,
            MipmapLevel::Level6 => 6,
            MipmapLevel::Level7 => 7,
        }
    }
}

/// Blending Operation
///
/// Keys for the blending operations:
///
/// - `Cs`: Source color
/// - `Cd`: Destination color
/// - `Bs`: Blend function for source fragment
/// - `Bd`: Blend function for destination fragment
#[derive(Clone, Copy, Debug, PartialEq, Eq, Structural)]
pub enum BlendOp {
    /// `(Cs*Bs) + (Cd*Bd)`
    Add,
    /// `(Cs*Bs) - (Cd*Bd)`
    Subtract,
    /// `(Cd*Bd) - (Cs*Bs)`
    ReverseSubtract,
    /// `Cs < Cd ? Cs : Cd`
    Min,
    /// `Cs < Cd ? Cd : Cs`
    Max,
    /// `|Cs-Cd|`
    Abs,
}

impl BlendOp {
    /// The value of this variant in the system interface.
    pub open spec fn spec_to_u32(self) -> u32 {
        match self {
            BlendOp::Add => 0,
            BlendOp::Subtract => 1,
            BlendOp::ReverseSubtract => 2,
            BlendOp::Min => 3,
            BlendOp::Max => 4,
            BlendOp::Abs => 5,
        }
    }

    /// The value of this variant in the system interface.
    pub fn to_u32(self) -> (v: u32)
        ensures
            v == self.spec_to_u32(),
    {
        match self {
            BlendOp::Add => 0,
            BlendOp::Subtract => 1,
            BlendOp::ReverseSubtract => 2,
            BlendOp::Min => 3,
            BlendOp::Max => 4,
            BlendOp::Abs => 5,
        }
    }
}

/// Blending factor for source operand
#[derive(Clone, Copy, Debug, PartialEq, Eq, Structural)]
pub enum BlendSrc {
    SrcColor,
    OneMinusSrcColor,
    SrcAlpha,
    OneMinusSrcAlpha,
    /// Use the fixed value provided as `src_fix` in `sce_gu_blend_func`.
    Fix,
}

impl BlendSrc {
    /// The value of this variant in the system interface.
    pub open spec fn spec_to_u32(self) -> u32 {
        match self {
            BlendSrc::SrcColor => 0,
            BlendSrc::OneMinusSrcColor => 1,
            BlendSrc::SrcAlpha => 2,
            BlendSrc::OneMinusSrcAlpha => 3,
            BlendSrc::Fix => 10,
        }
    }

    /// The value of this variant in the system interface.
    pub fn to_u32(self) -> (v: u32)
        ensures
            v == self.spec_to_u32(),
    {
        match self {
            BlendSrc::SrcColor => 0,
            BlendSrc::OneMinusSrcColor => 1,
            BlendSrc::SrcAlpha => 2,
            BlendSrc::OneMinusSrcAlpha => 3,
            BlendSrc::Fix => 10,
        }
    }
}

/// Blending Factor Destination
#[derive(Clone, Copy, Debug, PartialEq, Eq, Structural)]
pub enum BlendDst {
    DstColor,
    OneMinusDstColor,
    DstAlpha,
    OneMinusDstAlpha,
    /// Use the fixed value provided as `dst_fix` in `sce_gu_blend_func`.
    Fix,
}

impl BlendDst {
    /// The value of this variant in the system interface.
    pub open spec fn spec_to_u32(self) -> u32 {
        match self {
            BlendDst::DstColor => 0,
            BlendDst::OneMinusDstColor => 1,
            BlendDst::DstAlpha => 4,
            BlendDst::OneMinusDstAlpha => 5,
            BlendDst::Fix => 10,
        }
    }

    /// The value of this variant in the system interface.
    pub fn to_u32(self) -> (v: u32)
        ensures
            v == self.spec_to_u32(),
    {
        match self {
            BlendDst::DstColor => 0,
            BlendDst::OneMinusDstColor => 1,
            BlendDst::DstAlpha => 4,
            BlendDst::OneMinusDstAlpha => 5,
            BlendDst::Fix => 10,
        }
    }
}

/// Stencil Operations
#[derive(Clone, Copy, Debug, PartialEq, Eq, Structural)]
pub enum StencilOperation {
    /// Keeps the current value
    Keep,
    /// Sets the stencil buffer value to zero
    Zero,
    /// Sets the stencil buffer value to ref, as specified by `sce_gu_stencil_func`
    Replace,
    /// Increments the current stencil buffer value
    Invert,
    /// Decrease the current stencil buffer value
    Incr,
    /// Bitwise invert the current stencil buffer value
    Decr,
}

impl StencilOperation {
    /// The value of this variant in the system interface.
    pub open spec fn spec_to_u32(self) -> u32 {
        match self {
            StencilOperation::Keep => 0,
            StencilOperation::Zero => 1,
            StencilOperation::Replace => 2,
            StencilOperation::Invert => 3,
            StencilOperation::Incr => 4,
            StencilOperation::Decr => 5,
        }
    }

    /// The value of this variant in the system interface.
    pub fn to_u32(self) -> (v: u32)
        ensures
            v == self.spec_to_u32(),
    {
        match self {
            StencilOperation::Keep => 0,
            StencilOperation::Zero => 1,
            StencilOperation::Replace => 2,
            StencilOperation::Invert => 3,
            StencilOperation::Incr => 4,
            StencilOperation::Decr => 5,
        }
    }
}

/// Light modes
#[derive(Clone, Copy, Debug, PartialEq, Eq, Structural)]
pub enum LightMode {
    SingleColor,
    /// Separate specular colors are used to interpolate the specular component
    /// independently, so that it can be added to the fragment after the texture
    /// color.
    SeparateSpecularColor,
}

impl LightMode {
    /// The value of this variant in the system interface.
    pub open spec fn spec_to_u32(self) -> u32 {
        match self {
            LightMode::SingleColor => 0,
            LightMode::SeparateSpecularColor => 1,
        }
    }

    /// The value of this variant in the system interface.
    pub fn to_u32(self) -> (v: u32)
        ensures
            v == self.spec_to_u32(),
    {
        match self {
            LightMode::SingleColor => 0,
            LightMode::SeparateSpecularColor => 1,
        }
    }
}

/// Light Type
#[derive(Clone, Copy, Debug, PartialEq, Eq, Structural)]
pub enum LightType {
    Directional,
    Pointlight,
    Spotlight,
}

impl LightType {
    /// The value of this variant in the system interface.
    pub open spec fn spec_to_u32(self) -> u32 {
        match self {
            LightType::Directional => 0,
            LightType::Pointlight => 1,
            LightType::Spotlight => 2,
        }
    }

    /// The value of this variant in the system interface.
    pub fn to_u32(self) -> (v: u32)
        ensures
            v == self.spec_to_u32(),
    {
        match self {
            LightType::Directional => 0,
            LightType::Pointlight => 1,
            LightType::Spotlight => 2,
        }
    }
}

/// Contexts
#[derive(Clone, Copy, Debug, PartialEq, Eq, Structural)]
pub enum Context {
    Direct,
    Call,
    Send,
}

impl Context {
    /// The value of this variant in the system interface.
    pub open spec fn spec_to_u32(self) -> u32 {
        match self {
            Context::Direct => 0,
            Context::Call => 1,
            Context::Send => 2,
        }
    }

    /// The value of this variant in the system interface.
    pub fn to_u32(self) -> (v: u32)
        ensures
            v == self.spec_to_u32(),
    {
        match self {
            Context::Direct => 0,
            Context::Call => 1,
            Context::Send => 2,
        }
    }
}

/// List Queue Mode
#[derive(Clone, Copy, Debug, PartialEq, Eq, Structural)]
pub enum QueueMode {
    /// Place list last in the queue, so it executes in-order
    Tail,
    /// Place list first in queue so that it executes as soon as possible
    Head,
}

impl QueueMode {
    /// The value of this variant in the system interface.
    pub open spec fn spec_to_u32(self) -> u32 {
        match self {
            QueueMode::Tail => 0,
            QueueMode::Head => 1,
        }
    }

    /// The value of this variant in the system interface.
    pub fn to_u32(self) -> (v: u32)
        ensures
            v == self.spec_to_u32(),
    {
        match self {
            QueueMode::Tail => 0,
            QueueMode::Head => 1,
        }
    }
}

/// Sync mode
#[derive(Clone, Copy, Debug, PartialEq, Eq, Structural)]
pub enum SyncMode {
    /// Wait until the last sceGuFinish command is reached.
    Finish,
    /// Wait until the last (?) signal is executed.
    Signal,
    /// Wait until all commands currently in list are executed.
    Done,
    /// Wait for the currently executed display list (`Context::Direct`).
    List,
    /// Wait for the last send list.
    Send,
}

impl SyncMode {
    /// The value of this variant in the system interface.
    pub open spec fn spec_to_u32(self) -> u32 {
        match self {
            SyncMode::Finish => 0,
            SyncMode::Signal => 1,
            SyncMode::Done => 2,
            SyncMode::List => 3,
            SyncMode::Send => 4,
        }
    }

    /// The value of this variant in the system interface.
    pub fn to_u32(self) -> (v: u32)
        ensures
            v == self.spec_to_u32(),
    {
        match self {
            SyncMode::Finish => 0,
            SyncMode::Signal => 1,
            SyncMode::Done => 2,
            SyncMode::List => 3,
            SyncMode::Send => 4,
        }
    }
}

/// Sync Behavior
#[derive(Clone, Copy, Debug, PartialEq, Eq, Structural)]
pub enum SyncBehavior {
    /// Wait for the GE list to be completed.
    Wait,
    /// Just peek at the current state.
    NoWait,
}

impl SyncBehavior {
    /// The value of this variant in the system interface.
    pub open spec fn spec_to_u32(self) -> u32 {
        match self {
            SyncBehavior::Wait => 0,
            SyncBehavior::NoWait => 1,
        }
    }

    /// The value of this variant in the system interface.
    pub fn to_u32(self) -> (v: u32)
        ensures
            v == self.spec_to_u32(),
    {
        match self {
            SyncBehavior::Wait => 0,
            SyncBehavior::NoWait => 1,
        }
    }
}

/// GU Callback ID
#[derive(Clone, Copy, Debug, PartialEq, Eq, Structural)]
pub enum CallbackId {
    /// Called when `sce_gu_signal` is used.
    Signal,
    /// Called when display list is finished.
    Finish,
}

impl CallbackId {
    /// The value of this variant in the system interface.
    pub open spec fn spec_to_u32(self) -> u32 {
        match self {
            CallbackId::Signal => 1,
            CallbackId::Finish => 4,
        }
    }

    /// The value of this variant in the system interface.
    pub fn to_u32(self) -> (v: u32)
        ensures
            v == self.spec_to_u32(),
    {
        match self {
            CallbackId::Signal => 1,
            CallbackId::Finish => 4,
        }
    }
}

/// Signal behavior
#[derive(Clone, Copy, Debug, PartialEq, Eq, Structural)]
pub enum SignalBehavior {
    /// Stops display list execution until callback function finished.
    Suspend,
    /// Do not stop display list execution during callback.
    Continue,
}

impl SignalBehavior {
    /// The value of this variant in the system interface.
    pub open spec fn spec_to_u32(self) -> u32 {
        match self {
            SignalBehavior::Suspend => 1,
            SignalBehavior::Continue => 2,
        }
    }

    /// The value of this variant in the system interface.
    pub fn to_u32(self) -> (v: u32)
        ensures
            v == self.spec_to_u32(),
    {
        match self {
            SignalBehavior::Suspend => 1,
            SignalBehavior::Continue => 2,
        }
    }
}

/// CLUT palette pixel formats.
///
/// This is the pixel format for the input palette when setting up a CLUT.
#[derive(Clone, Copy, Debug, PartialEq, Eq, Structural)]
pub enum ClutPixelFormat {
    /// Hicolor, 16-bit, RGB 5:6:5
    Psm5650,
    /// Hicolor, 16-bit, RGBA 5:5:5:1
    Psm5551,
    /// Hicolor, 16-bit, RGBA 4:4:4:4
    Psm4444,
    /// Truecolor, 32-bit, RGBA 8:8:8:8
    Psm8888,
}

impl ClutPixelFormat {
    /// The value of this variant in the system interface.
    pub open spec fn spec_to_u32(self) -> u32 {
        match self {
            ClutPixelFormat::Psm5650 => 0,
            ClutPixelFormat::Psm5551 => 1,
            ClutPixelFormat::Psm4444 => 2,
            ClutPixelFormat::Psm8888 => 3,
        }
    }

    /// The value of this variant in the system interface.
    pub fn to_u32(self) -> (v: u32)
        ensures
            v == self.spec_to_u32(),
    {
        match self {
            ClutPixelFormat::Psm5650 => 0,
            ClutPixelFormat::Psm5551 => 1,
            ClutPixelFormat::Psm4444 => 2,
            ClutPixelFormat::Psm8888 => 3,
        }
    }
}

impl TexturePixelFormat {
    /// Whether the format is one of the block-compressed (DXT) formats, whose
    /// memory size is not computed by this library.
    pub open spec fn is_compressed(self) -> bool {
        self is PsmDxt1 || self is PsmDxt3 || self is PsmDxt5
    }
}

impl State {
    /// The state whose value in the system interface is `value`, if any.
    pub fn from_u32(value: u32) -> (s: Option<State>)
        ensures
            match s {
                Some(st) => st.spec_to_u32() == value,
                None => forall|st: State| st.spec_to_u32() != value,
            },
    {
        match value {
            0 => Some(State::AlphaTest),
            1 => Some(State::DepthTest),
            2 => Some(State::ScissorTest),
            3 => Some(State::StencilTest),
            4 => Some(State::Blend),
            5 => Some(State::CullFace),
            6 => Some(State::Dither),
            7 => Some(State::Fog),
            8 => Some(State::ClipPlanes),
            9 => Some(State::Texture2D),
            10 => Some(State::Lighting),
            11 => Some(State::Light0),
            12 => Some(State::Light1),
            13 => Some(State::Light2),
            14 => Some(State::Light3),
            15 => Some(State::LineSmooth),
            16 => Some(State::PatchCullFace),
            17 => Some(State::ColorTest),
            18 => Some(State::ColorLogicOp),
            19 => Some(State::FaceNormalReverse),
            20 => Some(State::PatchFace),
            21 => Some(State::Fragment2X),
            _ => None,
        }
    }
}

/// Distinct states have distinct values, so decoding a state's value gives
/// the state back.
pub proof fn lemma_state_value_injective(s1: State, s2: State)
    requires
        s1.spec_to_u32() == s2.spec_to_u32(),
    ensures
        s1 == s2,
{
}

/// The 32-bit value holding the 8-bit channels `a`, `b`, `g`, `r` from the
/// most significant byte down.
pub open spec fn packed_abgr(a: u8, b: u8, g: u8, r: u8) -> u32 {
    (a as int * 0x1000000 + b as int * 0x10000 + g as int * 0x100 + r as int) as u32
}

/// Map 8-bit color channels into one 32-bit value.
pub fn abgr(a: u8, b: u8, g: u8, r: u8) -> (c: u32)
    ensures
        c == packed_abgr(a, b, g, r),
{
    let c: u32 = (r as u32) | ((g as u32) << 8) | ((b as u32) << 16) | ((a as u32) << 24);
    assert(c == (a as int * 0x1000000 + b as int * 0x10000 + g as int * 0x100 + r as int)) by (bit_vector)
        requires
            c == (r as u32) | ((g as u32) << 8) | ((b as u32) << 16) | ((a as u32) << 24),
    ;
    c
}

/// Map 8-bit color channels into one 32-bit value.
pub fn argb(a: u8, r: u8, g: u8, b: u8) -> (c: u32)
    ensures
        c == packed_abgr(a, b, g, r),
{
    abgr(a, b, g, r)
}

/// Map 8-bit color channels into one 32-bit value.
pub fn rgba(r: u8, g: u8, b: u8, a: u8) -> (c: u32)
    ensures
        c == packed_abgr(a, b, g, r),
{
    argb(a, r, g, b)
}

/// Each channel packed by `abgr`, `argb` or `rgba` is read back from its own
/// byte: alpha from bits 24..32, blue from 16..24, green from 8..16 and red
/// from 0..8. Distinct channel values therefore give distinct packed colors.
pub proof fn lemma_packed_channels(a: u8, b: u8, g: u8, r: u8)
    ensures
        packed_abgr(a, b, g, r) >> 24 == a,
        (packed_abgr(a, b, g, r) >> 16) & 0xff == b,
        (packed_abgr(a, b, g, r) >> 8) & 0xff == g,
        packed_abgr(a, b, g, r) & 0xff == r,
{
    let c = packed_abgr(a, b, g, r);
    assert(c == (a as int * 0x1000000 + b as int * 0x10000 + g as int * 0x100 + r as int));
    assert(c >> 24 == a && (c >> 16) & 0xff == b && (c >> 8) & 0xff == g && c & 0xff == r)
        by (bit_vector)
        requires
            c == (a as int * 0x1000000 + b as int * 0x10000 + g as int * 0x100 + r as int),
    ;
}

/// The vertex type decides how the vertices align and what kind of
/// information they contain. Its bits combine the format fields whose bit
/// patterns are the associated constants below.
#[derive(Clone, Copy, Debug, PartialEq, Eq, Structural)]
pub struct VertexType {
    bits: i32,
}

impl VertexType {
    /// 8-bit texture coordinates
    pub const TEXTURE_8BIT: i32 = 1;
    /// 16-bit texture coordinates
    pub const TEXTURE_16BIT: i32 = 2;
    /// 32-bit texture coordinates (float)
    pub const TEXTURE_32BITF: i32 = 3;
    /// 16-bit color (R5G6B5A0)
    pub const COLOR_5650: i32 = 4 << 2;
    /// 16-bit color (R5G5B5A1)
    pub const COLOR_5551: i32 = 5 << 2;
    /// 16-bit color (R4G4B4A4)
    pub const COLOR_4444: i32 = 6 << 2;
    /// 32-bit color (R8G8B8A8)
    pub const COLOR_8888: i32 = 7 << 2;
    /// 8-bit normals
    pub const NORMAL_8BIT: i32 = 1 << 5;
    /// 16-bit normals
    pub const NORMAL_16BIT: i32 = 2 << 5;
    /// 32-bit normals (float)
    pub const NORMAL_32BITF: i32 = 3 << 5;
    /// 8-bit vertex position
    pub const VERTEX_8BIT: i32 = 1 << 7;
    /// 16-bit vertex position
    pub const VERTEX_16BIT: i32 = 2 << 7;
    /// 32-bit vertex position (float)
    pub const VERTEX_32BITF: i32 = 3 << 7;
    /// 8-bit weights
    pub const WEIGHT_8BIT: i32 = 1 << 9;
    /// 16-bit weights
    pub const WEIGHT_16BIT: i32 = 2 << 9;
    /// 32-bit weights (float)
    pub const WEIGHT_32BITF: i32 = 3 << 9;
    /// 8-bit vertex index
    pub const INDEX_8BIT: i32 = 1 << 11;
    /// 16-bit vertex index
    pub const INDEX_16BIT: i32 = 2 << 11;
    /// One weight per vertex (`num_weights(1)`).
    pub const WEIGHTS1: i32 = 0 << 14;
    /// Two weights per vertex (`num_weights(2)`).
    pub const WEIGHTS2: i32 = 1 << 14;
    /// Three weights per vertex (`num_weights(3)`).
    pub const WEIGHTS3: i32 = 2 << 14;
    /// Four weights per vertex (`num_weights(4)`).
    pub const WEIGHTS4: i32 = 3 << 14;
    /// Five weights per vertex (`num_weights(5)`).
    pub const WEIGHTS5: i32 = 4 << 14;
    /// Six weights per vertex (`num_weights(6)`).
    pub const WEIGHTS6: i32 = 5 << 14;
    /// Seven weights per vertex (`num_weights(7)`).
    pub const WEIGHTS7: i32 = 6 << 14;
    /// Eight weights per vertex (`num_weights(8)`).
    pub const WEIGHTS8: i32 = 7 << 14;
    /// One vertex per morph (`num_vertices(1)`).
    pub const VERTICES1: i32 = 0 << 18;
    /// Two vertices per morph (`num_vertices(2)`).
    pub const VERTICES2: i32 = 1 << 18;
    /// Three vertices per morph (`num_vertices(3)`).
    pub const VERTICES3: i32 = 2 << 18;
    /// Four vertices per morph (`num_vertices(4)`).
    pub const VERTICES4: i32 = 3 << 18;
    /// Five vertices per morph (`num_vertices(5)`).
    pub const VERTICES5: i32 = 4 << 18;
    /// Six vertices per morph (`num_vertices(6)`).
    pub const VERTICES6: i32 = 5 << 18;
    /// Seven vertices per morph (`num_vertices(7)`).
    pub const VERTICES7: i32 = 6 << 18;
    /// Eight vertices per morph (`num_vertices(8)`).
    pub const VERTICES8: i32 = 7 << 18;
    /// Coordinate is passed directly to the rasterizer
    pub const TRANSFORM_2D: i32 = 1 << 23;
    /// Coordinate is transformed before being passed to rasterizer
    pub const TRANSFORM_3D: i32 = 0;

    /// Every bit that some format field uses.
    pub const ALL_BITS: i32 = 0x9DDFFF;

    /// The vertex type with the bits of `bits` that some format field uses.
    pub fn from_bits_truncate(bits: i32) -> (v: VertexType)
        ensures
            v.spec_bits() == bits & Self::ALL_BITS,
    {
        VertexType { bits: bits & Self::ALL_BITS }
    }

    /// The vertex type whose bits are `bits`, for bits that format fields use.
    pub closed spec fn from_bits_spec(bits: i32) -> VertexType {
        VertexType { bits }
    }

    /// The bits of `from_bits_spec(bits)` are `bits`.
    pub proof fn lemma_from_bits_spec(bits: i32)
        ensures
            Self::from_bits_spec(bits).spec_bits() == bits,
    {
    }

    /// The bits of the vertex type.
    pub closed spec fn spec_bits(&self) -> i32 {
        self.bits
    }

    /// The bits of the vertex type.
    pub fn bits(&self) -> (b: i32)
        ensures
            b == self.spec_bits(),
    {
        self.bits
    }

    /// The vertex type with no bit set.
    pub fn empty() -> (v: VertexType)
        ensures
            v.spec_bits() == 0,
    {
        VertexType { bits: 0 }
    }

    /// Whether no bit is set.
    pub fn is_empty(&self) -> (b: bool)
        ensures
            b == (self.spec_bits() == 0),
    {
        self.bits == 0
    }

    /// The vertex type with the bits of both `self` and `other`.
    pub fn union(self, other: VertexType) -> (v: VertexType)
        ensures
            v.spec_bits() == self.spec_bits() | other.spec_bits(),
    {
        VertexType { bits: self.bits | other.bits }
    }

    /// Whether every bit of `other` is set in `self`.
    pub fn contains(&self, other: VertexType) -> (b: bool)
        ensures
            b == (self.spec_bits() & other.spec_bits() == other.spec_bits()),
    {
        self.bits & other.bits == other.bits
    }

    /// The weight-count field for `n` weights per vertex: `n - 1`, kept to
    /// its low three bits, placed at bit 14.
    pub fn num_weights(n: u32) -> (bits: i32)
        requires
            n >= 1,
        ensures
            bits == ((n - 1) % 8) * 0x4000,
    {
        let m: u32 = n - 1;
        let r: u32 = (m & 7) << 14;
        assert(r == (m % 8) * 0x4000 && r < 0x20000) by (bit_vector)
            requires
                r == (m & 7) << 14,
        ;
        r as i32
    }

    /// The vertex-count field for `n` vertices per morph: `n - 1`, kept to
    /// its low three bits, placed at bit 18.
    pub fn num_vertices(n: u32) -> (bits: i32)
        requires
            n >= 1,
        ensures
            bits == ((n - 1) % 8) * 0x40000,
    {
        let m: u32 = n - 1;
        let r: u32 = (m & 7) << 18;
        assert(r == (m % 8) * 0x40000 && r < 0x200000) by (bit_vector)
            requires
                r == (m & 7) << 18,
        ;
        r as i32
    }
}

/// Number of words in the initialisation list.
pub const INIT_LIST_LEN: usize = 223;

/// The `i`-th command of the list that initialises every register of the
/// graphics engine (`sce_gu_init`); `Nop` past its end.
pub open spec fn init_command(i: usize) -> Command {
    match i {
        0 => Command::Vaddr,
        1 => Command::Iaddr,
        2 => Command::Base,
        3 => Command::VertexType,
        4 => Command::OffsetAddr,
        5 => Command::Region1,
        6 => Command::Region2,
        7 => Command::LightingEnable,
        8 => Command::LightEnable0,
        9 => Command::LightEnable1,
        10 => Command::LightEnable2,
        11 => Command::LightEnable3,
        12 => Command::DepthClampEnable,
        13 => Command::CullFaceEnable,
        14 => Command::TextureMapEnable,
        15 => Command::FogEnable,
        16 => Command::DitherEnable,
        17 => Command::AlphaBlendEnable,
        18 => Command::AlphaTestEnable,
        19 => Command::ZTestEnable,
        20 => Command::StencilTestEnable,
        21 => Command::AntiAliasEnable,
        22 => Command::PatchCullEnable,
        23 => Command::ColorTestEnable,
        24 => Command::LogicOpEnable,
        25 => Command::BoneMatrixNumber,
        26 => Command::BoneMatrixData,
        27 => Command::MorphWeight0,
        28 => Command::MorphWeight1,
        29 => Command::MorphWeight2,
        30 => Command::MorphWeight3,
        31 => Command::MorphWeight4,
        32 => Command::MorphWeight5,
        33 => Command::MorphWeight6,
        34 => Command::MorphWeight7,
        35 => Command::PatchDivision,
        36 => Command::PatchPrimitive,
        37 => Command::PatchFacing,
        38 => Command::WorldMatrixNumber,
        39 => Command::WorldMatrixData,
        40 => Command::ViewMatrixNumber,
        41 => Command::ViewMatrixData,
        42 => Command::ProjMatrixNumber,
        43 => Command::ProjMatrixData,
        44 => Command::TGenMatrixNumber,
        45 => Command::TGenMatrixData,
        46 => Command::ViewportXScale,
        47 => Command::ViewportYScale,
        48 => Command::ViewportZScale,
        49 => Command::ViewportXCenter,
        50 => Command::ViewportYCenter,
        51 => Command::ViewportZCenter,
        52 => Command::TexScaleU,
        53 => Command::TexScaleV,
        54 => Command::TexOffsetU,
        55 => Command::TexOffsetV,
        56 => Command::OffsetX,
        57 => Command::OffsetY,
        58 => Command::ShadeMode,
        59 => Command::ReverseNormal,
        60 => Command::MaterialUpdate,
        61 => Command::MaterialEmissive,
        62 => Command::MaterialAmbient,
        63 => Command::MaterialDiffuse,
        64 => Command::MaterialSpecular,
        65 => Command::MaterialAlpha,
        66 => Command::MaterialSpecularCoef,
        67 => Command::AmbientColor,
        68 => Command::AmbientAlpha,
        69 => Command::LightMode,
        70 => Command::LightType0,
        71 => Command::LightType1,
        72 => Command::LightType2,
        73 => Command::LightType3,
        74 => Command::Light0X,
        75 => Command::Light0Y,
        76 => Command::Light0Z,
        77 => Command::Light1X,
        78 => Command::Light1Y,
        79 => Command::Light1Z,
        80 => Command::Light2X,
        81 => Command::Light2Y,
        82 => Command::Light2Z,
        83 => Command::Light3X,
        84 => Command::Light3Y,
        85 => Command::Light3Z,
        86 => Command::Light0DirectionX,
        87 => Command::Light0DirectionY,
        88 => Command::Light0DirectionZ,
        89 => Command::Light1DirectionX,
        90 => Command::Light1DirectionY,
        91 => Command::Light1DirectionZ,
        92 => Command::Light2DirectionX,
        93 => Command::Light2DirectionY,
        94 => Command::Light2DirectionZ,
        95 => Command::Light3DirectionX,
        96 => Command::Light3DirectionY,
        97 => Command::Light3DirectionZ,
        98 => Command::Light0ConstantAtten,
        99 => Command::Light0LinearAtten,
        100 => Command::Light0QuadtraticAtten,
        101 => Command::Light1ConstantAtten,
        102 => Command::Light1LinearAtten,
        103 => Command::Light1QuadtraticAtten,
        104 => Command::Light2ConstantAtten,
        105 => Command::Light2LinearAtten,
        106 => Command::Light2QuadtraticAtten,
        107 => Command::Light3ConstantAtten,
        108 => Command::Light3LinearAtten,
        109 => Command::Light3QuadtraticAtten,
        110 => Command::Light0ExponentAtten,
        111 => Command::Light1ExponentAtten,
        112 => Command::Light2ExponentAtten,
        113 => Command::Light3ExponentAtten,
        114 => Command::Light0CutoffAtten,
        115 => Command::Light1CutoffAtten,
        116 => Command::Light2CutoffAtten,
        117 => Command::Light3CutoffAtten,
        118 => Command::Light0Ambient,
        119 => Command::Light0Diffuse,
        120 => Command::Light0Specular,
        121 => Command::Light1Ambient,
        122 => Command::Light1Diffuse,
        123 => Command::Light1Specular,
        124 => Command::Light2Ambient,
        125 => Command::Light2Diffuse,
        126 => Command::Light2Specular,
        127 => Command::Light3Ambient,
        128 => Command::Light3Diffuse,
        129 => Command::Light3Specular,
        130 => Command::Cull,
        131 => Command::FrameBufPtr,
        132 => Command::FrameBufWidth,
        133 => Command::ZBufPtr,
        134 => Command::ZBufWidth,
        135 => Command::TexAddr0,
        136 => Command::TexAddr1,
        137 => Command::TexAddr2,
        138 => Command::TexAddr3,
        139 => Command::TexAddr4,
        140 => Command::TexAddr5,
        141 => Command::TexAddr6,
        142 => Command::TexAddr7,
        143 => Command::TexBufWidth0,
        144 => Command::TexBufWidth1,
        145 => Command::TexBufWidth2,
        146 => Command::TexBufWidth3,
        147 => Command::TexBufWidth4,
        148 => Command::TexBufWidth5,
        149 => Command::TexBufWidth6,
        150 => Command::TexBufWidth7,
        151 => Command::ClutAddr,
        152 => Command::ClutAddrUpper,
        153 => Command::TransferSrc,
        154 => Command::TransferSrcW,
        155 => Command::TransferDst,
        156 => Command::TransferDstW,
        157 => Command::TexSize0,
        158 => Command::TexSize1,
        159 => Command::TexSize2,
        160 => Command::TexSize3,
        161 => Command::TexSize4,
        162 => Command::TexSize5,
        163 => Command::TexSize6,
        164 => Command::TexSize7,
        165 => Command::TexMapMode,
        166 => Command::TexShadeLs,
        167 => Command::TexMode,
        168 => Command::TexFormat,
        169 => Command::LoadClut,
        170 => Command::ClutFormat,
        171 => Command::TexFilter,
        172 => Command::TexWrap,
        173 => Command::TexLevel,
        174 => Command::TexFunc,
        175 => Command::TexEnvColor,
        176 => Command::TexFlush,
        177 => Command::TexSync,
        178 => Command::Fog1,
        179 => Command::Fog2,
        180 => Command::FogColor,
        181 => Command::TexLodSlope,
        182 => Command::FramebufPixFormat,
        183 => Command::ClearMode,
        184 => Command::Scissor1,
        185 => Command::Scissor2,
        186 => Command::MinZ,
        187 => Command::MaxZ,
        188 => Command::ColorTest,
        189 => Command::ColorRef,
        190 => Command::ColorTestmask,
        191 => Command::AlphaTest,
        192 => Command::StencilTest,
        193 => Command::StencilOp,
        194 => Command::ZTest,
        195 => Command::BlendMode,
        196 => Command::BlendFixedA,
        197 => Command::BlendFixedB,
        198 => Command::Dith0,
        199 => Command::Dith1,
        200 => Command::Dith2,
        201 => Command::Dith3,
        202 => Command::LogicOp,
        203 => Command::ZWriteDisable,
        204 => Command::MaskRgb,
        205 => Command::MaskAlpha,
        206 => Command::TransferSrcPos,
        207 => Command::TransferDstPos,
        208 => Command::TransferSize,
        209 => Command::Vscx,
        210 => Command::Vscy,
        211 => Command::Vscz,
        212 => Command::Vtcs,
        213 => Command::Vtct,
        214 => Command::Vtcq,
        215 => Command::Vcv,
        216 => Command::Vap,
        217 => Command::Vfc,
        218 => Command::Vscv,
        219 => Command::Finish,
        220 => Command::End,
        221 => Command::Nop,
        222 => Command::Nop,
        _ => Command::Nop,
    }
}

fn init_command_at(i: usize) -> (c: Command)
    requires
        i < INIT_LIST_LEN,
    ensures
        c == init_command(i),
{
    match i {
        0 => Command::Vaddr,
        1 => Command::Iaddr,
        2 => Command::Base,
        3 => Command::VertexType,
        4 => Command::OffsetAddr,
        5 => Command::Region1,
        6 => Command::Region2,
        7 => Command::LightingEnable,
        8 => Command::LightEnable0,
        9 => Command::LightEnable1,
        10 => Command::LightEnable2,
        11 => Command::LightEnable3,
        12 => Command::DepthClampEnable,
        13 => Command::CullFaceEnable,
        14 => Command::TextureMapEnable,
        15 => Command::FogEnable,
        16 => Command::DitherEnable,
        17 => Command::AlphaBlendEnable,
        18 => Command::AlphaTestEnable,
        19 => Command::ZTestEnable,
        20 => Command::StencilTestEnable,
        21 => Command::AntiAliasEnable,
        22 => Command::PatchCullEnable,
        23 => Command::ColorTestEnable,
        24 => Command::LogicOpEnable,
        25 => Command::BoneMatrixNumber,
        26 => Command::BoneMatrixData,
        27 => Command::MorphWeight0,
        28 => Command::MorphWeight1,
        29 => Command::MorphWeight2,
        30 => Command::MorphWeight3,
        31 => Command::MorphWeight4,
        32 => Command::MorphWeight5,
        33 => Command::MorphWeight6,
        34 => Command::MorphWeight7,
        35 => Command::PatchDivision,
        36 => Command::PatchPrimitive,
        37 => Command::PatchFacing,
        38 => Command::WorldMatrixNumber,
        39 => Command::WorldMatrixData,
        40 => Command::ViewMatrixNumber,
        41 => Command::ViewMatrixData,
        42 => Command::ProjMatrixNumber,
        43 => Command::ProjMatrixData,
        44 => Command::TGenMatrixNumber,
        45 => Command::TGenMatrixData,
        46 => Command::ViewportXScale,
        47 => Command::ViewportYScale,
        48 => Command::ViewportZScale,
        49 => Command::ViewportXCenter,
        50 => Command::ViewportYCenter,
        51 => Command::ViewportZCenter,
        52 => Command::TexScaleU,
        53 => Command::TexScaleV,
        54 => Command::TexOffsetU,
        55 => Command::TexOffsetV,
        56 => Command::OffsetX,
        57 => Command::OffsetY,
        58 => Command::ShadeMode,
        59 => Command::ReverseNormal,
        60 => Command::MaterialUpdate,
        61 => Command::MaterialEmissive,
        62 => Command::MaterialAmbient,
        63 => Command::MaterialDiffuse,
        64 => Command::MaterialSpecular,
        65 => Command::MaterialAlpha,
        66 => Command::MaterialSpecularCoef,
        67 => Command::AmbientColor,
        68 => Command::AmbientAlpha,
        69 => Command::LightMode,
        70 => Command::LightType0,
        71 => Command::LightType1,
        72 => Command::LightType2,
        73 => Command::LightType3,
        74 => Command::Light0X,
        75 => Command::Light0Y,
        76 => Command::Light0Z,
        77 => Command::Light1X,
        78 => Command::Light1Y,
        79 => Command::Light1Z,
        80 => Command::Light2X,
        81 => Command::Light2Y,
        82 => Command::Light2Z,
        83 => Command::Light3X,
        84 => Command::Light3Y,
        85 => Command::Light3Z,
        86 => Command::Light0DirectionX,
        87 => Command::Light0DirectionY,
        88 => Command::Light0DirectionZ,
        89 => Command::Light1DirectionX,
        90 => Command::Light1DirectionY,
        91 => Command::Light1DirectionZ,
        92 => Command::Light2DirectionX,
        93 => Command::Light2DirectionY,
        94 => Command::Light2DirectionZ,
        95 => Command::Light3DirectionX,
        96 => Command::Light3DirectionY,
        97 => Command::Light3DirectionZ,
        98 => Command::Light0ConstantAtten,
        99 => Command::Light0LinearAtten,
        100 => Command::Light0QuadtraticAtten,
        101 => Command::Light1ConstantAtten,
        102 => Command::Light1LinearAtten,
        103 => Command::Light1QuadtraticAtten,
        104 => Command::Light2ConstantAtten,
        105 => Command::Light2LinearAtten,
        106 => Command::Light2QuadtraticAtten,
        107 => Command::Light3ConstantAtten,
        108 => Command::Light3LinearAtten,
        109 => Command::Light3QuadtraticAtten,
        110 => Command::Light0ExponentAtten,
        111 => Command::Light1ExponentAtten,
        112 => Command::Light2ExponentAtten,
        113 => Command::Light3ExponentAtten,
        114 => Command::Light0CutoffAtten,
        115 => Command::Light1CutoffAtten,
        116 => Command::Light2CutoffAtten,
        117 => Command::Light3CutoffAtten,
        118 => Command::Light0Ambient,
        119 => Command::Light0Diffuse,
        120 => Command::Light0Specular,
        121 => Command::Light1Ambient,
        122 => Command::Light1Diffuse,
        123 => Command::Light1Specular,
        124 => Command::Light2Ambient,
        125 => Command::Light2Diffuse,
        126 => Command::Light2Specular,
        127 => Command::Light3Ambient,
        128 => Command::Light3Diffuse,
        129 => Command::Light3Specular,
        130 => Command::Cull,
        131 => Command::FrameBufPtr,
        132 => Command::FrameBufWidth,
        133 => Command::ZBufPtr,
        134 => Command::ZBufWidth,
        135 => Command::TexAddr0,
        136 => Command::TexAddr1,
        137 => Command::TexAddr2,
        138 => Command::TexAddr3,
        139 => Command::TexAddr4,
        140 => Command::TexAddr5,
        141 => Command::TexAddr6,
        142 => Command::TexAddr7,
        143 => Command::TexBufWidth0,
        144 => Command::TexBufWidth1,
        145 => Command::TexBufWidth2,
        146 => Command::TexBufWidth3,
        147 => Command::TexBufWidth4,
        148 => Command::TexBufWidth5,
        149 => Command::TexBufWidth6,
        150 => Command::TexBufWidth7,
        151 => Command::ClutAddr,
        152 => Command::ClutAddrUpper,
        153 => Command::TransferSrc,
        154 => Command::TransferSrcW,
        155 => Command::TransferDst,
        156 => Command::TransferDstW,
        157 => Command::TexSize0,
        158 => Command::TexSize1,
        159 => Command::TexSize2,
        160 => Command::TexSize3,
        161 => Command::TexSize4,
        162 => Command::TexSize5,
        163 => Command::TexSize6,
        164 => Command::TexSize7,
        165 => Command::TexMapMode,
        166 => Command::TexShadeLs,
        167 => Command::TexMode,
        168 => Command::TexFormat,
        169 => Command::LoadClut,
        170 => Command::ClutFormat,
        171 => Command::TexFilter,
        172 => Command::TexWrap,
        173 => Command::TexLevel,
        174 => Command::TexFunc,
        175 => Command::TexEnvColor,
        176 => Command::TexFlush,
        177 => Command::TexSync,
        178 => Command::Fog1,
        179 => Command::Fog2,
        180 => Command::FogColor,
        181 => Command::TexLodSlope,
        182 => Command::FramebufPixFormat,
        183 => Command::ClearMode,
        184 => Command::Scissor1,
        185 => Command::Scissor2,
        186 => Command::MinZ,
        187 => Command::MaxZ,
        188 => Command::ColorTest,
        189 => Command::ColorRef,
        190 => Command::ColorTestmask,
        191 => Command::AlphaTest,
        192 => Command::StencilTest,
        193 => Command::StencilOp,
        194 => Command::ZTest,
        195 => Command::BlendMode,
        196 => Command::BlendFixedA,
        197 => Command::BlendFixedB,
        198 => Command::Dith0,
        199 => Command::Dith1,
        200 => Command::Dith2,
        201 => Command::Dith3,
        202 => Command::LogicOp,
        203 => Command::ZWriteDisable,
        204 => Command::MaskRgb,
        205 => Command::MaskAlpha,
        206 => Command::TransferSrcPos,
        207 => Command::TransferDstPos,
        208 => Command::TransferSize,
        209 => Command::Vscx,
        210 => Command::Vscy,
        211 => Command::Vscz,
        212 => Command::Vtcs,
        213 => Command::Vtct,
        214 => Command::Vtcq,
        215 => Command::Vcv,
        216 => Command::Vap,
        217 => Command::Vfc,
        218 => Command::Vscv,
        219 => Command::Finish,
        220 => Command::End,
        221 => Command::Nop,
        222 => Command::Nop,
        _ => Command::Nop,
    }
}

/// The list that initialises every register of the graphics engine: each
/// command of `init_command` with a zero argument. `sce_gu_init` hands it to
/// the graphics engine.
pub fn init_list() -> (words: Vec<u32>)
    ensures
        words@.len() == INIT_LIST_LEN,
        forall|i: int| 0 <= i < INIT_LIST_LEN ==> #[trigger] words@[i] == init_command(i as usize).spec_to_u32() << 24u32,
{
    let mut words: Vec<u32> = Vec::new();
    let mut i: usize = 0;
    while i < INIT_LIST_LEN
        invariant
            i <= INIT_LIST_LEN,
            words@.len() == i,
            forall|j: int| 0 <= j < i ==> #[trigger] words@[j] == init_command(j as usize).spec_to_u32() << 24u32,
        decreases INIT_LIST_LEN - i,
    {
        let c = init_command_at(i);
        words.push(c.to_u32() << 24u32);
        i += 1;
    }
    words
}

/// The 24-bit argument that packs the 4-bit entries of one dither-matrix row.
pub open spec fn dither_row(v: IVector4) -> i32 {
    (((v.x as u32) & 0xf) | (((v.y as u32) & 0xf) << 4u32) | (((v.z as u32) & 0xf) << 8u32) | (((
    v.w as u32) & 0xf) << 12u32)) as i32
}

fn dither_row_exec(v: &IVector4) -> (r: i32)
    ensures
        r == dither_row(*v),
{
    let bits: u32 = ((v.x as u32) & 0xf) | (((v.y as u32) & 0xf) << 4u32) | (((v.z as u32) & 0xf)
        << 8u32) | (((v.w as u32) & 0xf) << 12u32);
    bits as i32
}

/// Set ordered pixel dither matrix: the words for the four rows of `matrix`.
pub fn sce_gu_set_dither(matrix: &IMatrix4) -> (words: Vec<u32>)
    ensures
        words@ == seq![
            spec_command_word(Command::Dith0, dither_row(matrix.x)),
            spec_command_word(Command::Dith1, dither_row(matrix.y)),
            spec_command_word(Command::Dith2, dither_row(matrix.z)),
            spec_command_word(Command::Dith3, dither_row(matrix.w)),
        ],
{
    let mut words: Vec<u32> = Vec::new();
    words.push(command_word(Command::Dith0, dither_row_exec(&matrix.x)));
    words.push(command_word(Command::Dith1, dither_row_exec(&matrix.y)));
    words.push(command_word(Command::Dith2, dither_row_exec(&matrix.z)));
    words.push(command_word(Command::Dith3, dither_row_exec(&matrix.w)));
    assert(words@ =~= seq![
        spec_command_word(Command::Dith0, dither_row(matrix.x)),
        spec_command_word(Command::Dith1, dither_row(matrix.y)),
        spec_command_word(Command::Dith2, dither_row(matrix.z)),
        spec_command_word(Command::Dith3, dither_row(matrix.w)),
    ]);
    words
}

/// The texture-address command of mipmap `level`.
pub open spec fn tex_addr_command(level: MipmapLevel) -> Command {
    match level {
        MipmapLevel::NoLevel => Command::TexAddr0,
        MipmapLevel::Level1 => Command::TexAddr1,
        MipmapLevel::Level2 => Command::TexAddr2,
        MipmapLevel::Level3 => Command::TexAddr3,
        MipmapLevel::Level4 => Command::TexAddr4,
        MipmapLevel::Level5 => Command::TexAddr5,
        MipmapLevel::Level6 => Command::TexAddr6,
        MipmapLevel::Level7 => Command::TexAddr7,
    }
}

/// The texture-buffer-width command of mipmap `level`.
pub open spec fn tex_buf_width_command(level: MipmapLevel) -> Command {
    match level {
        MipmapLevel::NoLevel => Command::TexBufWidth0,
        MipmapLevel::Level1 => Command::TexBufWidth1,
        MipmapLevel::Level2 => Command::TexBufWidth2,
        MipmapLevel::Level3 => Command::TexBufWidth3,
        MipmapLevel::Level4 => Command::TexBufWidth4,
        MipmapLevel::Level5 => Command::TexBufWidth5,
        MipmapLevel::Level6 => Command::TexBufWidth6,
        MipmapLevel::Level7 => Command::TexBufWidth7,
    }
}

/// The texture-size command of mipmap `level`.
pub open spec fn tex_size_command(level: MipmapLevel) -> Command {
    match level {
        MipmapLevel::NoLevel => Command::TexSize0,
        MipmapLevel::Level1 => Command::TexSize1,
        MipmapLevel::Level2 => Command::TexSize2,
        MipmapLevel::Level3 => Command::TexSize3,
        MipmapLevel::Level4 => Command::TexSize4,
        MipmapLevel::Level5 => Command::TexSize5,
        MipmapLevel::Level6 => Command::TexSize6,
        MipmapLevel::Level7 => Command::TexSize7,
    }
}

fn tex_commands(level: MipmapLevel) -> (c: (Command, Command, Command))
    ensures
        c == (tex_addr_command(level), tex_buf_width_command(level), tex_size_command(level)),
{
    match level {
        MipmapLevel::NoLevel => (Command::TexAddr0, Command::TexBufWidth0, Command::TexSize0),
        MipmapLevel::Level1 => (Command::TexAddr1, Command::TexBufWidth1, Command::TexSize1),
        MipmapLevel::Level2 => (Command::TexAddr2, Command::TexBufWidth2, Command::TexSize2),
        MipmapLevel::Level3 => (Command::TexAddr3, Command::TexBufWidth3, Command::TexSize3),
        MipmapLevel::Level4 => (Command::TexAddr4, Command::TexBufWidth4, Command::TexSize4),
        MipmapLevel::Level5 => (Command::TexAddr5, Command::TexBufWidth5, Command::TexSize5),
        MipmapLevel::Level6 => (Command::TexAddr6, Command::TexBufWidth6, Command::TexSize6),
        MipmapLevel::Level7 => (Command::TexAddr7, Command::TexBufWidth7, Command::TexSize7),
    }
}

/// Base-2 logarithm of a texture dimension, as the texture-size command
/// takes it: the index of the highest set bit among the low 10 bits of
/// `size`, or -1 when none is set.
pub open spec fn tex_size_log2(size: i32) -> i32 {
    (31 - vstd::std_specs::bits::u32_leading_zeros((size & 0x3ff) as u32)) as i32
}

/// The argument of the texture-size command for a `width` x `height` texture.
pub open spec fn tex_size_arg(width: i32, height: i32) -> i32 {
    ((tex_size_log2(height) * 256) as i32) | tex_size_log2(width)
}

/// The words that set the texture of mipmap `mipmap`: its address, its
/// row width with the address's top bits, its size, and a flush.
pub open spec fn tex_image_words(mipmap: MipmapLevel, width: i32, height: i32, tbw: i32, tbp: u32) -> Seq<u32> {
    seq![
        spec_command_word(tex_addr_command(mipmap), (tbp & 0xffffff) as i32),
        spec_command_word(tex_buf_width_command(mipmap), (((tbp >> 8u32) & 0x0f0000) as i32) | tbw),
        spec_command_word(tex_size_command(mipmap), tex_size_arg(width, height)),
        spec_command_word(Command::TexFlush, 0),
    ]
}

/// Set the texture of mipmap `mipmap`: `width` x `height` texels stored
/// `tbw` texels per row at address `tbp`, then flush the texture cache. The
/// flush command's argument is the 24-bit float 0.0, all zero bits.
pub fn sce_gu_tex_image(mipmap: MipmapLevel, width: i32, height: i32, tbw: i32, tbp: u32) -> (words:
    Vec<u32>)
    ensures
        words@ == tex_image_words(mipmap, width, height, tbw, tbp),
        words@ == seq![
            spec_command_word(tex_addr_command(mipmap), (tbp & 0xffffff) as i32),
            spec_command_word(tex_buf_width_command(mipmap), (((tbp >> 8u32) & 0x0f0000) as i32) | tbw),
            spec_command_word(tex_size_command(mipmap), tex_size_arg(width, height)),
            spec_command_word(Command::TexFlush, 0),
        ],
{
    let (addr_cmd, width_cmd, size_cmd) = tex_commands(mipmap);
    let lz_h = ((height & 0x3ff) as u32).leading_zeros();
    let lz_w = ((width & 0x3ff) as u32).leading_zeros();
    proof {
        vstd::std_specs::bits::axiom_u32_leading_zeros(((height & 0x3ff) as u32));
        vstd::std_specs::bits::axiom_u32_leading_zeros(((width & 0x3ff) as u32));
    }
    let log_h: i32 = 31 - lz_h as i32;
    let log_w: i32 = 31 - lz_w as i32;
    let mut words: Vec<u32> = Vec::new();
    words.push(command_word(addr_cmd, (tbp & 0xffffff) as i32));
    words.push(command_word(width_cmd, (((tbp >> 8u32) & 0x0f0000) as i32) | tbw));
    words.push(command_word(size_cmd, (log_h * 256) | log_w));
    words.push(command_word(Command::TexFlush, 0));
    assert(words@ =~= seq![
        spec_command_word(tex_addr_command(mipmap), (tbp & 0xffffff) as i32),
        spec_command_word(tex_buf_width_command(mipmap), (((tbp >> 8u32) & 0x0f0000) as i32) | tbw),
        spec_command_word(tex_size_command(mipmap), tex_size_arg(width, height)),
        spec_command_word(Command::TexFlush, 0),
    ]);
    words
}

/// A display list being filled: the address of its first word, the address
/// where filling started, and the context to go back to when it is finished.
/// The functions here return the words to append; whoever writes them into
/// the list keeps the write position.
#[derive(Clone, Copy, Debug)]
pub struct GuDisplayList {
    pub start: u32,
    pub current: u32,
    pub parent_context: Context,
}

/// The settings that one display context keeps.
#[derive(Clone, Copy, Debug)]
pub struct GuContext {
    pub list: GuDisplayList,
    pub scissor_enable: i32,
    pub scissor_start: [i32; 2],
    pub scissor_end: [i32; 2],
    pub near_plane: i32,
    pub far_plane: i32,
    pub depth_offset: i32,
    pub fragment_2x: i32,
    pub texture_function: i32,
    pub texture_proj_map_mode: TextureProjectionMapMode,
    pub texture_map_mode: TextureMapMode,
    pub sprite_mode: [i32; 4],
    pub clear_color: u32,
    pub clear_stencil: u32,
    pub clear_depth: u32,
    pub texture_mode: TexturePixelFormat,
}

/// The draw, display and depth buffers; addresses count from the start of VRAM.
#[derive(Clone, Copy, Debug, PartialEq, Eq, Structural)]
pub struct GuDrawBuffer {
    pub pixel_size: DisplayPixelFormat,
    pub frame_width: i32,
    pub frame_buffer: u32,
    pub disp_buffer: u32,
    pub depth_buffer: u32,
    pub depth_width: i32,
    pub width: i32,
    pub height: i32,
}

/// The state of the graphics unit between calls: the three display contexts,
/// which one is filled, the draw buffers and the bitmask of enabled states.
#[derive(Clone, Copy, Debug)]
pub struct GuState {
    pub current_frame: u32,
    pub contexts: [GuContext; 3],
    pub curr_context: Context,
    pub init: i32,
    pub display_on: bool,
    pub call_mode: i32,
    pub states: u32,
    pub draw_buffer: GuDrawBuffer,
    pub object_stack_depth: i32,
}

/// A display context before any use: empty list, every setting zero.
pub open spec fn spec_initial_context(c: GuContext) -> bool {
    &&& c.list.start == 0 && c.list.current == 0 && c.list.parent_context == Context::Direct
    &&& c.scissor_enable == 0 && c.scissor_start@ == seq![0i32, 0i32] && c.scissor_end@ == seq![
        0i32,
        0i32,
    ]
    &&& c.near_plane == 0 && c.far_plane == 0 && c.depth_offset == 0 && c.fragment_2x == 0
    &&& c.texture_function == 0
    &&& c.texture_proj_map_mode == TextureProjectionMapMode::Position
    &&& c.texture_map_mode == TextureMapMode::TextureCoords
    &&& c.sprite_mode@ == seq![0i32, 0i32, 0i32, 0i32]
    &&& c.clear_color == 0 && c.clear_stencil == 0 && c.clear_depth == 0
    &&& c.texture_mode == TexturePixelFormat::Psm5650
}

/// `c` is `old` after `reset_values`: every setting back to its default
/// (far plane 1, clear depth 0xffff), the display list kept.
pub open spec fn spec_reset_context(c: GuContext, old: GuContext) -> bool {
    &&& c.list == old.list
    &&& c.scissor_enable == 0 && c.scissor_start@ == seq![0i32, 0i32] && c.scissor_end@ == seq![
        0i32,
        0i32,
    ]
    &&& c.near_plane == 0 && c.far_plane == 1 && c.depth_offset == 0 && c.fragment_2x == 0
    &&& c.texture_function == 0
    &&& c.texture_proj_map_mode == TextureProjectionMapMode::Position
    &&& c.texture_map_mode == TextureMapMode::TextureCoords
    &&& c.sprite_mode@ == seq![0i32, 0i32, 0i32, 0i32]
    &&& c.clear_color == 0 && c.clear_stencil == 0 && c.clear_depth == 0xffff
    &&& c.texture_mode == TexturePixelFormat::Psm5650
}

fn initial_context() -> (c: GuContext)
    ensures
        spec_initial_context(c),
{
    let c = GuContext {
        list: GuDisplayList { start: 0, current: 0, parent_context: Context::Direct },
        scissor_enable: 0,
        scissor_start: [0, 0],
        scissor_end: [0, 0],
        near_plane: 0,
        far_plane: 0,
        depth_offset: 0,
        fragment_2x: 0,
        texture_function: 0,
        texture_proj_map_mode: TextureProjectionMapMode::Position,
        texture_map_mode: TextureMapMode::TextureCoords,
        sprite_mode: [0, 0, 0, 0],
        clear_color: 0,
        clear_stencil: 0,
        clear_depth: 0,
        texture_mode: TexturePixelFormat::Psm5650,
    };
    assert(c.scissor_start@ =~= seq![0i32, 0i32]);
    assert(c.scissor_end@ =~= seq![0i32, 0i32]);
    assert(c.sprite_mode@ =~= seq![0i32, 0i32, 0i32, 0i32]);
    c
}

fn reset_context(old: GuContext) -> (c: GuContext)
    ensures
        spec_reset_context(c, old),
{
    let c = GuContext {
        list: old.list,
        scissor_enable: 0,
        scissor_start: [0, 0],
        scissor_end: [0, 0],
        near_plane: 0,
        far_plane: 1,
        depth_offset: 0,
        fragment_2x: 0,
        texture_function: 0,
        texture_proj_map_mode: TextureProjectionMapMode::Position,
        texture_map_mode: TextureMapMode::TextureCoords,
        sprite_mode: [0, 0, 0, 0],
        clear_color: 0,
        clear_stencil: 0,
        clear_depth: 0xffff,
        texture_mode: TexturePixelFormat::Psm5650,
    };
    assert(c.scissor_start@ =~= seq![0i32, 0i32]);
    assert(c.scissor_end@ =~= seq![0i32, 0i32]);
    assert(c.sprite_mode@ =~= seq![0i32, 0i32, 0i32, 0i32]);
    c
}

/// The command that turns `state` on or off, for the states other than the
/// scissor test and doubled fragments, which have their own commands.
pub open spec fn toggle_command(state: State) -> Command {
    match state {
        State::AlphaTest => Command::AlphaTestEnable,
        State::DepthTest => Command::ZTestEnable,
        State::StencilTest => Command::StencilTestEnable,
        State::Blend => Command::AlphaBlendEnable,
        State::CullFace => Command::CullFaceEnable,
        State::Dither => Command::DitherEnable,
        State::Fog => Command::FogEnable,
        State::ClipPlanes => Command::DepthClampEnable,
        State::Texture2D => Command::TextureMapEnable,
        State::Lighting => Command::LightingEnable,
        State::Light0 => Command::LightEnable0,
        State::Light1 => Command::LightEnable1,
        State::Light2 => Command::LightEnable2,
        State::Light3 => Command::LightEnable3,
        State::LineSmooth => Command::AntiAliasEnable,
        State::PatchCullFace => Command::PatchCullEnable,
        State::ColorTest => Command::ColorTestEnable,
        State::ColorLogicOp => Command::LogicOpEnable,
        State::FaceNormalReverse => Command::ReverseNormal,
        State::PatchFace => Command::PatchFacing,
        State::ScissorTest => Command::Scissor1,
        State::Fragment2X => Command::TexFunc,
    }
}

fn toggle_command_exec(state: State) -> (c: Command)
    ensures
        c == toggle_command(state),
{
    match state {
        State::AlphaTest => Command::AlphaTestEnable,
        State::DepthTest => Command::ZTestEnable,
        State::StencilTest => Command::StencilTestEnable,
        State::Blend => Command::AlphaBlendEnable,
        State::CullFace => Command::CullFaceEnable,
        State::Dither => Command::DitherEnable,
        State::Fog => Command::FogEnable,
        State::ClipPlanes => Command::DepthClampEnable,
        State::Texture2D => Command::TextureMapEnable,
        State::Lighting => Command::LightingEnable,
        State::Light0 => Command::LightEnable0,
        State::Light1 => Command::LightEnable1,
        State::Light2 => Command::LightEnable2,
        State::Light3 => Command::LightEnable3,
        State::LineSmooth => Command::AntiAliasEnable,
        State::PatchCullFace => Command::PatchCullEnable,
        State::ColorTest => Command::ColorTestEnable,
        State::ColorLogicOp => Command::LogicOpEnable,
        State::FaceNormalReverse => Command::ReverseNormal,
        State::PatchFace => Command::PatchFacing,
        State::ScissorTest => Command::Scissor1,
        State::Fragment2X => Command::TexFunc,
    }
}

/// The scissor-corner argument for point (`p[0]`, `p[1]`): y from bit 10, x below.
pub open spec fn corner_arg(x: i32, y: i32) -> i32 {
    (((y as u32) << 10u32) | (x as u32)) as i32
}

fn corner_arg_exec(x: i32, y: i32) -> (r: i32)
    ensures
        r == corner_arg(x, y),
{
    (((y as u32) << 10u32) | (x as u32)) as i32
}

/// The words that `sce_gu_enable` emits for `state` in state `s`.
pub open spec fn enable_words(s: GuState, state: State) -> Seq<u32> {
    let c = s.contexts[s.curr_context.spec_to_u32() as int];
    match state {
        State::ScissorTest => seq![
            spec_command_word(Command::Scissor1, corner_arg(c.scissor_start[0], c.scissor_start[1])),
            spec_command_word(Command::Scissor2, corner_arg(c.scissor_end[0], c.scissor_end[1])),
        ],
        State::Fragment2X => seq![spec_command_word(Command::TexFunc, 0x10000i32 | c.texture_function)],
        _ => seq![spec_command_word(toggle_command(state), 1)],
    }
}

/// The words that `sce_gu_disable` emits for `state` in state `s`; the
/// scissor is reset to the whole draw buffer.
pub open spec fn disable_words(s: GuState, state: State) -> Seq<u32> {
    let c = s.contexts[s.curr_context.spec_to_u32() as int];
    match state {
        State::ScissorTest => seq![
            spec_command_word(Command::Scissor1, 0),
            spec_command_word(
                Command::Scissor2,
                corner_arg((s.draw_buffer.width - 1) as i32, (s.draw_buffer.height - 1) as i32),
            ),
        ],
        State::Fragment2X => seq![spec_command_word(Command::TexFunc, c.texture_function)],
        _ => seq![spec_command_word(toggle_command(state), 0)],
    }
}

/// `n` equals `o` but for the fields that `sce_gu_enable` and `sce_gu_disable`
/// may change: the bitmask of states and the settings of the current context.
pub open spec fn same_but_state_settings(n: GuState, o: GuState) -> bool {
    &&& n.current_frame == o.current_frame
    &&& n.curr_context == o.curr_context
    &&& n.init == o.init
    &&& n.display_on == o.display_on
    &&& n.call_mode == o.call_mode
    &&& n.draw_buffer == o.draw_buffer
    &&& n.object_stack_depth == o.object_stack_depth
    &&& forall|i: int| 0 <= i < 3 && i != o.curr_context.spec_to_u32() ==> #[trigger] n.contexts[i] == o.contexts[i]
}

/// `n` is the context `o` with `scissor_enable` and `fragment_2x` replaced.
pub open spec fn context_with(n: GuContext, o: GuContext, scissor_enable: i32, fragment_2x: i32) -> bool {
    n == GuContext { scissor_enable, fragment_2x, ..o }
}

impl GuState {
    /// The context being filled.
    pub open spec fn current(&self) -> GuContext {
        self.contexts[self.curr_context.spec_to_u32() as int]
    }

    /// The graphics unit before initialisation: every setting zero, the
    /// direct context current, no state enabled.
    pub fn new() -> (s: GuState)
        ensures
            s.current_frame == 0,
            forall|i: int| 0 <= i < 3 ==> spec_initial_context(#[trigger] s.contexts[i]),
            s.curr_context == Context::Direct,
            s.init == 0,
            !s.display_on,
            s.call_mode == 0,
            s.states == 0,
            s.draw_buffer == (GuDrawBuffer {
                pixel_size: DisplayPixelFormat::_565,
                frame_width: 0,
                frame_buffer: 0,
                disp_buffer: 0,
                depth_buffer: 0,
                depth_width: 0,
                width: 0,
                height: 0,
            }),
            s.object_stack_depth == 0,
    {
        GuState {
            current_frame: 0,
            contexts: [initial_context(), initial_context(), initial_context()],
            curr_context: Context::Direct,
            init: 0,
            display_on: false,
            call_mode: 0,
            states: 0,
            draw_buffer: GuDrawBuffer {
                pixel_size: DisplayPixelFormat::_565,
                frame_width: 0,
                frame_buffer: 0,
                disp_buffer: 0,
                depth_buffer: 0,
                depth_width: 0,
                width: 0,
                height: 0,
            },
            object_stack_depth: 0,
        }
    }

    /// Reset the graphics unit's settings to their defaults: not initialised,
    /// no state enabled, frame 0, display off, 16-bit 5:5:5:1 draw buffer of
    /// 480 x 272 with no buffers, and every context reset (its list kept).
    pub fn reset_values(&mut self)
        ensures
            final(self).init == 0,
            final(self).states == 0,
            final(self).current_frame == 0,
            final(self).object_stack_depth == 0,
            !final(self).display_on,
            final(self).call_mode == 0,
            final(self).draw_buffer == (GuDrawBuffer {
                pixel_size: DisplayPixelFormat::_5551,
                frame_width: 0,
                frame_buffer: 0,
                disp_buffer: 0,
                depth_buffer: 0,
                depth_width: 0,
                width: 480,
                height: 272,
            }),
            final(self).curr_context == old(self).curr_context,
            forall|i: int|
                0 <= i < 3 ==> spec_reset_context(#[trigger] final(self).contexts[i], old(self).contexts[i]),
    {
        self.init = 0;
        self.states = 0;
        self.current_frame = 0;
        self.object_stack_depth = 0;
        self.display_on = false;
        self.call_mode = 0;
        self.draw_buffer = GuDrawBuffer {
            pixel_size: DisplayPixelFormat::_5551,
            frame_width: 0,
            frame_buffer: 0,
            disp_buffer: 0,
            depth_buffer: 0,
            depth_width: 0,
            width: 480,
            height: 272,
        };
        let c0 = reset_context(self.contexts[0]);
        let c1 = reset_context(self.contexts[1]);
        let c2 = reset_context(self.contexts[2]);
        self.contexts = [c0, c1, c2];
    }

    /// Enable GE state `state`: set its bit in the bitmask of states and
    /// return the words that switch it on.
    pub fn sce_gu_enable(&mut self, state: State) -> (words: Vec<u32>)
        ensures
            final(self).states == old(self).states | (1u32 << state.spec_to_u32()),
            words@ == enable_words(*old(self), state),
            same_but_state_settings(*final(self), *old(self)),
            context_with(
                final(self).current(),
                old(self).current(),
                if state == State::ScissorTest { 1 } else { old(self).current().scissor_enable },
                if state == State::Fragment2X { 0x10000 } else { old(self).current().fragment_2x },
            ),
    {
        let idx = self.curr_context.to_u32() as usize;
        let mut c = self.contexts[idx];
        let mut words: Vec<u32> = Vec::new();
        match state {
            State::ScissorTest => {
                c.scissor_enable = 1;
                words.push(command_word(Command::Scissor1, corner_arg_exec(c.scissor_start[0], c.scissor_start[1])));
                words.push(command_word(Command::Scissor2, corner_arg_exec(c.scissor_end[0], c.scissor_end[1])));
            },
            State::Fragment2X => {
                c.fragment_2x = 0x10000;
                words.push(command_word(Command::TexFunc, 0x10000i32 | c.texture_function));
            },
            _ => {
                words.push(command_word(toggle_command_exec(state), 1));
            },
        }
        self.contexts[idx] = c;
        self.states = self.states | (1u32 << state.to_u32());
        assert(words@ =~= enable_words(*old(self), state));
        words
    }

    /// Disable GE state `state`: clear its bit in the bitmask of states and
    /// return the words that switch it off.
    pub fn sce_gu_disable(&mut self, state: State) -> (words: Vec<u32>)
        requires
            state == State::ScissorTest ==> old(self).draw_buffer.width > i32::MIN && old(
                self,
            ).draw_buffer.height > i32::MIN,
        ensures
            final(self).states == old(self).states & !(1u32 << state.spec_to_u32()),
            words@ == disable_words(*old(self), state),
            same_but_state_settings(*final(self), *old(self)),
            context_with(
                final(self).current(),
                old(self).current(),
                if state == State::ScissorTest { 0 } else { old(self).current().scissor_enable },
                if state == State::Fragment2X { 0 } else { old(self).current().fragment_2x },
            ),
    {
        let idx = self.curr_context.to_u32() as usize;
        let mut c = self.contexts[idx];
        let mut words: Vec<u32> = Vec::new();
        match state {
            State::ScissorTest => {
                c.scissor_enable = 0;
                words.push(command_word(Command::Scissor1, 0));
                words.push(
                    command_word(
                        Command::Scissor2,
                        corner_arg_exec(self.draw_buffer.width - 1, self.draw_buffer.height - 1),
                    ),
                );
            },
            State::Fragment2X => {
                c.fragment_2x = 0;
                words.push(command_word(Command::TexFunc, c.texture_function));
            },
            _ => {
                words.push(command_word(toggle_command_exec(state), 0));
            },
        }
        self.contexts[idx] = c;
        self.states = self.states & !(1u32 << state.to_u32());
        assert(words@ =~= disable_words(*old(self), state));
        words
    }

    /// Enable `state` when `status` is non-zero, else disable it.
    pub fn sce_gu_set_status(&mut self, state: State, status: i32) -> (words: Vec<u32>)
        requires
            status == 0 && state == State::ScissorTest ==> old(self).draw_buffer.width > i32::MIN
                && old(self).draw_buffer.height > i32::MIN,
        ensures
            final(self).states == if status != 0 {
                old(self).states | (1u32 << state.spec_to_u32())
            } else {
                old(self).states & !(1u32 << state.spec_to_u32())
            },
            words@ == if status != 0 {
                enable_words(*old(self), state)
            } else {
                disable_words(*old(self), state)
            },
            same_but_state_settings(*final(self), *old(self)),
    {
        if status != 0 {
            self.sce_gu_enable(state)
        } else {
            self.sce_gu_disable(state)
        }
    }

    /// Whether `state` is currently enabled: its bit in the bitmask of states.
    pub fn sce_gu_get_status(&self, state: State) -> (enabled: bool)
        ensures
            enabled == ((self.states >> state.spec_to_u32()) & 1 != 0),
    {
        let s = state.to_u32();
        if s < 22 {
            return (self.states >> s) & 1 != 0;
        }
        false
    }

    /// The status of all 22 states as a bitmask.
    pub fn sce_gu_get_all_status(&self) -> (status: i32)
        ensures
            status == self.states as i32,
    {
        self.states as i32
    }
}

/// Enabling a state makes `sce_gu_get_status` report it enabled, disabling
/// it makes it report disabled, and the other states keep their status.
pub proof fn lemma_status_after_toggle(states: u32, s: State, t: State)
    ensures
        ((states | (1u32 << s.spec_to_u32())) >> s.spec_to_u32()) & 1 != 0,
        ((states & !(1u32 << s.spec_to_u32())) >> s.spec_to_u32()) & 1 == 0,
        s != t ==> ((states | (1u32 << s.spec_to_u32())) >> t.spec_to_u32()) & 1 == (states
            >> t.spec_to_u32()) & 1,
        s != t ==> ((states & !(1u32 << s.spec_to_u32())) >> t.spec_to_u32()) & 1 == (states
            >> t.spec_to_u32()) & 1,
{
    let a = s.spec_to_u32();
    let b = t.spec_to_u32();
    assert(a < 22 && b < 22);
    if s != t {
        lemma_state_value_injective_contra(s, t);
    }
    assert(a < 32u32 ==> ((states | (1u32 << a)) >> a) & 1 != 0) by (bit_vector);
    assert(a < 32u32 ==> ((states & !(1u32 << a)) >> a) & 1 == 0) by (bit_vector);
    assert(a < 32u32 && b < 32u32 && a != b ==> ((states | (1u32 << a)) >> b) & 1 == (states >> b) & 1)
        by (bit_vector);
    assert(a < 32u32 && b < 32u32 && a != b ==> ((states & !(1u32 << a)) >> b) & 1 == (states >> b)
        & 1) by (bit_vector);
}

proof fn lemma_state_value_injective_contra(s: State, t: State)
    requires
        s != t,
    ensures
        s.spec_to_u32() != t.spec_to_u32(),
{
}

/// The ordered dither matrix that `sce_gu_start` loads on first use.
pub open spec fn spec_default_dither_matrix() -> IMatrix4 {
    IMatrix4 {
        x: IVector4 { x: -4i32, y: 0i32, z: -3i32, w: 1i32 },
        y: IVector4 { x: 2i32, y: -2i32, z: 3i32, w: -1i32 },
        z: IVector4 { x: -3i32, y: 1i32, z: -4i32, w: 0i32 },
        w: IVector4 { x: 3i32, y: -1i32, z: 2i32, w: -2i32 },
    }
}

/// The 24-bit float argument 1.0 (the top 24 bits of its 32-bit encoding).
pub const FLOAT24_ONE: i32 = 0x3F8000;

/// The words that `sce_gu_start` emits on first use: the default dither
/// matrix, 16 x 16 patch divisions, ambient, diffuse and specular material
/// colours, specular power 1.0 and texture scale 1.0 x 1.0.
pub open spec fn first_start_words() -> Seq<u32> {
    let m = spec_default_dither_matrix();
    seq![
        spec_command_word(Command::Dith0, dither_row(m.x)),
        spec_command_word(Command::Dith1, dither_row(m.y)),
        spec_command_word(Command::Dith2, dither_row(m.z)),
        spec_command_word(Command::Dith3, dither_row(m.w)),
        spec_command_word(Command::PatchDivision, 0x1010i32),
        spec_command_word(
            Command::MaterialUpdate,
            LIGHT_COMPONENT_AMBIENT | LIGHT_COMPONENT_DIFFUSE | LIGHT_COMPONENT_SPECULAR,
        ),
        spec_command_word(Command::MaterialSpecularCoef, FLOAT24_ONE),
        spec_command_word(Command::TexScaleU, FLOAT24_ONE),
        spec_command_word(Command::TexScaleV, FLOAT24_ONE),
    ]
}

/// The words that point the graphics engine at the draw buffer of `d`.
pub open spec fn frame_buffer_words(d: GuDrawBuffer) -> Seq<u32> {
    seq![
        spec_command_word(Command::FrameBufPtr, (d.frame_buffer & 0xffffff) as i32),
        spec_command_word(
            Command::FrameBufWidth,
            (((d.frame_buffer & 0xff000000) >> 8u32) as i32) | d.frame_width,
        ),
    ]
}

/// What starting a display list asks of the caller: whether to hand the
/// list to the graphics engine (a direct context), and the words to write
/// at the start of the list.
pub struct StartStep {
    pub enqueue: bool,
    pub words: Vec<u32>,
}

impl GuState {
    /// Start filling a new display list at address `list` for context
    /// `context_type`.
    ///
    /// The list is recorded at the uncached address `list | 0x4000_0000` with
    /// the previous context as its parent, and `context_type` becomes
    /// current. A direct context is to be enqueued. On first use the default
    /// settings are emitted; in a direct context with a draw buffer set, the
    /// draw-buffer words follow.
    pub fn sce_gu_start(&mut self, context_type: Context, list: u32) -> (step: StartStep)
        ensures
            final(self).curr_context == context_type,
            final(self).current().list.start == list | 0x4000_0000,
            final(self).current().list.current == list | 0x4000_0000,
            final(self).current().list.parent_context == old(self).curr_context,
            list_start_step(*old(self), *final(self), context_type),
            step.enqueue == (context_type == Context::Direct),
            final(self).init == (if old(self).init == 0 { 1 } else { old(self).init }),
            step.words@ == (if old(self).init == 0 { first_start_words() } else { Seq::empty() })
                + (if context_type == Context::Direct && old(self).draw_buffer.frame_width != 0 {
                frame_buffer_words(old(self).draw_buffer)
            } else {
                Seq::empty()
            }),
            final(self).states == old(self).states,
            final(self).draw_buffer == old(self).draw_buffer,
            final(self).current_frame == old(self).current_frame,
            final(self).display_on == old(self).display_on,
            final(self).call_mode == old(self).call_mode,
            final(self).object_stack_depth == old(self).object_stack_depth,
            forall|i: int|
                0 <= i < 3 && i != context_type.spec_to_u32() ==> #[trigger] final(self).contexts[i]
                    == old(self).contexts[i],
            final(self).current() == (GuContext {
                list: final(self).current().list,
                ..old(self).contexts[context_type.spec_to_u32() as int]
            }),
    {
        let idx = context_type.to_u32() as usize;
        let local_list = list | 0x4000_0000;
        let mut c = self.contexts[idx];
        c.list = GuDisplayList { start: local_list, current: local_list, parent_context: self.curr_context };
        self.contexts[idx] = c;
        self.curr_context = context_type;
        let enqueue = match context_type {
            Context::Direct => true,
            _ => false,
        };
        let mut words: Vec<u32> = Vec::new();
        if self.init == 0 {
            let dither = IMatrix4 {
                x: IVector4 { x: -4, y: 0, z: -3, w: 1 },
                y: IVector4 { x: 2, y: -2, z: 3, w: -1 },
                z: IVector4 { x: -3, y: 1, z: -4, w: 0 },
                w: IVector4 { x: 3, y: -1, z: 2, w: -2 },
            };
            assert(dither == spec_default_dither_matrix());
            words = sce_gu_set_dither(&dither);
            words.push(command_word(Command::PatchDivision, 0x1010));
            words.push(
                command_word(
                    Command::MaterialUpdate,
                    LIGHT_COMPONENT_AMBIENT | LIGHT_COMPONENT_DIFFUSE | LIGHT_COMPONENT_SPECULAR,
                ),
            );
            words.push(command_word(Command::MaterialSpecularCoef, FLOAT24_ONE));
            words.push(command_word(Command::TexScaleU, FLOAT24_ONE));
            words.push(command_word(Command::TexScaleV, FLOAT24_ONE));
            self.init = 1;
            assert(words@ =~= first_start_words());
        }
        let ghost first = words@;
        if enqueue && self.draw_buffer.frame_width != 0 {
            let fb = self.draw_buffer.frame_buffer;
            words.push(command_word(Command::FrameBufPtr, (fb & 0xffffff) as i32));
            words.push(
                command_word(
                    Command::FrameBufWidth,
                    (((fb & 0xff000000) >> 8u32) as i32) | self.draw_buffer.frame_width,
                ),
            );
            assert(words@ =~= first + frame_buffer_words(self.draw_buffer));
        } else {
            assert(words@ =~= first + Seq::<u32>::empty());
        }
        StartStep { enqueue, words }
    }
}

/// Light components: ambient.
pub const LIGHT_COMPONENT_AMBIENT: i32 = 1;
/// Light components: diffuse.
pub const LIGHT_COMPONENT_DIFFUSE: i32 = 2;
/// Light components: specular.
pub const LIGHT_COMPONENT_SPECULAR: i32 = 4;
/// Light components: the fourth, undocumented component.
pub const LIGHT_COMPONENT_UNKNOWN: i32 = 8;

/// Clear-buffer bits: the color buffer.
pub const CLEAR_COLOR_BUFFER_BIT: u32 = 1;
/// Clear-buffer bits: the stencil buffer.
pub const CLEAR_STENCIL_BUFFER_BIT: u32 = 2;
/// Clear-buffer bits: the depth buffer.
pub const CLEAR_DEPTH_BUFFER_BIT: u32 = 4;
/// Clear-buffer bits: clear in 64-pixel strips, which the hardware does in
/// parallel.
pub const CLEAR_FAST_CLEAR_BIT: u32 = 16;

/// The primitive-drawing words (`sce_gu_draw_array`): the vertex type when it
/// is not empty, the index and vertex addresses when they are not null (each
/// with its base), then the primitive with its vertex count. The last word
/// is the one after which a direct list's stall address moves.
pub open spec fn draw_array_words(prim: Primitive, vtype: VertexType, count: i32, indices: u32, vertices: u32) -> Seq<u32> {
    (if vtype.spec_bits() != 0 { seq![spec_command_word(Command::VertexType, vtype.spec_bits())] } else { Seq::empty() })
    + (if indices != 0 {
        seq![
            spec_command_word(Command::Base, ((indices >> 8u32) & 0xf0000) as i32),
            spec_command_word(Command::Iaddr, (indices & 0xffffff) as i32),
        ]
    } else { Seq::empty() })
    + (if vertices != 0 {
        seq![
            spec_command_word(Command::Base, ((vertices >> 8u32) & 0xf0000) as i32),
            spec_command_word(Command::Vaddr, (vertices & 0xffffff) as i32),
        ]
    } else { Seq::empty() })
    + seq![spec_command_word(Command::Prim, ((prim.spec_to_u32() << 16u32) | (count as u32)) as i32)]
}

/// Draw array of vertices forming primitives: the words that draw `count`
/// vertices of type `vtype` at address `vertices` (0 for none), indexed by
/// the list at `indices` (0 for none), as primitives `prim`.
pub fn sce_gu_draw_array(prim: Primitive, vtype: VertexType, count: i32, indices: u32, vertices: u32) -> (words: Vec<u32>)
    ensures
        words@ == draw_array_words(prim, vtype, count, indices, vertices),
{
    let mut words: Vec<u32> = Vec::new();
    if !vtype.is_empty() {
        words.push(command_word(Command::VertexType, vtype.bits()));
    }
    let ghost w1 = words@;
    if indices != 0 {
        words.push(command_word(Command::Base, ((indices >> 8u32) & 0xf0000) as i32));
        words.push(command_word(Command::Iaddr, (indices & 0xffffff) as i32));
    }
    let ghost w2 = words@;
    if vertices != 0 {
        words.push(command_word(Command::Base, ((vertices >> 8u32) & 0xf0000) as i32));
        words.push(command_word(Command::Vaddr, (vertices & 0xffffff) as i32));
    }
    let ghost w3 = words@;
    words.push(command_word(Command::Prim, ((prim.to_u32() << 16u32) | (count as u32)) as i32));
    assert(words@ =~= draw_array_words(prim, vtype, count, indices, vertices));
    words
}

/// A vertex of the sprites that clear the draw buffer.
#[derive(Clone, Copy, Debug, PartialEq, Eq, Structural)]
pub struct ClearVertex {
    pub color: u32,
    pub x: u16,
    pub y: u16,
    pub z: u16,
}

/// The colour that a clear writes for a draw buffer of `pixel_size`: the clear
/// colour, with the clear stencil value in the alpha bits of the format.
pub open spec fn clear_filter(pixel_size: DisplayPixelFormat, color: u32, stencil: u32) -> u32 {
    match pixel_size {
        DisplayPixelFormat::_565 => color & 0xffffff,
        DisplayPixelFormat::_5551 => (color & 0xffffff) | (stencil << 31u32),
        DisplayPixelFormat::_4444 => (color & 0xffffff) | (stencil << 28u32),
        DisplayPixelFormat::_8888 => (color & 0xffffff) | (stencil << 24u32),
    }
}

/// Number of vertices of a fast clear of a buffer `width` pixels wide: two
/// per 64-pixel strip.
pub open spec fn fast_clear_count(width: i32) -> int {
    let w = width + 63;
    (if w >= 0 { w / 64 } else { -((-w) / 64) }) * 2
}

/// The `i`-th vertex of a fast clear: strips of 64 pixels, alternating the
/// top and the bottom edge.
pub open spec fn fast_clear_vertex(i: int, filter: u32, height: i32, depth: u32) -> ClearVertex {
    ClearVertex {
        color: filter,
        x: ((((i / 2) + (i % 2)) as u16) * 64) as u16,
        y: ((i % 2) * height) as u16,
        z: depth as u16,
    }
}

/// What clearing the draw buffer takes: the sprites' vertices, and the words
/// that go before and after drawing them.
pub struct ClearPlan {
    pub filter: u32,
    pub vertices: Vec<ClearVertex>,
    pub begin: u32,
    pub end: u32,
}

/// How many vertices a clear with `flags` draws on a buffer `width` pixels
/// wide: the two corners of one sprite, or two per 64-pixel strip for a fast
/// clear.
pub open spec fn clear_vertex_count(flags: u32, width: i32) -> int {
    if flags & CLEAR_FAST_CLEAR_BIT == 0 {
        2
    } else if fast_clear_count(width) > 0 {
        fast_clear_count(width)
    } else {
        0
    }
}

impl GuState {
    /// The vertices of the sprites that a clear with `flags` draws over the
    /// current draw buffer.
    pub open spec fn clear_vertices(self, flags: u32) -> Seq<ClearVertex> {
        let filter = clear_filter(
            self.draw_buffer.pixel_size,
            self.current().clear_color,
            self.current().clear_stencil,
        );
        let depth = self.current().clear_depth;
        if flags & CLEAR_FAST_CLEAR_BIT == 0 {
            seq![
                ClearVertex { color: 0, x: 0, y: 0, z: depth as u16 },
                ClearVertex {
                    color: filter,
                    x: self.draw_buffer.width as u16,
                    y: self.draw_buffer.height as u16,
                    z: depth as u16,
                },
            ]
        } else {
            Seq::new(
                clear_vertex_count(flags, self.draw_buffer.width) as nat,
                |i: int| fast_clear_vertex(i, filter, self.draw_buffer.height, depth),
            )
        }
    }

    /// What clearing the current draw buffer takes: the parts of it named
    /// by `flags` (any of the `CLEAR_*` bits) are covered by sprites with
    /// `vertices`, drawn between the words `begin` and `end`.
    /// `sce_gu_clear` lays all of it out in a display list.
    pub fn clear_plan(&self, flags: u32) -> (plan: ClearPlan)
        requires
            flags & CLEAR_FAST_CLEAR_BIT != 0 ==> self.draw_buffer.width <= i32::MAX - 63
                && (self.draw_buffer.width + 63) / 64 <= 1023,
        ensures
            plan.filter == clear_filter(
                self.draw_buffer.pixel_size,
                self.current().clear_color,
                self.current().clear_stencil,
            ),
            plan.begin == spec_command_word(Command::ClearMode, (((flags & 7) << 8u32) | 1) as i32),
            plan.end == spec_command_word(Command::ClearMode, 0),
            plan.vertices@.len() <= 2046,
            plan.vertices@ == self.clear_vertices(flags),
            flags & CLEAR_FAST_CLEAR_BIT == 0 ==> plan.vertices@ == seq![
                ClearVertex { color: 0, x: 0, y: 0, z: self.current().clear_depth as u16 },
                ClearVertex {
                    color: plan.filter,
                    x: self.draw_buffer.width as u16,
                    y: self.draw_buffer.height as u16,
                    z: self.current().clear_depth as u16,
                },
            ],
            flags & CLEAR_FAST_CLEAR_BIT != 0 ==> {
                &&& plan.vertices@.len() == (if fast_clear_count(self.draw_buffer.width) > 0 {
                    fast_clear_count(self.draw_buffer.width)
                } else {
                    0
                })
                &&& forall|i: int|
                    0 <= i < plan.vertices@.len() ==> #[trigger] plan.vertices@[i]
                        == fast_clear_vertex(
                        i,
                        plan.filter,
                        self.draw_buffer.height,
                        self.current().clear_depth,
                    )
            },
    {
        let idx = self.curr_context.to_u32() as usize;
        let c = self.contexts[idx];
        let filter: u32 = match self.draw_buffer.pixel_size {
            DisplayPixelFormat::_565 => c.clear_color & 0xffffff,
            DisplayPixelFormat::_5551 => (c.clear_color & 0xffffff) | (c.clear_stencil << 31u32),
            DisplayPixelFormat::_4444 => (c.clear_color & 0xffffff) | (c.clear_stencil << 28u32),
            DisplayPixelFormat::_8888 => (c.clear_color & 0xffffff) | (c.clear_stencil << 24u32),
        };
        let mut vertices: Vec<ClearVertex> = Vec::new();
        if flags & CLEAR_FAST_CLEAR_BIT == 0 {
            vertices.push(ClearVertex { color: 0, x: 0, y: 0, z: c.clear_depth as u16 });
            vertices.push(
                ClearVertex {
                    color: filter,
                    x: self.draw_buffer.width as u16,
                    y: self.draw_buffer.height as u16,
                    z: c.clear_depth as u16,
                },
            );
        } else {
            let count: i32 = ((self.draw_buffer.width + 63) / 64) * 2;
            let height = self.draw_buffer.height;
            let mut i: i32 = 0;
            while i < count
                invariant
                    0 <= i,
                    count == fast_clear_count(self.draw_buffer.width),
                    count > 0 ==> i <= count,
                    count <= 0 ==> i == 0,
                    count <= 2046,
                    height == self.draw_buffer.height,
                    vertices@.len() == i,
                    forall|k: int|
                        0 <= k < i ==> #[trigger] vertices@[k] == fast_clear_vertex(
                            k,
                            filter,
                            height,
                            c.clear_depth,
                        ),
                decreases count - i,
            {
                let j = i >> 1;
                let k = i & 1;
                assert(j == i / 2 && k == i % 2) by (bit_vector)
                    requires
                        i >= 0,
                        j == i >> 1,
                        k == i & 1,
                ;
                let x: u16 = ((j + k) as u16) * 64;
                vertices.push(ClearVertex { color: filter, x, y: (k * height) as u16, z: c.clear_depth as u16 });
                i += 1;
            }
            assert(vertices@.len() == (if count > 0 { count as int } else { 0 }));
            assert(c.clear_depth == self.current().clear_depth);
            assert(vertices@ =~= self.clear_vertices(flags));
        }
        let begin = command_word(Command::ClearMode, (((flags & 7) << 8u32) | 1) as i32);
        let end = command_word(Command::ClearMode, 0);
        proof {
            if flags & CLEAR_FAST_CLEAR_BIT == 0 {
                assert(vertices@ =~= seq![
                    ClearVertex { color: 0, x: 0, y: 0, z: c.clear_depth as u16 },
                    ClearVertex {
                        color: filter,
                        x: self.draw_buffer.width as u16,
                        y: self.draw_buffer.height as u16,
                        z: c.clear_depth as u16,
                    },
                ]);
            }
        }
        ClearPlan { filter, vertices, begin, end }
    }
}

/// Memory taken from a display list: the two words (base, then jump) that
/// skip over it, the address where the list goes on, and the block itself.
pub struct ListMemory {
    pub words: (u32, u32),
    pub next: u32,
    pub block: u32,
}

/// `size` rounded up to a multiple of 4 bytes; sizes from -6 to -1 round to 0.
pub open spec fn rounded_size(size: i32) -> int {
    if size + 3 < 0 {
        0
    } else {
        ((size + 3) / 4) * 4
    }
}

/// The memory that `size` bytes take from a display list whose next word is
/// at address `current`: the list goes on after the two jump words and the
/// rounded block; the first word sets the base (bits 16..20 of the address
/// where the list goes on), the second jumps there.
pub open spec fn list_memory(current: u32, size: i32) -> ListMemory {
    let next = (current + rounded_size(size) + 8) as u32;
    ListMemory {
        words: ((16u32 << 24u32) | ((next >> 8u32) & 0xf0000), (8u32 << 24u32) | (next & 0xffffff)),
        next,
        block: (current + 8) as u32,
    }
}

/// Allocate memory on the display list whose next word is at address
/// `current`, for temporary storage of `size` bytes: the list jumps over
/// the block, which starts right after the two jump words.
pub fn sce_gu_get_memory(current: u32, size: i32) -> (m: ListMemory)
    requires
        -6 <= size <= i32::MAX - 3,
        current + rounded_size(size) + 8 <= u32::MAX,
    ensures
        m == list_memory(current, size),
        m.next == current + rounded_size(size) + 8,
        m.block == current + 8,
{
    let s: u32 = if size + 3 < 0 {
        0
    } else {
        ((size + 3) as u32 / 4) * 4
    };
    let next = current + s + 8;
    let hi = (16u32 << 24u32) | ((next >> 8u32) & 0xf0000);
    let lo = (8u32 << 24u32) | (next & 0xffffff);
    ListMemory { words: (hi, lo), next, block: current + 8 }
}

/// The vertex type of the clear sprites: 8888 colour, 16-bit positions, drawn
/// in 2D (untransformed).
pub open spec fn clear_vertex_type_bits() -> i32 {
    VertexType::COLOR_8888 | VertexType::VERTEX_16BIT | VertexType::TRANSFORM_2D
}

/// Size in bytes of one clear vertex in list memory.
pub const CLEAR_VERTEX_BYTES: usize = 12;

/// The bytes of one clear vertex in list memory: colour, x, y and z
/// little-endian, then two bytes of padding (written as zero).
pub open spec fn clear_vertex_bytes(v: ClearVertex) -> Seq<u8> {
    seq![
        (v.color & 0xff) as u8, ((v.color >> 8u32) & 0xff) as u8, ((v.color >> 16u32) & 0xff) as u8,
        ((v.color >> 24u32) & 0xff) as u8,
        (v.x & 0xff) as u8, ((v.x >> 8u16) & 0xff) as u8,
        (v.y & 0xff) as u8, ((v.y >> 8u16) & 0xff) as u8,
        (v.z & 0xff) as u8, ((v.z >> 8u16) & 0xff) as u8,
        0u8, 0u8,
    ]
}

/// The bytes of all `vertices`, in order.
pub open spec fn clear_vertices_bytes(vertices: Seq<ClearVertex>) -> Seq<u8>
    decreases vertices.len(),
{
    if vertices.len() == 0 {
        Seq::empty()
    } else {
        clear_vertices_bytes(vertices.drop_last()) + clear_vertex_bytes(vertices.last())
    }
}

impl ClearPlan {
    /// The bytes that the clear's vertices take in list memory.
    pub fn vertex_bytes(&self) -> (bytes: Vec<u8>)
        ensures
            bytes@ == clear_vertices_bytes(self.vertices@),
    {
        let mut bytes: Vec<u8> = Vec::new();
        let mut i: usize = 0;
        while i < self.vertices.len()
            invariant
                i <= self.vertices@.len(),
                bytes@ == clear_vertices_bytes(self.vertices@.take(i as int)),
            decreases self.vertices@.len() - i,
        {
            let v = self.vertices[i];
            let ghost before = bytes@;
            bytes.push((v.color & 0xff) as u8);
            bytes.push(((v.color >> 8u32) & 0xff) as u8);
            bytes.push(((v.color >> 16u32) & 0xff) as u8);
            bytes.push(((v.color >> 24u32) & 0xff) as u8);
            bytes.push((v.x & 0xff) as u8);
            bytes.push(((v.x >> 8u16) & 0xff) as u8);
            bytes.push((v.y & 0xff) as u8);
            bytes.push(((v.y >> 8u16) & 0xff) as u8);
            bytes.push((v.z & 0xff) as u8);
            bytes.push(((v.z >> 8u16) & 0xff) as u8);
            bytes.push(0u8);
            bytes.push(0u8);
            assert(self.vertices@.take(i + 1).drop_last() =~= self.vertices@.take(i as int));
            assert(bytes@ =~= before + clear_vertex_bytes(v));
            i += 1;
        }
        assert(self.vertices@.take(self.vertices@.len() as int) =~= self.vertices@);
        bytes
    }

    /// All the words of the clear, given the address `block` where its
    /// vertices lie in list memory: the first ClearMode word, a sprite draw
    /// of every vertex (8888 colour, 16-bit 2D positions, no index list),
    /// then the last ClearMode word.
    pub fn words(&self, block: u32) -> (w: Vec<u32>)
        requires
            self.vertices@.len() <= i32::MAX,
        ensures
            w@ == seq![self.begin] + draw_array_words(
                Primitive::Sprites,
                VertexType::from_bits_spec(clear_vertex_type_bits()),
                self.vertices@.len() as i32,
                0,
                block,
            ) + seq![self.end],
    {
        let vtype = VertexType::from_bits_truncate(
            VertexType::COLOR_8888 | VertexType::VERTEX_16BIT | VertexType::TRANSFORM_2D,
        );
        proof {
            assert((clear_vertex_type_bits() & VertexType::ALL_BITS) == clear_vertex_type_bits())
                by (bit_vector);
        }
        let draw = sce_gu_draw_array(Primitive::Sprites, vtype, self.vertices.len() as i32, 0, block);
        let mut w: Vec<u32> = Vec::new();
        w.push(self.begin);
        let mut i: usize = 0;
        while i < draw.len()
            invariant
                i <= draw@.len(),
                w@ == seq![self.begin] + draw@.take(i as int),
            decreases draw@.len() - i,
        {
            w.push(draw[i]);
            assert(draw@.take(i + 1) =~= draw@.take(i as int).push(draw@[i as int]));
            i += 1;
        }
        assert(draw@.take(draw@.len() as int) =~= draw@);
        w.push(self.end);
        w
    }
}

/// Each clear vertex takes twelve bytes of list memory.
pub proof fn lemma_clear_vertices_bytes_len(vertices: Seq<ClearVertex>)
    ensures
        clear_vertices_bytes(vertices).len() == 12 * vertices.len(),
    decreases vertices.len(),
{
    if vertices.len() > 0 {
        lemma_clear_vertices_bytes_len(vertices.drop_last());
    }
}

/// Everything a clear appends to a display list: the memory it takes for
/// the vertices (with the two words that skip it), the vertices' bytes for
/// that block, and the words written after the block.
pub struct ClearCommands {
    pub memory: ListMemory,
    pub vertex_bytes: Vec<u8>,
    pub words: Vec<u32>,
}

impl GuState {
    /// Clear the current draw buffer: the parts of it named by `flags` (any
    /// of the `CLEAR_*` bits), on the display list whose next word is at
    /// address `current`. The clear takes list memory for its vertices,
    /// fills it, and draws them as sprites of 8888 colour and 16-bit 2D
    /// positions between the two `ClearMode` words.
    pub fn sce_gu_clear(&self, flags: u32, current: u32) -> (out: ClearCommands)
        requires
            flags & CLEAR_FAST_CLEAR_BIT != 0 ==> self.draw_buffer.width <= i32::MAX - 63
                && (self.draw_buffer.width + 63) / 64 <= 1023,
            current + rounded_size(
                (CLEAR_VERTEX_BYTES * clear_vertex_count(flags, self.draw_buffer.width)) as i32,
            ) + 8 <= u32::MAX,
        ensures
            out.memory == list_memory(
                current,
                (CLEAR_VERTEX_BYTES * clear_vertex_count(flags, self.draw_buffer.width)) as i32,
            ),
            out.vertex_bytes@ == clear_vertices_bytes(self.clear_vertices(flags)),
            out.words@ == seq![spec_command_word(Command::ClearMode, (((flags & 7) << 8u32) | 1) as i32)]
                + draw_array_words(
                Primitive::Sprites,
                VertexType::from_bits_spec(clear_vertex_type_bits()),
                clear_vertex_count(flags, self.draw_buffer.width) as i32,
                0,
                out.memory.block,
            ) + seq![spec_command_word(Command::ClearMode, 0)],
            out.words@ == seq![
                spec_command_word(Command::ClearMode, (((flags & 7) << 8u32) | 1) as i32),
                spec_command_word(Command::VertexType, clear_vertex_type_bits()),
                spec_command_word(Command::Base, ((out.memory.block >> 8u32) & 0xf0000) as i32),
                spec_command_word(Command::Vaddr, (out.memory.block & 0xffffff) as i32),
                spec_command_word(
                    Command::Prim,
                    ((Primitive::Sprites.spec_to_u32() << 16u32) | (clear_vertex_count(
                        flags,
                        self.draw_buffer.width,
                    ) as i32 as u32)) as i32,
                ),
                spec_command_word(Command::ClearMode, 0),
            ],
            addresses(out.words@[2], out.words@[3], Command::Vaddr, out.memory.block),
            out.memory.block == current + 8,
    {
        let plan = self.clear_plan(flags);
        let vertex_bytes = plan.vertex_bytes();
        proof {
            lemma_clear_vertices_bytes_len(plan.vertices@);
        }
        let memory = sce_gu_get_memory(current, vertex_bytes.len() as i32);
        let words = plan.words(memory.block);
        proof {
            lemma_address_words(Command::Vaddr, memory.block);
            VertexType::lemma_from_bits_spec(clear_vertex_type_bits());
            assert(clear_vertex_type_bits() != 0) by (bit_vector);
            assert(words@ =~= seq![
                spec_command_word(Command::ClearMode, (((flags & 7) << 8u32) | 1) as i32),
                spec_command_word(Command::VertexType, clear_vertex_type_bits()),
                spec_command_word(Command::Base, ((memory.block >> 8u32) & 0xf0000) as i32),
                spec_command_word(Command::Vaddr, (memory.block & 0xffffff) as i32),
                spec_command_word(
                    Command::Prim,
                    ((Primitive::Sprites.spec_to_u32() << 16u32) | (clear_vertex_count(
                        flags,
                        self.draw_buffer.width,
                    ) as i32 as u32)) as i32,
                ),
                spec_command_word(Command::ClearMode, 0),
            ]);
        }
        ClearCommands { memory, vertex_bytes, words }
    }
}

/// Select which depth-test function to use.
pub fn sce_gu_depth_func(function: DepthFunc) -> (words: Vec<u32>)
    ensures
        words@ == seq![spec_command_word(Command::ZTest, function.spec_to_u32() as i32)],
{
    let mut words: Vec<u32> = Vec::new();
    words.push(command_word(Command::ZTest, function.to_u32() as i32));
    assert(words@ =~= seq![spec_command_word(Command::ZTest, function.spec_to_u32() as i32)]);
    words
}

/// Mask depth buffer writes: `1` to disable Z writes, `0` to enable.
pub fn sce_gu_depth_mask(mask: i32) -> (words: Vec<u32>)
    ensures
        words@ == seq![spec_command_word(Command::ZWriteDisable, mask)],
{
    let mut words: Vec<u32> = Vec::new();
    words.push(command_word(Command::ZWriteDisable, mask));
    assert(words@ =~= seq![spec_command_word(Command::ZWriteDisable, mask)]);
    words
}

/// Set the alpha test parameters: comparison `func`, reference `value` and `mask`, each of the last two kept to 8 bits.
pub fn sce_gu_alpha_func(func: AlphaFunc, value: i32, mask: i32) -> (words: Vec<u32>)
    ensures
        words@ == seq![spec_command_word(Command::AlphaTest, (func.spec_to_u32() | (((value as u32) & 0xff) << 8u32) | (((mask as u32) & 0xff) << 16u32)) as i32)],
        holds_bytes(words@[0], Command::AlphaTest, func.spec_to_u32(), (value as u32) & 0xff, (mask as u32) & 0xff),
{
    proof {
        lemma_low_byte(value as u32);
        lemma_low_byte(mask as u32);
        lemma_byte_fields_word(Command::AlphaTest, func.spec_to_u32(), (value as u32) & 0xff, (mask as u32) & 0xff);
    }
    let mut words: Vec<u32> = Vec::new();
    words.push(command_word(Command::AlphaTest, (func.to_u32() | (((value as u32) & 0xff) << 8u32) | (((mask as u32) & 0xff) << 16u32)) as i32));
    assert(words@ =~= seq![spec_command_word(Command::AlphaTest, (func.spec_to_u32() | (((value as u32) & 0xff) << 8u32) | (((mask as u32) & 0xff) << 16u32)) as i32)]);
    words
}

/// Set the ambient light colour and alpha.
pub fn sce_gu_ambient(color: u32) -> (words: Vec<u32>)
    ensures
        words@ == seq![spec_command_word(Command::AmbientColor, (color & 0xffffff) as i32), spec_command_word(Command::AmbientAlpha, (color >> 24u32) as i32)],
        word_command(words@[0]) == Command::AmbientColor.spec_to_u32() && word_argument(words@[0]) == color & 0xffffff,
        word_command(words@[1]) == Command::AmbientAlpha.spec_to_u32() && word_argument(words@[1]) == color >> 24u32,
{
    proof {
        lemma_color_word(Command::AmbientColor, color);
        lemma_alpha_word(Command::AmbientAlpha, color);
    }
    let mut words: Vec<u32> = Vec::new();
    words.push(command_word(Command::AmbientColor, (color & 0xffffff) as i32));
    words.push(command_word(Command::AmbientAlpha, (color >> 24u32) as i32));
    assert(words@ =~= seq![spec_command_word(Command::AmbientColor, (color & 0xffffff) as i32), spec_command_word(Command::AmbientAlpha, (color >> 24u32) as i32)]);
    words
}

/// Set the material ambient colour and alpha.
pub fn sce_gu_ambient_color(color: u32) -> (words: Vec<u32>)
    ensures
        words@ == seq![spec_command_word(Command::MaterialAmbient, (color & 0xffffff) as i32), spec_command_word(Command::MaterialAlpha, (color >> 24u32) as i32)],
        word_command(words@[0]) == Command::MaterialAmbient.spec_to_u32() && word_argument(words@[0]) == color & 0xffffff,
        word_command(words@[1]) == Command::MaterialAlpha.spec_to_u32() && word_argument(words@[1]) == color >> 24u32,
{
    proof {
        lemma_color_word(Command::MaterialAmbient, color);
        lemma_alpha_word(Command::MaterialAlpha, color);
    }
    let mut words: Vec<u32> = Vec::new();
    words.push(command_word(Command::MaterialAmbient, (color & 0xffffff) as i32));
    words.push(command_word(Command::MaterialAlpha, (color >> 24u32) as i32));
    assert(words@ =~= seq![spec_command_word(Command::MaterialAmbient, (color & 0xffffff) as i32), spec_command_word(Command::MaterialAlpha, (color >> 24u32) as i32)]);
    words
}

/// Set the blending operation `op` with source factor `src`, destination factor `dest`, and the fixed colours used by the `Fix` factors.
pub fn sce_gu_blend_func(op: BlendOp, src: BlendSrc, dest: BlendDst, src_fix: u32, dest_fix: u32) -> (words: Vec<u32>)
    ensures
        words@ == seq![spec_command_word(Command::BlendMode, (src.spec_to_u32() | (dest.spec_to_u32() << 4u32) | (op.spec_to_u32() << 8u32)) as i32), spec_command_word(Command::BlendFixedA, (src_fix & 0xffffff) as i32), spec_command_word(Command::BlendFixedB, (dest_fix & 0xffffff) as i32)],
{
    let mut words: Vec<u32> = Vec::new();
    words.push(command_word(Command::BlendMode, (src.to_u32() | (dest.to_u32() << 4u32) | (op.to_u32() << 8u32)) as i32));
    words.push(command_word(Command::BlendFixedA, (src_fix & 0xffffff) as i32));
    words.push(command_word(Command::BlendFixedB, (dest_fix & 0xffffff) as i32));
    assert(words@ =~= seq![spec_command_word(Command::BlendMode, (src.spec_to_u32() | (dest.spec_to_u32() << 4u32) | (op.spec_to_u32() << 8u32)) as i32), spec_command_word(Command::BlendFixedA, (src_fix & 0xffffff) as i32), spec_command_word(Command::BlendFixedB, (dest_fix & 0xffffff) as i32)]);
    words
}

/// Set the material emissive, ambient, diffuse and specular colours.
pub fn sce_gu_model_color(emissive: u32, ambient: u32, diffuse: u32, specular: u32) -> (words: Vec<u32>)
    ensures
        words@ == seq![spec_command_word(Command::MaterialEmissive, (emissive & 0xffffff) as i32), spec_command_word(Command::MaterialAmbient, (ambient & 0xffffff) as i32), spec_command_word(Command::MaterialDiffuse, (diffuse & 0xffffff) as i32), spec_command_word(Command::MaterialSpecular, (specular & 0xffffff) as i32)],
        word_command(words@[0]) == Command::MaterialEmissive.spec_to_u32() && word_argument(words@[0]) == emissive & 0xffffff,
        word_command(words@[1]) == Command::MaterialAmbient.spec_to_u32() && word_argument(words@[1]) == ambient & 0xffffff,
        word_command(words@[2]) == Command::MaterialDiffuse.spec_to_u32() && word_argument(words@[2]) == diffuse & 0xffffff,
        word_command(words@[3]) == Command::MaterialSpecular.spec_to_u32() && word_argument(words@[3]) == specular & 0xffffff,
{
    proof {
        lemma_color_word(Command::MaterialEmissive, emissive);
        lemma_color_word(Command::MaterialAmbient, ambient);
        lemma_color_word(Command::MaterialDiffuse, diffuse);
        lemma_color_word(Command::MaterialSpecular, specular);
    }
    let mut words: Vec<u32> = Vec::new();
    words.push(command_word(Command::MaterialEmissive, (emissive & 0xffffff) as i32));
    words.push(command_word(Command::MaterialAmbient, (ambient & 0xffffff) as i32));
    words.push(command_word(Command::MaterialDiffuse, (diffuse & 0xffffff) as i32));
    words.push(command_word(Command::MaterialSpecular, (specular & 0xffffff) as i32));
    assert(words@ =~= seq![spec_command_word(Command::MaterialEmissive, (emissive & 0xffffff) as i32), spec_command_word(Command::MaterialAmbient, (ambient & 0xffffff) as i32), spec_command_word(Command::MaterialDiffuse, (diffuse & 0xffffff) as i32), spec_command_word(Command::MaterialSpecular, (specular & 0xffffff) as i32)]);
    words
}

/// Set the stencil test: comparison `func`, reference `ref_` and `mask`, each of the last two kept to 8 bits.
pub fn sce_gu_stencil_func(func: StencilFunc, ref_: i32, mask: i32) -> (words: Vec<u32>)
    ensures
        words@ == seq![spec_command_word(Command::StencilTest, (func.spec_to_u32() | (((ref_ as u32) & 0xff) << 8u32) | (((mask as u32) & 0xff) << 16u32)) as i32)],
        holds_bytes(words@[0], Command::StencilTest, func.spec_to_u32(), (ref_ as u32) & 0xff, (mask as u32) & 0xff),
{
    proof {
        lemma_low_byte(ref_ as u32);
        lemma_low_byte(mask as u32);
        lemma_byte_fields_word(Command::StencilTest, func.spec_to_u32(), (ref_ as u32) & 0xff, (mask as u32) & 0xff);
    }
    let mut words: Vec<u32> = Vec::new();
    words.push(command_word(Command::StencilTest, (func.to_u32() | (((ref_ as u32) & 0xff) << 8u32) | (((mask as u32) & 0xff) << 16u32)) as i32));
    assert(words@ =~= seq![spec_command_word(Command::StencilTest, (func.spec_to_u32() | (((ref_ as u32) & 0xff) << 8u32) | (((mask as u32) & 0xff) << 16u32)) as i32)]);
    words
}

/// Set the stencil operations on stencil failure, depth failure and depth pass.
pub fn sce_gu_stencil_op(fail: StencilOperation, zfail: StencilOperation, zpass: StencilOperation) -> (words: Vec<u32>)
    ensures
        words@ == seq![spec_command_word(Command::StencilOp, (fail.spec_to_u32() | (zfail.spec_to_u32() << 8u32) | (zpass.spec_to_u32() << 16u32)) as i32)],
        holds_bytes(words@[0], Command::StencilOp, fail.spec_to_u32(), zfail.spec_to_u32(), zpass.spec_to_u32()),
{
    proof {
        lemma_byte_fields_word(Command::StencilOp, fail.spec_to_u32(), zfail.spec_to_u32(), zpass.spec_to_u32());
    }
    let mut words: Vec<u32> = Vec::new();
    words.push(command_word(Command::StencilOp, (fail.to_u32() | (zfail.to_u32() << 8u32) | (zpass.to_u32() << 16u32)) as i32));
    assert(words@ =~= seq![spec_command_word(Command::StencilOp, (fail.spec_to_u32() | (zfail.spec_to_u32() << 8u32) | (zpass.spec_to_u32() << 16u32)) as i32)]);
    words
}

/// Set the logical operation on colours, kept to 4 bits.
pub fn sce_gu_logical_op(op: LogicalOperation) -> (words: Vec<u32>)
    ensures
        words@ == seq![spec_command_word(Command::LogicOp, (op.spec_to_u32() & 0x0f) as i32)],
{
    let mut words: Vec<u32> = Vec::new();
    words.push(command_word(Command::LogicOp, (op.to_u32() & 0x0f) as i32));
    assert(words@ =~= seq![spec_command_word(Command::LogicOp, (op.spec_to_u32() & 0x0f) as i32)]);
    words
}

/// Select the material components that take the vertex colour (any of the `LIGHT_COMPONENT_*` bits).
pub fn sce_gu_color_material(components: i32) -> (words: Vec<u32>)
    ensures
        words@ == seq![spec_command_word(Command::MaterialUpdate, components)],
{
    let mut words: Vec<u32> = Vec::new();
    words.push(command_word(Command::MaterialUpdate, components));
    assert(words@ =~= seq![spec_command_word(Command::MaterialUpdate, components)]);
    words
}

/// Set the colour test: comparison `func` (2 bits), reference `color` and `mask`.
pub fn sce_gu_color_func(func: ColorFunc, color: u32, mask: u32) -> (words: Vec<u32>)
    ensures
        words@ == seq![spec_command_word(Command::ColorTest, (func.spec_to_u32() & 0x03) as i32), spec_command_word(Command::ColorRef, (color & 0xffffff) as i32), spec_command_word(Command::ColorTestmask, mask as i32)],
{
    let mut words: Vec<u32> = Vec::new();
    words.push(command_word(Command::ColorTest, (func.to_u32() & 0x03) as i32));
    words.push(command_word(Command::ColorRef, (color & 0xffffff) as i32));
    words.push(command_word(Command::ColorTestmask, mask as i32));
    assert(words@ =~= seq![spec_command_word(Command::ColorTest, (func.spec_to_u32() & 0x03) as i32), spec_command_word(Command::ColorRef, (color & 0xffffff) as i32), spec_command_word(Command::ColorTestmask, mask as i32)]);
    words
}

/// Mask colour (low 24 bits) and alpha (top 8 bits) writes.
pub fn sce_gu_pixel_mask(mask: u32) -> (words: Vec<u32>)
    ensures
        words@ == seq![spec_command_word(Command::MaskRgb, (mask & 0xffffff) as i32), spec_command_word(Command::MaskAlpha, (mask >> 24u32) as i32)],
{
    let mut words: Vec<u32> = Vec::new();
    words.push(command_word(Command::MaskRgb, (mask & 0xffffff) as i32));
    words.push(command_word(Command::MaskAlpha, (mask >> 24u32) as i32));
    assert(words@ =~= seq![spec_command_word(Command::MaskRgb, (mask & 0xffffff) as i32), spec_command_word(Command::MaskAlpha, (mask >> 24u32) as i32)]);
    words
}

/// Set the texture environment colour.
pub fn sce_gu_tex_env_color(color: u32) -> (words: Vec<u32>)
    ensures
        words@ == seq![spec_command_word(Command::TexEnvColor, (color & 0xffffff) as i32)],
{
    let mut words: Vec<u32> = Vec::new();
    words.push(command_word(Command::TexEnvColor, (color & 0xffffff) as i32));
    assert(words@ =~= seq![spec_command_word(Command::TexEnvColor, (color & 0xffffff) as i32)]);
    words
}

/// Set the texture filters for minification and magnification.
pub fn sce_gu_tex_filter(min: TextureFilter, mag: TextureFilter) -> (words: Vec<u32>)
    ensures
        words@ == seq![spec_command_word(Command::TexFilter, ((mag.spec_to_u32() << 8u32) | min.spec_to_u32()) as i32)],
{
    let mut words: Vec<u32> = Vec::new();
    words.push(command_word(Command::TexFilter, ((mag.to_u32() << 8u32) | min.to_u32()) as i32));
    assert(words@ =~= seq![spec_command_word(Command::TexFilter, ((mag.spec_to_u32() << 8u32) | min.spec_to_u32()) as i32)]);
    words
}

/// Set the texture wrap modes in u and v.
pub fn sce_gu_tex_wrap(u: WrapMode, v: WrapMode) -> (words: Vec<u32>)
    ensures
        words@ == seq![spec_command_word(Command::TexWrap, ((v.spec_to_u32() << 8u32) | u.spec_to_u32()) as i32)],
{
    let mut words: Vec<u32> = Vec::new();
    words.push(command_word(Command::TexWrap, ((v.to_u32() << 8u32) | u.to_u32()) as i32));
    assert(words@ =~= seq![spec_command_word(Command::TexWrap, ((v.spec_to_u32() << 8u32) | u.spec_to_u32()) as i32)]);
    words
}

/// Wait for texture transfers to finish.
pub fn sce_gu_tex_sync() -> (words: Vec<u32>)
    ensures
        words@ == seq![spec_command_word(Command::TexSync, 0)],
{
    let mut words: Vec<u32> = Vec::new();
    words.push(command_word(Command::TexSync, 0));
    assert(words@ =~= seq![spec_command_word(Command::TexSync, 0)]);
    words
}

/// Flush the texture page cache. The argument is the 24-bit float 0.0, all zero bits.
pub fn sce_gu_tex_flush() -> (words: Vec<u32>)
    ensures
        words@ == seq![spec_command_word(Command::TexFlush, 0)],
{
    let mut words: Vec<u32> = Vec::new();
    words.push(command_word(Command::TexFlush, 0));
    assert(words@ =~= seq![spec_command_word(Command::TexFlush, 0)]);
    words
}

/// Load `num_blocks` blocks of the colour lookup table at address `cbp`.
pub fn sce_gu_clut_load(num_blocks: i32, cbp: u32) -> (words: Vec<u32>)
    ensures
        words@ == seq![spec_command_word(Command::ClutAddr, (cbp & 0xffffff) as i32), spec_command_word(Command::ClutAddrUpper, ((cbp >> 8u32) & 0xf0000) as i32), spec_command_word(Command::LoadClut, num_blocks)],
{
    let mut words: Vec<u32> = Vec::new();
    words.push(command_word(Command::ClutAddr, (cbp & 0xffffff) as i32));
    words.push(command_word(Command::ClutAddrUpper, ((cbp >> 8u32) & 0xf0000) as i32));
    words.push(command_word(Command::LoadClut, num_blocks));
    assert(words@ =~= seq![spec_command_word(Command::ClutAddr, (cbp & 0xffffff) as i32), spec_command_word(Command::ClutAddrUpper, ((cbp >> 8u32) & 0xf0000) as i32), spec_command_word(Command::LoadClut, num_blocks)]);
    words
}

/// Set the colour lookup table format `cpsm`, index `shift` and `mask`, and start entry `a3`.
pub fn sce_gu_clut_mode(cpsm: ClutPixelFormat, shift: u32, mask: u32, a3: u32) -> (words: Vec<u32>)
    ensures
        words@ == seq![spec_command_word(Command::ClutFormat, (cpsm.spec_to_u32() | (shift << 2u32) | (mask << 8u32) | (a3 << 16u32)) as i32)],
{
    let mut words: Vec<u32> = Vec::new();
    words.push(command_word(Command::ClutFormat, (cpsm.to_u32() | (shift << 2u32) | (mask << 8u32) | (a3 << 16u32)) as i32));
    assert(words@ =~= seq![spec_command_word(Command::ClutFormat, (cpsm.spec_to_u32() | (shift << 2u32) | (mask << 8u32) | (a3 << 16u32)) as i32)]);
    words
}

/// Set the virtual coordinate offset, in 1/16 pixel.
pub fn sce_gu_offset(x: u32, y: u32) -> (words: Vec<u32>)
    ensures
        words@ == seq![spec_command_word(Command::OffsetX, (x << 4u32) as i32), spec_command_word(Command::OffsetY, (y << 4u32) as i32)],
{
    let mut words: Vec<u32> = Vec::new();
    words.push(command_word(Command::OffsetX, (x << 4u32) as i32));
    words.push(command_word(Command::OffsetY, (y << 4u32) as i32));
    assert(words@ =~= seq![spec_command_word(Command::OffsetX, (x << 4u32) as i32), spec_command_word(Command::OffsetY, (y << 4u32) as i32)]);
    words
}

/// Set the number of patch divisions in u and v.
pub fn sce_gu_patch_divide(ulevel: u32, vlevel: u32) -> (words: Vec<u32>)
    ensures
        words@ == seq![spec_command_word(Command::PatchDivision, ((vlevel << 8u32) | ulevel) as i32)],
{
    let mut words: Vec<u32> = Vec::new();
    words.push(command_word(Command::PatchDivision, ((vlevel << 8u32) | ulevel) as i32));
    assert(words@ =~= seq![spec_command_word(Command::PatchDivision, ((vlevel << 8u32) | ulevel) as i32)]);
    words
}

/// Set the front face of patches.
pub fn sce_gu_patch_front_face(a0: u32) -> (words: Vec<u32>)
    ensures
        words@ == seq![spec_command_word(Command::PatchFacing, a0 as i32)],
{
    let mut words: Vec<u32> = Vec::new();
    words.push(command_word(Command::PatchFacing, a0 as i32));
    assert(words@ =~= seq![spec_command_word(Command::PatchFacing, a0 as i32)]);
    words
}

/// The words of `sce_gu_material`: the colour for each component named in
/// `components` (ambient with its alpha, then diffuse, then specular).
pub open spec fn material_words(components: i32, color: u32) -> Seq<u32> {
    (if components & LIGHT_COMPONENT_AMBIENT != 0 {
        seq![
            spec_command_word(Command::MaterialAmbient, (color & 0xffffff) as i32),
            spec_command_word(Command::MaterialAlpha, (color >> 24u32) as i32),
        ]
    } else {
        Seq::empty()
    }) + (if components & LIGHT_COMPONENT_DIFFUSE != 0 {
        seq![spec_command_word(Command::MaterialDiffuse, (color & 0xffffff) as i32)]
    } else {
        Seq::empty()
    }) + (if components & LIGHT_COMPONENT_SPECULAR != 0 {
        seq![spec_command_word(Command::MaterialSpecular, (color & 0xffffff) as i32)]
    } else {
        Seq::empty()
    })
}

/// Set the material colour of the components named in `components` (any of
/// the `LIGHT_COMPONENT_*` bits).
pub fn sce_gu_material(components: i32, color: u32) -> (words: Vec<u32>)
    ensures
        words@ == material_words(components, color),
{
    let mut words: Vec<u32> = Vec::new();
    if components & LIGHT_COMPONENT_AMBIENT != 0 {
        words.push(command_word(Command::MaterialAmbient, (color & 0xffffff) as i32));
        words.push(command_word(Command::MaterialAlpha, (color >> 24u32) as i32));
    }
    let ghost w1 = words@;
    if components & LIGHT_COMPONENT_DIFFUSE != 0 {
        words.push(command_word(Command::MaterialDiffuse, (color & 0xffffff) as i32));
    }
    let ghost w2 = words@;
    if components & LIGHT_COMPONENT_SPECULAR != 0 {
        words.push(command_word(Command::MaterialSpecular, (color & 0xffffff) as i32));
    }
    assert(words@ =~= material_words(components, color));
    words
}

/// Set the ambient, diffuse and specular material colour.
pub fn sce_gu_color(color: u32) -> (words: Vec<u32>)
    ensures
        words@ == material_words(
            LIGHT_COMPONENT_AMBIENT | LIGHT_COMPONENT_DIFFUSE | LIGHT_COMPONENT_SPECULAR,
            color,
        ),
{
    sce_gu_material(LIGHT_COMPONENT_AMBIENT | LIGHT_COMPONENT_DIFFUSE | LIGHT_COMPONENT_SPECULAR, color)
}

/// Set the front face for culling: 0 for counter-clockwise, 1 for clockwise.
pub fn sce_gu_front_face(order: FrontFaceDirection) -> (words: Vec<u32>)
    ensures
        words@ == seq![
            spec_command_word(
                Command::Cull,
                if order == FrontFaceDirection::Clockwise { 1i32 } else { 0i32 },
            ),
        ],
{
    let mut words: Vec<u32> = Vec::new();
    match order {
        FrontFaceDirection::CounterClockwise => words.push(command_word(Command::Cull, 0)),
        FrontFaceDirection::Clockwise => words.push(command_word(Command::Cull, 1)),
    }
    words
}

/// Set how primitives are shaded: 1 for smooth, 0 for flat.
pub fn sce_gu_shade_model(mode: ShadingModel) -> (words: Vec<u32>)
    ensures
        words@ == seq![
            spec_command_word(Command::ShadeMode, if mode == ShadingModel::Smooth { 1i32 } else { 0i32 }),
        ],
{
    let mut words: Vec<u32> = Vec::new();
    match mode {
        ShadingModel::Smooth => words.push(command_word(Command::ShadeMode, 1)),
        ShadingModel::Flat => words.push(command_word(Command::ShadeMode, 0)),
    }
    words
}

/// The value of the patch-primitive command for `prim`: 2 for points, 1
/// for line strips, 0 for triangle strips.
pub open spec fn patch_prim_value(prim: PatchPrimitive) -> i32 {
    match prim {
        PatchPrimitive::Points => 2,
        PatchPrimitive::LineStrip => 1,
        PatchPrimitive::TriangleStrip => 0,
    }
}

/// Set the primitive that patches are drawn with.
pub fn sce_gu_patch_prim(prim: PatchPrimitive) -> (words: Vec<u32>)
    ensures
        words@ == seq![spec_command_word(Command::PatchPrimitive, patch_prim_value(prim))],
{
    let mut words: Vec<u32> = Vec::new();
    match prim {
        PatchPrimitive::Points => words.push(command_word(Command::PatchPrimitive, 2)),
        PatchPrimitive::LineStrip => words.push(command_word(Command::PatchPrimitive, 1)),
        PatchPrimitive::TriangleStrip => words.push(command_word(Command::PatchPrimitive, 0)),
    }
    words
}

/// The two words that set the drawing region to `width` x `height` pixels at
/// (`x`, `y`).
pub fn draw_region(x: i32, y: i32, width: i32, height: i32) -> (words: Vec<u32>)
    requires
        i32::MIN <= y + height - 1 && y + height <= i32::MAX,
        i32::MIN <= x + width - 1 && x + width <= i32::MAX,
    ensures
        words@ == seq![
            spec_command_word(Command::Region1, corner_arg(x, y)),
            spec_command_word(Command::Region2, corner_arg((x + width - 1) as i32, (y + height - 1) as i32)),
        ],
        0 <= x < 1024 && 0 <= y < 1024 ==> holds_point(words@[0], Command::Region1, x, y),
        0 <= x + width - 1 < 1024 && 0 <= y + height - 1 < 1024 ==> holds_point(
            words@[1],
            Command::Region2,
            (x + width - 1) as i32,
            (y + height - 1) as i32,
        ),
{
    proof {
        if 0 <= x < 1024 && 0 <= y < 1024 {
            lemma_point_word(Command::Region1, x, y);
        }
        if 0 <= x + width - 1 < 1024 && 0 <= y + height - 1 < 1024 {
            lemma_point_word(Command::Region2, (x + width - 1) as i32, (y + height - 1) as i32);
        }
    }
    let mut words: Vec<u32> = Vec::new();
    words.push(command_word(Command::Region1, corner_arg_exec(x, y)));
    words.push(command_word(Command::Region2, corner_arg_exec((x + width) - 1, (y + height) - 1)));
    assert(words@ =~= seq![
        spec_command_word(Command::Region1, corner_arg(x, y)),
        spec_command_word(Command::Region2, corner_arg((x + width - 1) as i32, (y + height - 1) as i32)),
    ]);
    words
}

/// Set the draw buffer directly, not storing its parameters: pixel format
/// `psm`, address `fbp`, width `fbw`.
pub fn sce_gu_draw_buffer_list(psm: DisplayPixelFormat, fbp: u32, fbw: i32) -> (words: Vec<u32>)
    ensures
        words@ == seq![
            spec_command_word(Command::FramebufPixFormat, psm.spec_to_u32() as i32),
            spec_command_word(Command::FrameBufPtr, (fbp & 0xffffff) as i32),
            spec_command_word(Command::FrameBufWidth, (((fbp & 0xff000000) >> 8u32) as i32) | fbw),
        ],
        0 <= fbw < 0x10000 ==> points_with_width(
            words@[1],
            words@[2],
            Command::FrameBufPtr,
            Command::FrameBufWidth,
            fbp,
            fbw,
        ),
{
    proof {
        if 0 <= fbw < 0x10000 {
            lemma_pointer_width_words(Command::FrameBufPtr, Command::FrameBufWidth, fbp, fbw);
        }
    }
    let mut words: Vec<u32> = Vec::new();
    words.push(command_word(Command::FramebufPixFormat, psm.to_u32() as i32));
    words.push(command_word(Command::FrameBufPtr, (fbp & 0xffffff) as i32));
    words.push(command_word(Command::FrameBufWidth, (((fbp & 0xff000000) >> 8u32) as i32) | fbw));
    assert(words@ =~= seq![
        spec_command_word(Command::FramebufPixFormat, psm.spec_to_u32() as i32),
        spec_command_word(Command::FrameBufPtr, (fbp & 0xffffff) as i32),
        spec_command_word(Command::FrameBufWidth, (((fbp & 0xff000000) >> 8u32) as i32) | fbw),
    ]);
    words
}

/// `n` is `o` with the current context replaced by `c`.
pub open spec fn with_current_context(n: GuState, o: GuState, c: GuContext) -> bool {
    &&& n.current_frame == o.current_frame
    &&& n.curr_context == o.curr_context
    &&& n.init == o.init
    &&& n.display_on == o.display_on
    &&& n.call_mode == o.call_mode
    &&& n.states == o.states
    &&& n.draw_buffer == o.draw_buffer
    &&& n.object_stack_depth == o.object_stack_depth
    &&& n.contexts[o.curr_context.spec_to_u32() as int] == c
    &&& forall|i: int|
        0 <= i < 3 && i != o.curr_context.spec_to_u32() ==> #[trigger] n.contexts[i] == o.contexts[i]
}

/// `n` is `o` with the draw buffer replaced by `d`.
pub open spec fn with_draw_buffer(n: GuState, o: GuState, d: GuDrawBuffer) -> bool {
    &&& n.current_frame == o.current_frame
    &&& n.curr_context == o.curr_context
    &&& n.init == o.init
    &&& n.display_on == o.display_on
    &&& n.call_mode == o.call_mode
    &&& n.states == o.states
    &&& n.draw_buffer == d
    &&& n.object_stack_depth == o.object_stack_depth
    &&& forall|i: int| 0 <= i < 3 ==> #[trigger] n.contexts[i] == o.contexts[i]
}

/// What finishing a display list asks of the caller: the words to append,
/// whether to move a direct list's stall address after them, and the size
/// in bytes of the finished list.
pub struct FinishStep {
    pub words: Vec<u32>,
    pub update_stall: bool,
    pub size: i32,
}

/// The words that end a list filled in context `context` with call mode
/// `call_mode`, the finish callback getting `id`, and whether the last of
/// them moves the stall address.
pub open spec fn finish_words(context: Context, call_mode: i32, id: i32) -> (Seq<u32>, bool) {
    match context {
        Context::Call => if call_mode == 1 {
            (
                seq![
                    spec_command_word(Command::Signal, 0x120000),
                    spec_command_word(Command::End, 0),
                    spec_command_word(Command::Nop, 0),
                ],
                true,
            )
        } else {
            (seq![spec_command_word(Command::Ret, 0)], false)
        },
        _ => (seq![spec_command_word(Command::Finish, id), spec_command_word(Command::End, 0)], true),
    }
}

/// What showing the display buffer asks of the caller.
pub struct DispStep {
    /// Words that set the drawing region to the whole buffer.
    pub words: Vec<u32>,
    /// Whether to show the display buffer now (the display is on).
    pub show: bool,
}

impl GuState {
    /// Set the current clear colour.
    pub fn sce_gu_clear_color(&mut self, color: u32)
        ensures
            with_current_context(*final(self), *old(self), GuContext { clear_color: color, ..old(self).current() }),
    {
        let idx = self.curr_context.to_u32() as usize;
        let mut c = self.contexts[idx];
        c.clear_color = color;
        self.contexts[idx] = c;
    }

    /// Set the current clear depth (0x0000-0xffff).
    pub fn sce_gu_clear_depth(&mut self, depth: u32)
        ensures
            with_current_context(*final(self), *old(self), GuContext { clear_depth: depth, ..old(self).current() }),
    {
        let idx = self.curr_context.to_u32() as usize;
        let mut c = self.contexts[idx];
        c.clear_depth = depth;
        self.contexts[idx] = c;
    }

    /// Set the current clear stencil value.
    pub fn sce_gu_clear_stencil(&mut self, stencil: u32)
        ensures
            with_current_context(*final(self), *old(self), GuContext { clear_stencil: stencil, ..old(self).current() }),
    {
        let idx = self.curr_context.to_u32() as usize;
        let mut c = self.contexts[idx];
        c.clear_stencil = stencil;
        self.contexts[idx] = c;
    }

    /// Set how textures are applied: effect `tfx`, component mode `tcc`; the
    /// doubled-fragment bit of the context is added to the command.
    pub fn sce_gu_tex_func(&mut self, tfx: TextureEffect, tcc: TextureColorComponent) -> (words: Vec<u32>)
        ensures
            with_current_context(
                *final(self),
                *old(self),
                GuContext {
                    texture_function: ((tcc.spec_to_u32() << 8u32) | tfx.spec_to_u32()) as i32,
                    ..old(self).current()
                },
            ),
            words@ == seq![
                spec_command_word(
                    Command::TexFunc,
                    ((tcc.spec_to_u32() << 8u32) | tfx.spec_to_u32() | (old(self).current().fragment_2x as u32)) as i32,
                ),
            ],
    {
        let idx = self.curr_context.to_u32() as usize;
        let mut c = self.contexts[idx];
        c.texture_function = ((tcc.to_u32() << 8u32) | tfx.to_u32()) as i32;
        let mut words: Vec<u32> = Vec::new();
        words.push(command_word(Command::TexFunc, ((tcc.to_u32() << 8u32) | tfx.to_u32() | (c.fragment_2x as u32)) as i32));
        self.contexts[idx] = c;
        words
    }

    /// Set the texture map mode and the light sources of shading.
    pub fn sce_gu_tex_map_mode(&mut self, mode: TextureMapMode, a1: u32, a2: u32) -> (words: Vec<u32>)
        ensures
            with_current_context(*final(self), *old(self), GuContext { texture_map_mode: mode, ..old(self).current() }),
            words@ == seq![
                spec_command_word(
                    Command::TexMapMode,
                    ((old(self).current().texture_proj_map_mode.spec_to_u32() << 8u32) | mode.spec_to_u32()) as i32,
                ),
                spec_command_word(Command::TexShadeLs, ((a2 << 8u32) | (a1 & 0x03)) as i32),
            ],
    {
        let idx = self.curr_context.to_u32() as usize;
        let mut c = self.contexts[idx];
        c.texture_map_mode = mode;
        let mut words: Vec<u32> = Vec::new();
        words.push(command_word(Command::TexMapMode, ((c.texture_proj_map_mode.to_u32() << 8u32) | mode.to_u32()) as i32));
        words.push(command_word(Command::TexShadeLs, ((a2 << 8u32) | (a1 & 0x03)) as i32));
        self.contexts[idx] = c;
        assert(words@ =~= seq![
            spec_command_word(
                Command::TexMapMode,
                ((old(self).current().texture_proj_map_mode.spec_to_u32() << 8u32) | mode.spec_to_u32()) as i32,
            ),
            spec_command_word(Command::TexShadeLs, ((a2 << 8u32) | (a1 & 0x03)) as i32),
        ]);
        words
    }

    /// Set the texture projection map mode.
    pub fn sce_gu_tex_proj_map_mode(&mut self, mode: TextureProjectionMapMode) -> (words: Vec<u32>)
        ensures
            with_current_context(*final(self), *old(self), GuContext { texture_proj_map_mode: mode, ..old(self).current() }),
            words@ == seq![
                spec_command_word(
                    Command::TexMapMode,
                    ((mode.spec_to_u32() << 8u32) | old(self).current().texture_map_mode.spec_to_u32()) as i32,
                ),
            ],
    {
        let idx = self.curr_context.to_u32() as usize;
        let mut c = self.contexts[idx];
        c.texture_proj_map_mode = mode;
        let mut words: Vec<u32> = Vec::new();
        words.push(command_word(Command::TexMapMode, ((mode.to_u32() << 8u32) | c.texture_map_mode.to_u32()) as i32));
        self.contexts[idx] = c;
        words
    }

    /// Set the texture format `tpsm`, the number of mipmap levels `maxmips`,
    /// and swizzling; then flush the texture cache.
    pub fn sce_gu_tex_mode(&mut self, tpsm: TexturePixelFormat, maxmips: i32, a2: i32, swizzle: i32) -> (words: Vec<u32>)
        ensures
            with_current_context(*final(self), *old(self), GuContext { texture_mode: tpsm, ..old(self).current() }),
            words@ == seq![
                spec_command_word(
                    Command::TexMode,
                    (((maxmips as u32) << 16u32) | ((a2 as u32) << 8u32) | (swizzle as u32)) as i32,
                ),
                spec_command_word(Command::TexFormat, tpsm.spec_to_u32() as i32),
                spec_command_word(Command::TexFlush, 0),
            ],
    {
        let idx = self.curr_context.to_u32() as usize;
        let mut c = self.contexts[idx];
        c.texture_mode = tpsm;
        self.contexts[idx] = c;
        let mut words: Vec<u32> = Vec::new();
        words.push(command_word(Command::TexMode, (((maxmips as u32) << 16u32) | ((a2 as u32) << 8u32) | (swizzle as u32)) as i32));
        words.push(command_word(Command::TexFormat, tpsm.to_u32() as i32));
        words.push(command_word(Command::TexFlush, 0));
        assert(words@ =~= seq![
            spec_command_word(
                Command::TexMode,
                (((maxmips as u32) << 16u32) | ((a2 as u32) << 8u32) | (swizzle as u32)) as i32,
            ),
            spec_command_word(Command::TexFormat, tpsm.spec_to_u32() as i32),
            spec_command_word(Command::TexFlush, 0),
        ]);
        words
    }

    /// Set the scissor rectangle to `w` x `h` pixels at (`x`, `y`); when the
    /// scissor test is on, the words that apply it.
    pub fn sce_gu_scissor(&mut self, x: i32, y: i32, w: i32, h: i32) -> (words: Vec<u32>)
        requires
            w > i32::MIN,
            h > i32::MIN,
        ensures
            with_current_context(*final(self), *old(self), GuContext {
                scissor_start: final(self).current().scissor_start,
                scissor_end: final(self).current().scissor_end,
                ..old(self).current()
            }),
            final(self).current().scissor_start@ == seq![x, y],
            final(self).current().scissor_end@ == seq![(w - 1) as i32, (h - 1) as i32],
            words@ == (if old(self).current().scissor_enable != 0 {
                seq![
                    spec_command_word(Command::Scissor1, corner_arg(x, y)),
                    spec_command_word(Command::Scissor2, corner_arg((w - 1) as i32, (h - 1) as i32)),
                ]
            } else {
                Seq::empty()
            }),
            old(self).current().scissor_enable != 0 && 0 <= x < 1024 && 0 <= y < 1024 ==> holds_point(
                words@[0],
                Command::Scissor1,
                x,
                y,
            ),
            old(self).current().scissor_enable != 0 && 1 <= w <= 1024 && 1 <= h <= 1024 ==> holds_point(
                words@[1],
                Command::Scissor2,
                (w - 1) as i32,
                (h - 1) as i32,
            ),
    {
        proof {
            if 0 <= x < 1024 && 0 <= y < 1024 {
                lemma_point_word(Command::Scissor1, x, y);
            }
            if 1 <= w <= 1024 && 1 <= h <= 1024 {
                lemma_point_word(Command::Scissor2, (w - 1) as i32, (h - 1) as i32);
            }
        }
        let idx = self.curr_context.to_u32() as usize;
        let mut c = self.contexts[idx];
        c.scissor_start = [x, y];
        c.scissor_end = [w - 1, h - 1];
        let mut words: Vec<u32> = Vec::new();
        if c.scissor_enable != 0 {
            words.push(command_word(Command::Scissor1, corner_arg_exec(c.scissor_start[0], c.scissor_start[1])));
            words.push(command_word(Command::Scissor2, corner_arg_exec(c.scissor_end[0], c.scissor_end[1])));
        }
        self.contexts[idx] = c;
        assert(c.scissor_start@ =~= seq![x, y]);
        assert(c.scissor_end@ =~= seq![(w - 1) as i32, (h - 1) as i32]);
        proof {
            if old(self).current().scissor_enable != 0 {
                assert(words@ =~= seq![
                    spec_command_word(Command::Scissor1, corner_arg(x, y)),
                    spec_command_word(Command::Scissor2, corner_arg((w - 1) as i32, (h - 1) as i32)),
                ]);
            } else {
                assert(words@ =~= Seq::<u32>::empty());
            }
        }
        words
    }

    /// Use signals (`1`) or calls (any other value) to run called lists.
    pub fn sce_gu_call_mode(&mut self, mode: i32)
        ensures
            *final(self) == (GuState { call_mode: mode, ..*old(self) }),
    {
        self.call_mode = mode;
    }

    /// Turn the display on or off, returning `state`. The caller shows the
    /// display buffer, or no buffer.
    pub fn sce_gu_display(&mut self, state: bool) -> (r: bool)
        ensures
            r == state,
            *final(self) == (GuState { display_on: state, ..*old(self) }),
    {
        self.display_on = state;
        state
    }

    /// Swap display and draw buffer, unless a swap callback of the caller has
    /// done so (`swapped_by_callback`), and count the frame; the new draw
    /// buffer's address.
    pub fn sce_gu_swap_buffers(&mut self, swapped_by_callback: bool) -> (draw: u32)
        ensures
            final(self).current_frame == old(self).current_frame ^ 1,
            final(self).draw_buffer == (if swapped_by_callback {
                old(self).draw_buffer
            } else {
                GuDrawBuffer {
                    disp_buffer: old(self).draw_buffer.frame_buffer,
                    frame_buffer: old(self).draw_buffer.disp_buffer,
                    ..old(self).draw_buffer
                }
            }),
            draw == final(self).draw_buffer.frame_buffer,
            *final(self) == (GuState {
                current_frame: final(self).current_frame,
                draw_buffer: final(self).draw_buffer,
                ..*old(self)
            }),
            swap_step(*old(self), *final(self), swapped_by_callback),
    {
        if !swapped_by_callback {
            let d = self.draw_buffer.disp_buffer;
            self.draw_buffer.disp_buffer = self.draw_buffer.frame_buffer;
            self.draw_buffer.frame_buffer = d;
        }
        self.current_frame = self.current_frame ^ 1;
        self.draw_buffer.frame_buffer
    }

    /// Set the depth buffer at address `zbp`, `zbw` pixels wide.
    pub fn sce_gu_depth_buffer(&mut self, zbp: u32, zbw: i32) -> (words: Vec<u32>)
        ensures
            with_draw_buffer(*final(self), *old(self), GuDrawBuffer { depth_buffer: zbp, depth_width: zbw, ..old(self).draw_buffer }),
            words@ == seq![
                spec_command_word(Command::ZBufPtr, (zbp & 0xffffff) as i32),
                spec_command_word(Command::ZBufWidth, (((zbp & 0xff000000) >> 8u32) | (zbw as u32)) as i32),
            ],
            0 <= zbw < 0x10000 ==> points_with_width(words@[0], words@[1], Command::ZBufPtr, Command::ZBufWidth, zbp, zbw),
    {
        proof {
            lemma_width_word_unsigned(Command::ZBufWidth, zbp, zbw);
            if 0 <= zbw < 0x10000 {
                lemma_pointer_width_words(Command::ZBufPtr, Command::ZBufWidth, zbp, zbw);
            }
        }
        self.draw_buffer.depth_buffer = zbp;
        if self.draw_buffer.depth_width == 0 || self.draw_buffer.depth_width != zbw {
            self.draw_buffer.depth_width = zbw;
        }
        let mut words: Vec<u32> = Vec::new();
        words.push(command_word(Command::ZBufPtr, (zbp & 0xffffff) as i32));
        words.push(command_word(Command::ZBufWidth, (((zbp & 0xff000000) >> 8u32) | (zbw as u32)) as i32));
        assert(words@ =~= seq![
            spec_command_word(Command::ZBufPtr, (zbp & 0xffffff) as i32),
            spec_command_word(Command::ZBufWidth, (((zbp & 0xff000000) >> 8u32) | (zbw as u32)) as i32),
        ]);
        words
    }

    /// Set the draw buffer: pixel format `psm`, address `fbp`, width `fbw`.
    /// Without a depth buffer yet, one is placed right after the draw buffer
    /// (4 bytes per pixel of `height` rows); without a depth width yet, it
    /// takes `fbw`.
    pub fn sce_gu_draw_buffer(&mut self, psm: DisplayPixelFormat, fbp: u32, fbw: i32) -> (words: Vec<u32>)
        requires
            old(self).draw_buffer.depth_buffer == 0 && old(self).draw_buffer.height != 0 ==> {
                &&& i32::MIN <= old(self).draw_buffer.height * fbw <= i32::MAX
                &&& fbp + (((old(self).draw_buffer.height * fbw) as i32 as u32) << 2u32) <= u32::MAX
            },
        ensures
            ({
                let o = old(self).draw_buffer;
                let depth = if o.depth_buffer == 0 && o.height != 0 {
                    (fbp + (((o.height * fbw) as i32 as u32) << 2u32)) as u32
                } else {
                    o.depth_buffer
                };
                let depth_width = if o.depth_width == 0 { fbw } else { o.depth_width };
                &&& with_draw_buffer(*final(self), *old(self), GuDrawBuffer {
                    pixel_size: psm,
                    frame_width: fbw,
                    frame_buffer: fbp,
                    depth_buffer: depth,
                    depth_width,
                    ..o
                })
                &&& words@ == seq![
                    spec_command_word(Command::FramebufPixFormat, psm.spec_to_u32() as i32),
                    spec_command_word(Command::FrameBufPtr, (fbp & 0xffffff) as i32),
                    spec_command_word(Command::FrameBufWidth, (((fbp & 0xff000000) >> 8u32) as i32) | fbw),
                    spec_command_word(Command::ZBufPtr, (depth & 0xffffff) as i32),
                    spec_command_word(Command::ZBufWidth, (((depth & 0xff000000) >> 8u32) as i32) | depth_width),
                ]
            }),
            word_command(words@[0]) == Command::FramebufPixFormat.spec_to_u32(),
            0 <= fbw < 0x10000 ==> points_with_width(
                words@[1],
                words@[2],
                Command::FrameBufPtr,
                Command::FrameBufWidth,
                fbp,
                fbw,
            ),
            0 <= final(self).draw_buffer.depth_width < 0x10000 ==> points_with_width(
                words@[3],
                words@[4],
                Command::ZBufPtr,
                Command::ZBufWidth,
                final(self).draw_buffer.depth_buffer,
                final(self).draw_buffer.depth_width,
            ),
    {
        self.draw_buffer.pixel_size = psm;
        self.draw_buffer.frame_width = fbw;
        self.draw_buffer.frame_buffer = fbp;
        if self.draw_buffer.depth_buffer == 0 && self.draw_buffer.height != 0 {
            let pixels = self.draw_buffer.height * fbw;
            self.draw_buffer.depth_buffer = fbp + ((pixels as u32) << 2u32);
        }
        if self.draw_buffer.depth_width == 0 {
            self.draw_buffer.depth_width = fbw;
        }
        let d = self.draw_buffer;
        let mut words: Vec<u32> = Vec::new();
        words.push(command_word(Command::FramebufPixFormat, psm.to_u32() as i32));
        words.push(command_word(Command::FrameBufPtr, (d.frame_buffer & 0xffffff) as i32));
        words.push(command_word(Command::FrameBufWidth, (((d.frame_buffer & 0xff000000) >> 8u32) as i32) | d.frame_width));
        words.push(command_word(Command::ZBufPtr, (d.depth_buffer & 0xffffff) as i32));
        words.push(command_word(Command::ZBufWidth, (((d.depth_buffer & 0xff000000) >> 8u32) as i32) | d.depth_width));
        proof {
            lemma_command_word_fields(Command::FramebufPixFormat, psm.spec_to_u32() as i32);
            if 0 <= fbw < 0x10000 {
                lemma_pointer_width_words(Command::FrameBufPtr, Command::FrameBufWidth, fbp, fbw);
            }
            if 0 <= d.depth_width < 0x10000 {
                lemma_pointer_width_words(Command::ZBufPtr, Command::ZBufWidth, d.depth_buffer, d.depth_width);
            }
        }
        words
    }

    /// Set the display buffer: `width` x `height` pixels at address `dispbp`,
    /// `dispbw` wide; the drawing region becomes the whole buffer.
    pub fn sce_gu_disp_buffer(&mut self, width: i32, height: i32, dispbp: u32, dispbw: i32) -> (step: DispStep)
        requires
            width > i32::MIN,
            height > i32::MIN,
        ensures
            with_draw_buffer(*final(self), *old(self), GuDrawBuffer {
                width,
                height,
                disp_buffer: dispbp,
                frame_width: dispbw,
                ..old(self).draw_buffer
            }),
            step.words@ == seq![
                spec_command_word(Command::Region1, corner_arg(0, 0)),
                spec_command_word(Command::Region2, corner_arg((width - 1) as i32, (height - 1) as i32)),
            ],
            step.show == old(self).display_on,
    {
        self.draw_buffer.width = width;
        self.draw_buffer.height = height;
        self.draw_buffer.disp_buffer = dispbp;
        if self.draw_buffer.frame_width == 0 || self.draw_buffer.frame_width != dispbw {
            self.draw_buffer.frame_width = dispbw;
        }
        let words = draw_region(0, 0, width, height);
        DispStep { words, show: self.display_on }
    }

    /// Finish the current display list, the finish callback getting `id`
    /// (16 bits), and go back to the parent context. `current` is the address
    /// where the list's next word goes; the size counts the words returned.
    pub fn sce_gu_finish_id(&mut self, id: u32, current: u32) -> (step: FinishStep)
        requires
            ({
                let n = finish_words(old(self).curr_context, old(self).call_mode, (id & 0xffff) as i32).0.len();
                &&& current + 4 * n <= u32::MAX
                &&& old(self).current().list.start <= current + 4 * n
            }),
        ensures
            ({
                let (w, stall) = finish_words(old(self).curr_context, old(self).call_mode, (id & 0xffff) as i32);
                &&& step.words@ == w
                &&& step.update_stall == (stall && old(self).curr_context == Context::Direct && old(self).object_stack_depth == 0)
                &&& step.size == (current + 4 * w.len() - old(self).current().list.start) as i32
            }),
            *final(self) == (GuState { curr_context: old(self).current().list.parent_context, ..*old(self) }),
            list_finish_step(*old(self), *final(self)),
    {
        let low = id & 0xffff;
        assert(low <= 0xffff) by (bit_vector)
            requires
                low == id & 0xffff,
        ;
        self.finish_with(low, current)
    }

    /// Finish the current display list and go back to the parent context; the
    /// finish callback gets zero.
    pub fn sce_gu_finish(&mut self, current: u32) -> (step: FinishStep)
        requires
            ({
                let n = finish_words(old(self).curr_context, old(self).call_mode, 0).0.len();
                &&& current + 4 * n <= u32::MAX
                &&& old(self).current().list.start <= current + 4 * n
            }),
        ensures
            ({
                let (w, stall) = finish_words(old(self).curr_context, old(self).call_mode, 0);
                &&& step.words@ == w
                &&& step.update_stall == (stall && old(self).curr_context == Context::Direct && old(self).object_stack_depth == 0)
                &&& step.size == (current + 4 * w.len() - old(self).current().list.start) as i32
            }),
            *final(self) == (GuState { curr_context: old(self).current().list.parent_context, ..*old(self) }),
            list_finish_step(*old(self), *final(self)),
    {
        self.finish_with(0, current)
    }

    fn finish_with(&mut self, id: u32, current: u32) -> (step: FinishStep)
        requires
            id <= 0xffff,
            ({
                let n = finish_words(old(self).curr_context, old(self).call_mode, id as i32).0.len();
                &&& current + 4 * n <= u32::MAX
                &&& old(self).current().list.start <= current + 4 * n
            }),
        ensures
            ({
                let (w, stall) = finish_words(old(self).curr_context, old(self).call_mode, id as i32);
                &&& step.words@ == w
                &&& step.update_stall == (stall && old(self).curr_context == Context::Direct && old(self).object_stack_depth == 0)
                &&& step.size == (current + 4 * w.len() - old(self).current().list.start) as i32
            }),
            *final(self) == (GuState { curr_context: old(self).current().list.parent_context, ..*old(self) }),
            list_finish_step(*old(self), *final(self)),
    {
        let mut words: Vec<u32> = Vec::new();
        let mut stall = true;
        match self.curr_context {
            Context::Call => {
                if self.call_mode == 1 {
                    words.push(command_word(Command::Signal, 0x120000));
                    words.push(command_word(Command::End, 0));
                    words.push(command_word(Command::Nop, 0));
                } else {
                    words.push(command_word(Command::Ret, 0));
                    stall = false;
                }
            },
            _ => {
                words.push(command_word(Command::Finish, id as i32));
                words.push(command_word(Command::End, 0));
            },
        }
        let ghost w = finish_words(old(self).curr_context, old(self).call_mode, id as i32).0;
        assert(words@ =~= w);
        let update_stall = stall && self.object_stack_depth == 0 && match self.curr_context {
            Context::Direct => true,
            _ => false,
        };
        let idx = self.curr_context.to_u32() as usize;
        let list = self.contexts[idx].list;
        let end = current + 4 * (words.len() as u32);
        let size = (end - list.start) as i32;
        self.curr_context = list.parent_context;
        FinishStep { words, update_stall, size }
    }

    /// Size in bytes of the current display list, whose next word goes at
    /// address `current`.
    pub fn sce_gu_check_list(&self, current: u32) -> (size: i32)
        requires
            self.current().list.start <= current,
        ensures
            size == (current - self.current().list.start) as i32,
    {
        let idx = self.curr_context.to_u32() as usize;
        (current - self.contexts[idx].list.start) as i32
    }
}

/// The words that open a conditionally drawn object: the vertex type (when
/// not zero), the index and vertex addresses (each with its base, when not
/// zero), then the bounding box of `count` vertices.
pub open spec fn begin_object_words(vtype: i32, count: i32, indices: u32, vertices: u32) -> Seq<u32> {
    (if vtype != 0 { seq![spec_command_word(Command::VertexType, vtype)] } else { Seq::empty() })
    + (if indices != 0 {
        seq![
            spec_command_word(Command::Base, ((indices >> 8u32) & 0xf0000) as i32),
            spec_command_word(Command::Iaddr, (indices & 0xffffff) as i32),
        ]
    } else { Seq::empty() })
    + (if vertices != 0 {
        seq![
            spec_command_word(Command::Base, ((vertices >> 8u32) & 0xf0000) as i32),
            spec_command_word(Command::Vaddr, (vertices & 0xffffff) as i32),
        ]
    } else { Seq::empty() })
    + seq![spec_command_word(Command::BoundingBox, count)]
}

/// The two words that jump, when the bounding box is outside the view, to
/// the list address `target`: its base, then the jump.
pub open spec fn object_jump_words(target: u32) -> Seq<u32> {
    seq![
        spec_command_word(Command::Base, ((target >> 8u32) & 0xf0000) as i32),
        spec_command_word(Command::BJump, (target & 0xffffff) as i32),
    ]
}

/// One `sce_gu_begin_object`: the stack of open jumps grows by `slot`.
pub open spec fn object_begin_step(before: Seq<u32>, after: Seq<u32>, slot: u32) -> bool {
    after == before.push(slot)
}

/// One `sce_gu_end_object`: the innermost open jump, at `address`, leaves
/// the stack.
pub open spec fn object_end_step(before: Seq<u32>, after: Seq<u32>, address: u32) -> bool {
    before.len() > 0 && address == before.last() && after == before.drop_last()
}

/// Objects nest: once the objects begun inside an object have all ended
/// (the stack is back to what `sce_gu_begin_object` left), the next
/// `sce_gu_end_object` patches the very jump that this begin left open,
/// and the stack is back to what it was before the begin.
pub proof fn lemma_objects_nest(
    s0: Seq<u32>,
    s1: Seq<u32>,
    slot: u32,
    s2: Seq<u32>,
    address: u32,
)
    requires
        object_begin_step(s0, s1, slot),
        object_end_step(s1, s2, address),
    ensures
        address == slot,
        s2 == s0,
{
    assert(s0.push(slot).drop_last() =~= s0);
}

/// Where `sce_gu_end_object` rewrites the list: the address of the jump
/// that `sce_gu_begin_object` left open, and the words that go there.
pub struct ObjectPatch {
    pub address: u32,
    pub words: Vec<u32>,
}

impl GuState {
    /// Begin conditional rendering of an object, on the list whose next word
    /// goes at address `current`: the words to append, the last two of them a
    /// jump left open until `sce_gu_end_object`. The open jump's address is
    /// pushed onto `stack`, which holds one address per open object.
    pub fn sce_gu_begin_object(
        &mut self,
        stack: &mut Vec<u32>,
        vtype: i32,
        count: i32,
        indices: u32,
        vertices: u32,
        current: u32,
    ) -> (words: Vec<u32>)
        requires
            old(stack)@.len() == old(self).object_stack_depth,
            old(self).object_stack_depth < i32::MAX,
            current + 4 * (begin_object_words(vtype, count, indices, vertices).len() + 2) <= u32::MAX,
        ensures
            words@ == begin_object_words(vtype, count, indices, vertices) + object_jump_words(0),
            final(stack)@ == old(stack)@.push(
                (current + 4 * begin_object_words(vtype, count, indices, vertices).len()) as u32,
            ),
            object_begin_step(
                old(stack)@,
                final(stack)@,
                (current + 4 * begin_object_words(vtype, count, indices, vertices).len()) as u32,
            ),
            *final(self) == (GuState { object_stack_depth: (old(self).object_stack_depth + 1) as i32, ..*old(self) }),
            final(stack)@.len() == final(self).object_stack_depth,
    {
        let mut words: Vec<u32> = Vec::new();
        if vtype != 0 {
            words.push(command_word(Command::VertexType, vtype));
        }
        let ghost w1 = words@;
        if indices != 0 {
            words.push(command_word(Command::Base, ((indices >> 8u32) & 0xf0000) as i32));
            words.push(command_word(Command::Iaddr, (indices & 0xffffff) as i32));
        }
        let ghost w2 = words@;
        if vertices != 0 {
            words.push(command_word(Command::Base, ((vertices >> 8u32) & 0xf0000) as i32));
            words.push(command_word(Command::Vaddr, (vertices & 0xffffff) as i32));
        }
        words.push(command_word(Command::BoundingBox, count));
        assert(words@ =~= begin_object_words(vtype, count, indices, vertices));
        let slot = current + 4 * (words.len() as u32);
        stack.push(slot);
        self.object_stack_depth = self.object_stack_depth + 1;
        words.push(command_word(Command::Base, 0));
        words.push(command_word(Command::BJump, 0));
        proof {
            assert(((0u32 >> 8u32) & 0xf0000) == 0 && (0u32 & 0xffffff) == 0) by (bit_vector);
        }
        assert(words@ =~= begin_object_words(vtype, count, indices, vertices) + object_jump_words(0));
        words
    }

    /// End conditional rendering of the innermost open object, whose list
    /// goes on at address `current`: its open jump is pointed at `current`,
    /// so that the object is skipped when its bounding box is not in view.
    pub fn sce_gu_end_object(&mut self, stack: &mut Vec<u32>, current: u32) -> (patch: ObjectPatch)
        requires
            old(stack)@.len() == old(self).object_stack_depth,
            old(self).object_stack_depth > 0,
        ensures
            patch.address == old(stack)@.last(),
            patch.words@ == object_jump_words(current),
            final(stack)@ == old(stack)@.drop_last(),
            object_end_step(old(stack)@, final(stack)@, patch.address),
            *final(self) == (GuState { object_stack_depth: (old(self).object_stack_depth - 1) as i32, ..*old(self) }),
            final(stack)@.len() == final(self).object_stack_depth,
    {
        let address = stack.pop().unwrap();
        self.object_stack_depth = self.object_stack_depth - 1;
        let mut words: Vec<u32> = Vec::new();
        words.push(command_word(Command::Base, ((current >> 8u32) & 0xf0000) as i32));
        words.push(command_word(Command::BJump, (current & 0xffffff) as i32));
        assert(words@ =~= object_jump_words(current));
        ObjectPatch { address, words }
    }
}

/// `near + far` as the unsigned sum of their bits.
pub open spec fn depth_sum(near: i32, far: i32) -> int {
    near as u32 + far as u32
}

/// The midpoint of a depth range as the graphics unit computes it: the sum
/// of `near` and `far`, rounded towards zero when taken as signed, halved.
pub open spec fn depth_center(near: i32, far: i32) -> i32 {
    let max = depth_sum(near, far) as u32;
    ((((max >> 31u32) + max) as u32) as i32) >> 1i32
}

/// Whether the depth sums of `near` and `far` stay within 32 bits.
pub open spec fn depth_range_fits(near: i32, far: i32) -> bool {
    &&& depth_sum(near, far) <= u32::MAX
    &&& ((depth_sum(near, far) as u32) >> 31u32) + depth_sum(near, far) <= u32::MAX
}

/// What setting a depth range gives: the range's midpoint, from which the
/// viewport's depth scale (`center - near`) and depth centre (`center +
/// offset`) follow, and the words that set the depth bounds.
pub struct DepthRangeStep {
    pub center: i32,
    pub near: i32,
    pub offset: i32,
    pub words: Vec<u32>,
}

impl GuState {
    /// Select the depth range of the current context: `near` and `far` (in
    /// either order, from 0 to 65535). The words set the smaller of the two
    /// as the lower depth bound and the larger as the upper one.
    pub fn sce_gu_depth_range(&mut self, near: i32, far: i32) -> (step: DepthRangeStep)
        requires
            depth_range_fits(near, far),
        ensures
            with_current_context(*final(self), *old(self), GuContext {
                near_plane: near,
                far_plane: far,
                ..old(self).current()
            }),
            step.center == depth_center(near, far),
            step.near == near,
            step.offset == old(self).current().depth_offset,
            step.words@ == seq![
                spec_command_word(Command::MinZ, if near > far { far } else { near }),
                spec_command_word(Command::MaxZ, if near > far { near } else { far }),
            ],
    {
        let max: u32 = near as u32 + far as u32;
        let center: i32 = (((max >> 31u32) + max) as i32) >> 1i32;
        let idx = self.curr_context.to_u32() as usize;
        let mut c = self.contexts[idx];
        c.near_plane = near;
        c.far_plane = far;
        self.contexts[idx] = c;
        let (lo, hi) = if near > far { (far, near) } else { (near, far) };
        let mut words: Vec<u32> = Vec::new();
        words.push(command_word(Command::MinZ, lo));
        words.push(command_word(Command::MaxZ, hi));
        assert(words@ =~= seq![
            spec_command_word(Command::MinZ, if near > far { far } else { near }),
            spec_command_word(Command::MaxZ, if near > far { near } else { far }),
        ]);
        DepthRangeStep { center, near, offset: c.depth_offset, words }
    }

    /// Set the depth offset of the current context, and with it select the
    /// context's depth range again.
    pub fn sce_gu_depth_offset(&mut self, offset: i32) -> (step: DepthRangeStep)
        requires
            depth_range_fits(old(self).current().near_plane, old(self).current().far_plane),
        ensures
            with_current_context(*final(self), *old(self), GuContext { depth_offset: offset, ..old(self).current() }),
            ({
                let near = old(self).current().near_plane;
                let far = old(self).current().far_plane;
                &&& step.center == depth_center(near, far)
                &&& step.near == near
                &&& step.offset == offset
                &&& step.words@ == seq![
                    spec_command_word(Command::MinZ, if near > far { far } else { near }),
                    spec_command_word(Command::MaxZ, if near > far { near } else { far }),
                ]
            }),
    {
        let idx = self.curr_context.to_u32() as usize;
        let mut c = self.contexts[idx];
        c.depth_offset = offset;
        self.contexts[idx] = c;
        self.sce_gu_depth_range(c.near_plane, c.far_plane)
    }
}

/// One `sce_gu_start`: the list of `context_type` becomes current, with
/// the context that was current as its parent.
pub open spec fn list_start_step(before: GuState, after: GuState, context_type: Context) -> bool {
    after.curr_context == context_type && after.current().list.parent_context == before.curr_context
}

/// One `sce_gu_finish` or `sce_gu_finish_id`: the parent of the current
/// list becomes current, and nothing else changes.
pub open spec fn list_finish_step(before: GuState, after: GuState) -> bool {
    after == (GuState { curr_context: before.current().list.parent_context, ..before })
}

/// Finishing a display list right after starting it makes the context that
/// was current before the start current again, and leaves the contexts as
/// the start left them.
pub proof fn lemma_finish_returns_to_parent(s0: GuState, s1: GuState, context_type: Context, s2: GuState)
    requires
        list_start_step(s0, s1, context_type),
        list_finish_step(s1, s2),
    ensures
        s2.curr_context == s0.curr_context,
        s2.contexts == s1.contexts,
{
}

/// The draw buffers with the draw and display buffers exchanged.
pub open spec fn swapped_draw_buffer(b: GuDrawBuffer) -> GuDrawBuffer {
    GuDrawBuffer { disp_buffer: b.frame_buffer, frame_buffer: b.disp_buffer, ..b }
}

/// One `sce_gu_swap_buffers`: the frame counter's low bit flips and, unless
/// a callback did the swap, the draw and display buffers are exchanged.
pub open spec fn swap_step(before: GuState, after: GuState, swapped_by_callback: bool) -> bool {
    after == (GuState {
        current_frame: before.current_frame ^ 1,
        draw_buffer: if swapped_by_callback {
            before.draw_buffer
        } else {
            swapped_draw_buffer(before.draw_buffer)
        },
        ..before
    })
}

/// Swapping the buffers twice, by the library both times, gives back the
/// state from before: the buffers and the frame counter are as they were.
pub proof fn lemma_swap_twice(s0: GuState, s1: GuState, s2: GuState)
    requires
        swap_step(s0, s1, false),
        swap_step(s1, s2, false),
    ensures
        s2 == s0,
{
    let f = s0.current_frame;
    assert((f ^ 1u32) ^ 1u32 == f) by (bit_vector);
    assert(s2.draw_buffer == s0.draw_buffer);
}

/// The state whose value is `i`, for `i` below 22.
pub open spec fn state_at(i: u32) -> State {
    match i {
        0 => State::AlphaTest,
        1 => State::DepthTest,
        2 => State::ScissorTest,
        3 => State::StencilTest,
        4 => State::Blend,
        5 => State::CullFace,
        6 => State::Dither,
        7 => State::Fog,
        8 => State::ClipPlanes,
        9 => State::Texture2D,
        10 => State::Lighting,
        11 => State::Light0,
        12 => State::Light1,
        13 => State::Light2,
        14 => State::Light3,
        15 => State::LineSmooth,
        16 => State::PatchCullFace,
        17 => State::ColorTest,
        18 => State::ColorLogicOp,
        19 => State::FaceNormalReverse,
        20 => State::PatchFace,
        _ => State::Fragment2X,
    }
}

/// Whether bit `i` of `status` is set.
pub open spec fn status_bit(status: i32, i: u32) -> bool {
    ((status as u32) >> i) & 1 != 0
}

/// The words that `sce_gu_set_all_status` emits for the states below `n`,
/// from state `s`: each one enabled or disabled as its bit of `status` says.
pub open spec fn all_status_words(s: GuState, status: i32, n: nat) -> Seq<u32>
    decreases n,
{
    if n == 0 {
        Seq::empty()
    } else {
        let i = (n - 1) as u32;
        all_status_words(s, status, (n - 1) as nat) + (if status_bit(status, i) {
            enable_words(s, state_at(i))
        } else {
            disable_words(s, state_at(i))
        })
    }
}

/// The mask of the 22 state bits.
pub const ALL_STATES_MASK: u32 = 0x3fffff;

/// The words after a signal, a call or a primitive move a list's stall
/// address only in the direct context outside conditional objects.
pub open spec fn spec_stalls(s: GuState) -> bool {
    s.curr_context == Context::Direct && s.object_stack_depth == 0
}

impl GuState {
    /// Whether writing a word that ends a drawing step moves the direct list's
    /// stall address: in the direct context, outside conditional objects.
    pub fn stalls(&self) -> (b: bool)
        ensures
            b == spec_stalls(*self),
    {
        match self.curr_context {
            Context::Direct => self.object_stack_depth == 0,
            _ => false,
        }
    }

    /// Call the display list at address `list`: by a signal in signal call
    /// mode, else by a call. The last word moves the stall address as
    /// `stalls` says.
    pub fn sce_gu_call_list(&self, list: u32) -> (words: Vec<u32>)
        ensures
            words@ == (if self.call_mode == 1 {
                seq![
                    spec_command_word(Command::Signal, ((list >> 16u32) | 0x110000) as i32),
                    spec_command_word(Command::End, (list & 0xffff) as i32),
                    spec_command_word(Command::Nop, 0),
                ]
            } else {
                seq![
                    spec_command_word(Command::Base, ((list >> 8u32) & 0xf0000) as i32),
                    spec_command_word(Command::Call, (list & 0xffffff) as i32),
                ]
            }),
            self.call_mode != 1 ==> addresses(words@[0], words@[1], Command::Call, list),
            self.call_mode == 1 ==> word_command(words@[0]) == Command::Signal.spec_to_u32() && word_argument(
                words@[0],
            ) >> 16u32 == 0x11 && word_command(words@[1]) == Command::End.spec_to_u32() && ((word_argument(
                words@[0],
            ) & 0xffff) << 16u32) | word_argument(words@[1]) == list,
    {
        let mut words: Vec<u32> = Vec::new();
        if self.call_mode == 1 {
            words.push(command_word(Command::Signal, ((list >> 16u32) | 0x110000) as i32));
            words.push(command_word(Command::End, (list & 0xffff) as i32));
            words.push(command_word(Command::Nop, 0));
        } else {
            words.push(command_word(Command::Base, ((list >> 8u32) & 0xf0000) as i32));
            words.push(command_word(Command::Call, (list & 0xffffff) as i32));
        }
        proof {
            lemma_address_words(Command::Call, list);
            let hi = (list >> 16u32) | 0x110000;
            let lo = list & 0xffff;
            assert(hi <= 0x11ffff && lo <= 0xffff && (hi & 0xffffff) >> 16u32 == 0x11 && (((hi & 0xffffff) & 0xffff)
                << 16u32) | (lo & 0xffffff) == list) by (bit_vector)
                requires
                    hi == (list >> 16u32) | 0x110000,
                    lo == list & 0xffff,
            ;
            assert((hi as i32) as u32 == hi);
            assert((lo as i32) as u32 == lo);
            lemma_command_word_fields(Command::Signal, hi as i32);
            lemma_command_word_fields(Command::End, lo as i32);
        }
        words
    }

    /// Set the status of all 22 states from the bits of `status`, emitting
    /// the words of enabling or disabling each, from state 0 up.
    pub fn sce_gu_set_all_status(&mut self, status: i32) -> (words: Vec<u32>)
        requires
            !status_bit(status, 2) ==> old(self).draw_buffer.width > i32::MIN && old(self).draw_buffer.height > i32::MIN,
        ensures
            final(self).states == (old(self).states & !ALL_STATES_MASK) | ((status as u32) & ALL_STATES_MASK),
            words@ == all_status_words(*old(self), status, 22),
            same_but_state_settings(*final(self), *old(self)),
            context_with(
                final(self).current(),
                old(self).current(),
                if status_bit(status, 2) { 1 } else { 0 },
                if status_bit(status, 21) { 0x10000 } else { 0 },
            ),
    {
        let mut words: Vec<u32> = Vec::new();
        let mut i: u32 = 0;
        let ghost o = *old(self);
        let ghost oc = old(self).current();
        proof {
            let os = self.states;
            assert((os & !(((1u32 << 0u32) - 1) as u32)) | ((status as u32) & (((1u32 << 0u32) - 1) as u32)) == os)
                by (bit_vector);
        }
        while i < 22
            invariant
                i <= 22,
                o == *old(self),
                oc == o.current(),
                !status_bit(status, 2) ==> o.draw_buffer.width > i32::MIN && o.draw_buffer.height > i32::MIN,
                words@ == all_status_words(o, status, i as nat),
                same_but_state_settings(*self, o),
                self.states == (o.states & !(((1u32 << i) - 1) as u32)) | ((status as u32) & (((1u32 << i) - 1) as u32)),
                context_with(
                    self.current(),
                    oc,
                    if i > 2 { if status_bit(status, 2) { 1 } else { 0 } } else { oc.scissor_enable },
                    if i > 21 { if status_bit(status, 21) { 0x10000 } else { 0 } } else { oc.fragment_2x },
                ),
            decreases 22 - i,
        {
            let st = match State::from_u32(i) {
                Some(s) => s,
                None => State::Fragment2X,
            };
            proof {
                assert(state_at(i).spec_to_u32() == i);
                lemma_state_value_injective(st, state_at(i));
            }
            let ghost before = *self;
            let bit = ((status as u32) >> i) & 1 != 0;
            let w = if bit {
                self.sce_gu_enable(st)
            } else {
                self.sce_gu_disable(st)
            };
            assert(enable_words(before, st) == enable_words(o, st));
            assert(disable_words(before, st) == disable_words(o, st));
            let ghost prev = words@;
            let mut k: usize = 0;
            while k < w.len()
                invariant
                    k <= w@.len(),
                    words@ == prev + w@.take(k as int),
                decreases w@.len() - k,
            {
                words.push(w[k]);
                assert(w@.take(k + 1) =~= w@.take(k as int).push(w@[k as int]));
                k += 1;
            }
            assert(w@.take(w@.len() as int) =~= w@);
            let ghost si = before.states;
            let ghost ii = i;
            proof {
                let os = o.states;
                let sv = status as u32;
                if bit {
                    assert(ii < 22u32 && si == (os & !(((1u32 << ii) - 1) as u32)) | (sv & (((1u32 << ii) - 1) as u32))
                        && (sv >> ii) & 1 != 0 ==> (si | (1u32 << ii)) == (os & !(((1u32 << (ii + 1) as u32) - 1) as u32)) | (sv & (((1u32 << (ii + 1) as u32) - 1) as u32)))
                        by (bit_vector);
                } else {
                    assert(ii < 22u32 && si == (os & !(((1u32 << ii) - 1) as u32)) | (sv & (((1u32 << ii) - 1) as u32))
                        && (sv >> ii) & 1 == 0 ==> (si & !(1u32 << ii)) == (os & !(((1u32 << (ii + 1) as u32) - 1) as u32)) | (sv & (((1u32 << (ii + 1) as u32) - 1) as u32)))
                        by (bit_vector);
                }
            }
            i += 1;
        }
        assert(((1u32 << 22u32) - 1) as u32 == ALL_STATES_MASK) by (bit_vector);
        words
    }
}

/// The words of `sce_gu_signal`: the signal with its behaviour, an end, for
/// signal 3 a finish and an end, then a no-op after which the stall address
/// moves as `stalls` says.
pub open spec fn signal_words(behavior: SignalBehavior, signal: i32) -> Seq<u32> {
    seq![
        spec_command_word(
            Command::Signal,
            ((((signal as u32) & 0xff) << 16u32) | (behavior.spec_to_u32() & 0xffff)) as i32,
        ),
        spec_command_word(Command::End, 0),
    ] + (if signal == 3 {
        seq![spec_command_word(Command::Finish, 0), spec_command_word(Command::End, 0)]
    } else {
        Seq::empty()
    }) + seq![spec_command_word(Command::Nop, 0)]
}

/// Trigger signal `signal` (8 bits) from the command stream.
pub fn sce_gu_signal(behavior: SignalBehavior, signal: i32) -> (words: Vec<u32>)
    ensures
        words@ == signal_words(behavior, signal),
{
    let mut words: Vec<u32> = Vec::new();
    words.push(
        command_word(
            Command::Signal,
            ((((signal as u32) & 0xff) << 16u32) | (behavior.to_u32() & 0xffff)) as i32,
        ),
    );
    words.push(command_word(Command::End, 0));
    if signal == 3 {
        words.push(command_word(Command::Finish, 0));
        words.push(command_word(Command::End, 0));
    }
    words.push(command_word(Command::Nop, 0));
    assert(words@ =~= signal_words(behavior, signal));
    words
}

/// Set the light mode: one colour, or the specular colour kept apart.
pub fn sce_gu_light_mode(mode: LightMode) -> (words: Vec<u32>)
    ensures
        words@ == seq![spec_command_word(Command::LightMode, mode.spec_to_u32() as i32)],
{
    let mut words: Vec<u32> = Vec::new();
    words.push(command_word(Command::LightMode, mode.to_u32() as i32));
    assert(words@ =~= seq![spec_command_word(Command::LightMode, mode.spec_to_u32() as i32)]);
    words
}

/// A mipmap level offset kept to the range -128 to 128.
pub open spec fn clamp_level_offset(offset: i32) -> i32 {
    if offset >= 128 {
        128i32
    } else if offset < -128 {
        -128i32
    } else {
        offset
    }
}

/// The word that sets the texture level mode, with the level offset
/// `offset` (sixteenths of a level, the bias scaled by 16 and truncated)
/// kept to -128 to 128.
pub fn tex_level_word(mode: TextureLevelMode, offset: i32) -> (word: u32)
    ensures
        word == spec_command_word(
            Command::TexLevel,
            (((clamp_level_offset(offset) as u32) << 16u32) | mode.spec_to_u32()) as i32,
        ),
{
    let clamped: i32 = if offset >= 128 {
        128
    } else if offset < -128 {
        -128
    } else {
        offset
    };
    command_word(Command::TexLevel, (((clamped as u32) << 16u32) | mode.to_u32()) as i32)
}

/// The command that sets morph weight `index` (0 to 7).
pub open spec fn spec_morph_weight_command(index: i32) -> Command {
    if index == 0 {
        Command::MorphWeight0
    } else if index == 1 {
        Command::MorphWeight1
    } else if index == 2 {
        Command::MorphWeight2
    } else if index == 3 {
        Command::MorphWeight3
    } else if index == 4 {
        Command::MorphWeight4
    } else if index == 5 {
        Command::MorphWeight5
    } else if index == 6 {
        Command::MorphWeight6
    } else {
        Command::MorphWeight7
    }
}

/// The command that sets morph weight `index` (0 to 7); its float argument
/// is the weight.
pub fn morph_weight_command(index: i32) -> (cmd: Command)
    requires
        0 <= index < 8,
    ensures
        cmd == spec_morph_weight_command(index),
{
    if index == 0 {
        Command::MorphWeight0
    } else if index == 1 {
        Command::MorphWeight1
    } else if index == 2 {
        Command::MorphWeight2
    } else if index == 3 {
        Command::MorphWeight3
    } else if index == 4 {
        Command::MorphWeight4
    } else if index == 5 {
        Command::MorphWeight5
    } else if index == 6 {
        Command::MorphWeight6
    } else {
        Command::MorphWeight7
    }
}

/// How a matrix is uploaded: the command that selects the first element,
/// the command that takes each element in turn (a float argument), and the
/// positions in the row-major 4x4 matrix of the elements sent, in order.
pub struct MatrixUpload {
    pub number: Command,
    pub data: Command,
    pub elements: Vec<usize>,
}

/// The positions of the elements of a 4x3 matrix within a 4x4 one: the
/// first three of each row of four.
pub open spec fn matrix_4x3_element(k: int) -> usize {
    ((k % 3) + (k / 3) * 4) as usize
}

fn matrix_4x3_elements() -> (e: Vec<usize>)
    ensures
        e@.len() == 12,
        forall|k: int| 0 <= k < 12 ==> #[trigger] e@[k] == matrix_4x3_element(k),
{
    let mut e: Vec<usize> = Vec::new();
    let mut i: usize = 0;
    while i < 4
        invariant
            i <= 4,
            e@.len() == 3 * i,
            forall|k: int| 0 <= k < 3 * i ==> #[trigger] e@[k] == matrix_4x3_element(k),
        decreases 4 - i,
    {
        let mut j: usize = 0;
        while j < 3
            invariant
                i < 4,
                j <= 3,
                e@.len() == 3 * i + j,
                forall|k: int| 0 <= k < 3 * i + j ==> #[trigger] e@[k] == matrix_4x3_element(k),
            decreases 3 - j,
        {
            e.push(j + i * 4);
            assert(matrix_4x3_element(3 * i + j) == j + i * 4);
            j += 1;
        }
        i += 1;
    }
    e
}

/// How a matrix of kind `mode` is uploaded: a projection matrix whole, in
/// its sixteen elements; the others as 4x3 matrices, the first three
/// elements of each row. The first element is selected with argument 0.
pub fn sce_gu_set_matrix(mode: MatrixMode) -> (u: MatrixUpload)
    ensures
        (u.number, u.data) == (match mode {
            MatrixMode::Projection => (Command::ProjMatrixNumber, Command::ProjMatrixData),
            MatrixMode::View => (Command::ViewMatrixNumber, Command::ViewMatrixData),
            MatrixMode::Model => (Command::WorldMatrixNumber, Command::WorldMatrixData),
            MatrixMode::Texture => (Command::TGenMatrixNumber, Command::TGenMatrixData),
        }),
        mode == MatrixMode::Projection ==> u.elements@ == Seq::new(16, |k: int| k as usize),
        mode != MatrixMode::Projection ==> u.elements@ == Seq::new(12, |k: int| matrix_4x3_element(k)),
{
    match mode {
        MatrixMode::Projection => {
            let mut e: Vec<usize> = Vec::new();
            let mut i: usize = 0;
            while i < 16
                invariant
                    i <= 16,
                    e@ == Seq::new(i as nat, |k: int| k as usize),
                decreases 16 - i,
            {
                e.push(i);
                i += 1;
                assert(e@ =~= Seq::new(i as nat, |k: int| k as usize));
            }
            MatrixUpload { number: Command::ProjMatrixNumber, data: Command::ProjMatrixData, elements: e }
        },
        _ => {
            let e = matrix_4x3_elements();
            assert(e@ =~= Seq::new(12, |k: int| matrix_4x3_element(k)));
            let (number, data) = match mode {
                MatrixMode::View => (Command::ViewMatrixNumber, Command::ViewMatrixData),
                MatrixMode::Model => (Command::WorldMatrixNumber, Command::WorldMatrixData),
                _ => (Command::TGenMatrixNumber, Command::TGenMatrixData),
            };
            MatrixUpload { number, data, elements: e }
        },
    }
}

/// How bone matrix `index` is uploaded: its 4x3 elements, starting at
/// element `index * 12` of the bone matrices.
pub fn sce_gu_bone_matrix(index: u32) -> (u: (u32, MatrixUpload))
    requires
        ((index << 1u32) as u32) + index <= u32::MAX,
    ensures
        u.0 == spec_command_word(
            Command::BoneMatrixNumber,
            ((((((index << 1u32) as u32) + index) as u32) << 2u32) as u32) as i32,
        ),
        u.1.number == Command::BoneMatrixNumber,
        u.1.data == Command::BoneMatrixData,
        u.1.elements@ == Seq::new(12, |k: int| matrix_4x3_element(k)),
{
    let offset: u32 = ((index << 1u32) + index) << 2u32;
    let e = matrix_4x3_elements();
    assert(e@ =~= Seq::new(12, |k: int| matrix_4x3_element(k)));
    (
        command_word(Command::BoneMatrixNumber, offset as i32),
        MatrixUpload { number: Command::BoneMatrixNumber, data: Command::BoneMatrixData, elements: e },
    )
}

/// The commands that set up one of the four lights.
#[derive(Clone, Copy, Debug, PartialEq, Eq, Structural)]
pub struct GuLightSettings {
    pub type_: Command,
    pub xpos: Command,
    pub ypos: Command,
    pub zpos: Command,
    pub xdir: Command,
    pub ydir: Command,
    pub zdir: Command,
    pub ambient: Command,
    pub diffuse: Command,
    pub specular: Command,
    pub constant: Command,
    pub linear: Command,
    pub quadratic: Command,
    pub exponent: Command,
    pub cutoff: Command,
}

/// The commands of light `light` (0 to 3).
pub open spec fn spec_light_commands(light: i32) -> GuLightSettings {
    if light == 0 {
        GuLightSettings {
            type_: Command::LightType0,
            xpos: Command::Light0X,
            ypos: Command::Light0Y,
            zpos: Command::Light0Z,
            xdir: Command::Light0DirectionX,
            ydir: Command::Light0DirectionY,
            zdir: Command::Light0DirectionZ,
            ambient: Command::Light0Ambient,
            diffuse: Command::Light0Diffuse,
            specular: Command::Light0Specular,
            constant: Command::Light0ConstantAtten,
            linear: Command::Light0LinearAtten,
            quadratic: Command::Light0QuadtraticAtten,
            exponent: Command::Light0ExponentAtten,
            cutoff: Command::Light0CutoffAtten,
        }
    } else if light == 1 {
        GuLightSettings {
            type_: Command::LightType1,
            xpos: Command::Light1X,
            ypos: Command::Light1Y,
            zpos: Command::Light1Z,
            xdir: Command::Light1DirectionX,
            ydir: Command::Light1DirectionY,
            zdir: Command::Light1DirectionZ,
            ambient: Command::Light1Ambient,
            diffuse: Command::Light1Diffuse,
            specular: Command::Light1Specular,
            constant: Command::Light1ConstantAtten,
            linear: Command::Light1LinearAtten,
            quadratic: Command::Light1QuadtraticAtten,
            exponent: Command::Light1ExponentAtten,
            cutoff: Command::Light1CutoffAtten,
        }
    } else if light == 2 {
        GuLightSettings {
            type_: Command::LightType2,
            xpos: Command::Light2X,
            ypos: Command::Light2Y,
            zpos: Command::Light2Z,
            xdir: Command::Light2DirectionX,
            ydir: Command::Light2DirectionY,
            zdir: Command::Light2DirectionZ,
            ambient: Command::Light2Ambient,
            diffuse: Command::Light2Diffuse,
            specular: Command::Light2Specular,
            constant: Command::Light2ConstantAtten,
            linear: Command::Light2LinearAtten,
            quadratic: Command::Light2QuadtraticAtten,
            exponent: Command::Light2ExponentAtten,
            cutoff: Command::Light2CutoffAtten,
        }
    } else {
        GuLightSettings {
            type_: Command::LightType3,
            xpos: Command::Light3X,
            ypos: Command::Light3Y,
            zpos: Command::Light3Z,
            xdir: Command::Light3DirectionX,
            ydir: Command::Light3DirectionY,
            zdir: Command::Light3DirectionZ,
            ambient: Command::Light3Ambient,
            diffuse: Command::Light3Diffuse,
            specular: Command::Light3Specular,
            constant: Command::Light3ConstantAtten,
            linear: Command::Light3LinearAtten,
            quadratic: Command::Light3QuadtraticAtten,
            exponent: Command::Light3ExponentAtten,
            cutoff: Command::Light3CutoffAtten,
        }
    }
}

/// The commands of light `light` (0 to 3).
pub fn light_commands(light: i32) -> (s: GuLightSettings)
    requires
        0 <= light < 4,
    ensures
        s == spec_light_commands(light),
{
    if light == 0 {
        GuLightSettings {
            type_: Command::LightType0,
            xpos: Command::Light0X,
            ypos: Command::Light0Y,
            zpos: Command::Light0Z,
            xdir: Command::Light0DirectionX,
            ydir: Command::Light0DirectionY,
            zdir: Command::Light0DirectionZ,
            ambient: Command::Light0Ambient,
            diffuse: Command::Light0Diffuse,
            specular: Command::Light0Specular,
            constant: Command::Light0ConstantAtten,
            linear: Command::Light0LinearAtten,
            quadratic: Command::Light0QuadtraticAtten,
            exponent: Command::Light0ExponentAtten,
            cutoff: Command::Light0CutoffAtten,
        }
    } else if light == 1 {
        GuLightSettings {
            type_: Command::LightType1,
            xpos: Command::Light1X,
            ypos: Command::Light1Y,
            zpos: Command::Light1Z,
            xdir: Command::Light1DirectionX,
            ydir: Command::Light1DirectionY,
            zdir: Command::Light1DirectionZ,
            ambient: Command::Light1Ambient,
            diffuse: Command::Light1Diffuse,
            specular: Command::Light1Specular,
            constant: Command::Light1ConstantAtten,
            linear: Command::Light1LinearAtten,
            quadratic: Command::Light1QuadtraticAtten,
            exponent: Command::Light1ExponentAtten,
            cutoff: Command::Light1CutoffAtten,
        }
    } else if light == 2 {
        GuLightSettings {
            type_: Command::LightType2,
            xpos: Command::Light2X,
            ypos: Command::Light2Y,
            zpos: Command::Light2Z,
            xdir: Command::Light2DirectionX,
            ydir: Command::Light2DirectionY,
            zdir: Command::Light2DirectionZ,
            ambient: Command::Light2Ambient,
            diffuse: Command::Light2Diffuse,
            specular: Command::Light2Specular,
            constant: Command::Light2ConstantAtten,
            linear: Command::Light2LinearAtten,
            quadratic: Command::Light2QuadtraticAtten,
            exponent: Command::Light2ExponentAtten,
            cutoff: Command::Light2CutoffAtten,
        }
    } else {
        GuLightSettings {
            type_: Command::LightType3,
            xpos: Command::Light3X,
            ypos: Command::Light3Y,
            zpos: Command::Light3Z,
            xdir: Command::Light3DirectionX,
            ydir: Command::Light3DirectionY,
            zdir: Command::Light3DirectionZ,
            ambient: Command::Light3Ambient,
            diffuse: Command::Light3Diffuse,
            specular: Command::Light3Specular,
            constant: Command::Light3ConstantAtten,
            linear: Command::Light3LinearAtten,
            quadratic: Command::Light3QuadtraticAtten,
            exponent: Command::Light3ExponentAtten,
            cutoff: Command::Light3CutoffAtten,
        }
    }
}

/// The kind of light that `components` (`LIGHT_COMPONENT_*` bits, or 8
/// alone) ask for: 2 for the bit 8 alone, 1 where `components ^ 6` is not
/// positive (diffuse and specular together), 0 otherwise.
pub open spec fn light_kind(components: i32) -> i32 {
    if components == 8 {
        2
    } else if components ^ 6i32 < 1 {
        1
    } else {
        0
    }
}

/// The word that sets the type of light `light` (0 to 3) and the kind its
/// `components` ask for; the light's position goes in float commands.
pub fn light_type_word(light: i32, light_type: LightType, components: i32) -> (word: u32)
    requires
        0 <= light < 4,
    ensures
        word == spec_command_word(
            spec_light_commands(light).type_,
            (((light_type.spec_to_u32() & 3) << 8u32) as i32) | light_kind(components),
        ),
{
    let settings = light_commands(light);
    let kind: i32 = if components == 8 {
        2
    } else if components ^ 6i32 < 1 {
        1
    } else {
        0
    };
    command_word(settings.type_, (((light_type.to_u32() & 3) << 8u32) as i32) | kind)
}

/// The words that set the colours named by `components` of light `light`.
pub open spec fn light_color_words(light: i32, components: i32, color: u32) -> Seq<u32> {
    let l = spec_light_commands(light);
    let (ambient, diffuse, specular) = (l.ambient, l.diffuse, l.specular);
    let arg = (color & 0xffffff) as i32;
    (if components & LIGHT_COMPONENT_AMBIENT != 0 { seq![spec_command_word(ambient, arg)] } else { Seq::empty() })
    + (if components & LIGHT_COMPONENT_DIFFUSE != 0 { seq![spec_command_word(diffuse, arg)] } else { Seq::empty() })
    + (if components & LIGHT_COMPONENT_SPECULAR != 0 { seq![spec_command_word(specular, arg)] } else { Seq::empty() })
}

/// Set the colour of light `light` (0 to 3) for each of the `components`
/// (any of the `LIGHT_COMPONENT_*` bits).
pub fn sce_gu_light_color(light: i32, components: i32, color: u32) -> (words: Vec<u32>)
    requires
        0 <= light < 4,
    ensures
        words@ == light_color_words(light, components, color),
{
    let l = light_commands(light);
    let (ambient, diffuse, specular) = (l.ambient, l.diffuse, l.specular);
    let arg = (color & 0xffffff) as i32;
    let mut words: Vec<u32> = Vec::new();
    if components & LIGHT_COMPONENT_AMBIENT != 0 {
        words.push(command_word(ambient, arg));
    }
    let ghost w1 = words@;
    if components & LIGHT_COMPONENT_DIFFUSE != 0 {
        words.push(command_word(diffuse, arg));
    }
    let ghost w2 = words@;
    if components & LIGHT_COMPONENT_SPECULAR != 0 {
        words.push(command_word(specular, arg));
    }
    assert(words@ =~= light_color_words(light, components, color));
    words
}

/// The words that select vertex type `vtype` (when not empty) and the index
/// and vertex addresses (each with its base, when not zero).
pub open spec fn vertex_source_words(vtype: VertexType, indices: u32, vertices: u32) -> Seq<u32> {
    (if vtype.spec_bits() != 0 { seq![spec_command_word(Command::VertexType, vtype.spec_bits())] } else { Seq::empty() })
    + (if indices != 0 {
        seq![
            spec_command_word(Command::Base, ((indices >> 8u32) & 0xf0000) as i32),
            spec_command_word(Command::Iaddr, (indices & 0xffffff) as i32),
        ]
    } else { Seq::empty() })
    + (if vertices != 0 {
        seq![
            spec_command_word(Command::Base, ((vertices >> 8u32) & 0xf0000) as i32),
            spec_command_word(Command::Vaddr, (vertices & 0xffffff) as i32),
        ]
    } else { Seq::empty() })
}

fn vertex_source(vtype: VertexType, indices: u32, vertices: u32) -> (words: Vec<u32>)
    ensures
        words@ == vertex_source_words(vtype, indices, vertices),
{
    let mut words: Vec<u32> = Vec::new();
    if !vtype.is_empty() {
        words.push(command_word(Command::VertexType, vtype.bits()));
    }
    let ghost w1 = words@;
    if indices != 0 {
        words.push(command_word(Command::Base, ((indices >> 8u32) & 0xf0000) as i32));
        words.push(command_word(Command::Iaddr, (indices & 0xffffff) as i32));
    }
    let ghost w2 = words@;
    if vertices != 0 {
        words.push(command_word(Command::Base, ((vertices >> 8u32) & 0xf0000) as i32));
        words.push(command_word(Command::Vaddr, (vertices & 0xffffff) as i32));
    }
    assert(words@ =~= vertex_source_words(vtype, indices, vertices));
    words
}

/// Draw a bezier surface of `u_count` by `v_count` control points of type
/// `vtype` at address `vertices` (0 for none), indexed by the list at
/// `indices` (0 for none).
pub fn sce_gu_draw_bezier(vtype: VertexType, u_count: i32, v_count: i32, indices: u32, vertices: u32) -> (words: Vec<u32>)
    ensures
        words@ == vertex_source_words(vtype, indices, vertices)
            + seq![spec_command_word(Command::Bezier, (((v_count as u32) << 8u32) | (u_count as u32)) as i32)],
{
    let mut words = vertex_source(vtype, indices, vertices);
    words.push(command_word(Command::Bezier, (((v_count as u32) << 8u32) | (u_count as u32)) as i32));
    words
}

/// Draw a spline surface of `u_count` by `v_count` control points of type
/// `vtype`, with edge flags `u_edge` and `v_edge`.
pub fn sce_gu_draw_spline(
    vtype: VertexType,
    u_count: i32,
    v_count: i32,
    u_edge: i32,
    v_edge: i32,
    indices: u32,
    vertices: u32,
) -> (words: Vec<u32>)
    ensures
        words@ == vertex_source_words(vtype, indices, vertices) + seq![
            spec_command_word(
                Command::Spline,
                (((v_edge as u32) << 18u32) | ((u_edge as u32) << 16u32) | ((v_count as u32) << 8u32)
                    | (u_count as u32)) as i32,
            ),
        ],
{
    let mut words = vertex_source(vtype, indices, vertices);
    words.push(
        command_word(
            Command::Spline,
            (((v_edge as u32) << 18u32) | ((u_edge as u32) << 16u32) | ((v_count as u32) << 8u32)
                | (u_count as u32)) as i32,
        ),
    );
    words
}

/// Draw `times` batches of `count` vertices each as primitives `prim`,
/// from the vertex and index sources given as in `sce_gu_draw_array`; no
/// primitive word when `times` is not positive. The last word is the one
/// after which a direct list's stall address moves.
pub fn sce_gu_draw_array_n(
    prim: Primitive,
    vtype: VertexType,
    count: i32,
    times: i32,
    indices: u32,
    vertices: u32,
) -> (words: Vec<u32>)
    ensures
        words@ == vertex_source_words(vtype, indices, vertices) + Seq::new(
            if times > 0 { times as nat } else { 0 },
            |i: int| spec_command_word(Command::Prim, ((prim.spec_to_u32() << 16u32) | (count as u32)) as i32),
        ),
{
    let mut words = vertex_source(vtype, indices, vertices);
    let ghost src = words@;
    let prim_word = command_word(Command::Prim, ((prim.to_u32() << 16u32) | (count as u32)) as i32);
    let mut i: i32 = 0;
    while i < times
        invariant
            0 <= i,
            times > 0 ==> i <= times,
            times <= 0 ==> i == 0,
            words@ == src + Seq::new(i as nat, |k: int| prim_word),
            prim_word == spec_command_word(Command::Prim, ((prim.spec_to_u32() << 16u32) | (count as u32)) as i32),
        decreases times - i,
    {
        words.push(prim_word);
        i += 1;
        assert(words@ =~= src + Seq::new(i as nat, |k: int| prim_word));
    }
    assert(words@ =~= src + Seq::new(
        if times > 0 { times as nat } else { 0 },
        |k: int| spec_command_word(Command::Prim, ((prim.spec_to_u32() << 16u32) | (count as u32)) as i32),
    ));
    words
}

/// Image transfer: copy a `width` by `height` block of pixels of format
/// `psm` from position (`sx`, `sy`) of the image at `src`, `srcw` pixels
/// wide, to position (`dx`, `dy`) of the image at `dest`, `destw` wide.
pub fn sce_gu_copy_image(
    psm: DisplayPixelFormat,
    sx: i32,
    sy: i32,
    width: i32,
    height: i32,
    srcw: i32,
    src: u32,
    dx: i32,
    dy: i32,
    destw: i32,
    dest: u32,
) -> (words: Vec<u32>)
    requires
        width > i32::MIN,
        height > i32::MIN,
    ensures
        words@ == seq![
            spec_command_word(Command::TransferSrc, (src & 0xffffff) as i32),
            spec_command_word(Command::TransferSrcW, (((src & 0xff000000) >> 8u32) | (srcw as u32)) as i32),
            spec_command_word(Command::TransferSrcPos, (((sy as u32) << 10u32) | (sx as u32)) as i32),
            spec_command_word(Command::TransferDst, (dest & 0xffffff) as i32),
            spec_command_word(Command::TransferDstW, (((dest & 0xff000000) >> 8u32) | (destw as u32)) as i32),
            spec_command_word(Command::TransferDstPos, (((dy as u32) << 10u32) | (dx as u32)) as i32),
            spec_command_word(
                Command::TransferSize,
                ((((height - 1) as u32) << 10u32) | ((width - 1) as u32)) as i32,
            ),
            spec_command_word(Command::TransferStart, if psm == DisplayPixelFormat::_8888 { 1i32 } else { 0i32 }),
        ],
        0 <= srcw < 0x10000 ==> points_with_width(
            words@[0],
            words@[1],
            Command::TransferSrc,
            Command::TransferSrcW,
            src,
            srcw,
        ),
        0 <= destw < 0x10000 ==> points_with_width(
            words@[3],
            words@[4],
            Command::TransferDst,
            Command::TransferDstW,
            dest,
            destw,
        ),
        0 <= sx < 1024 && 0 <= sy < 1024 ==> holds_point(words@[2], Command::TransferSrcPos, sx, sy),
        0 <= dx < 1024 && 0 <= dy < 1024 ==> holds_point(words@[5], Command::TransferDstPos, dx, dy),
        1 <= width <= 1024 && 1 <= height <= 1024 ==> holds_point(
            words@[6],
            Command::TransferSize,
            (width - 1) as i32,
            (height - 1) as i32,
        ),
{
    proof {
        lemma_width_word_unsigned(Command::TransferSrcW, src, srcw);
        lemma_width_word_unsigned(Command::TransferDstW, dest, destw);
        if 0 <= srcw < 0x10000 {
            lemma_pointer_width_words(Command::TransferSrc, Command::TransferSrcW, src, srcw);
        }
        if 0 <= destw < 0x10000 {
            lemma_pointer_width_words(Command::TransferDst, Command::TransferDstW, dest, destw);
        }
        if 0 <= sx < 1024 && 0 <= sy < 1024 {
            lemma_point_word(Command::TransferSrcPos, sx, sy);
        }
        if 0 <= dx < 1024 && 0 <= dy < 1024 {
            lemma_point_word(Command::TransferDstPos, dx, dy);
        }
        if 1 <= width <= 1024 && 1 <= height <= 1024 {
            lemma_point_word(Command::TransferSize, (width - 1) as i32, (height - 1) as i32);
        }
    }
    let mut words: Vec<u32> = Vec::new();
    words.push(command_word(Command::TransferSrc, (src & 0xffffff) as i32));
    words.push(command_word(Command::TransferSrcW, (((src & 0xff000000) >> 8u32) | (srcw as u32)) as i32));
    words.push(command_word(Command::TransferSrcPos, (((sy as u32) << 10u32) | (sx as u32)) as i32));
    words.push(command_word(Command::TransferDst, (dest & 0xffffff) as i32));
    words.push(command_word(Command::TransferDstW, (((dest & 0xff000000) >> 8u32) | (destw as u32)) as i32));
    words.push(command_word(Command::TransferDstPos, (((dy as u32) << 10u32) | (dx as u32)) as i32));
    words.push(
        command_word(Command::TransferSize, ((((height - 1) as u32) << 10u32) | ((width - 1) as u32)) as i32),
    );
    let texel32: i32 = match psm {
        DisplayPixelFormat::_8888 => 1,
        _ => 0,
    };
    words.push(command_word(Command::TransferStart, texel32));
    words
}

} // verus!
