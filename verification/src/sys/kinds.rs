//! The closed sets of values that device operations accept.
//!
//! Each value stands for one numeric code of the device interface.
//! Both realizations hand a value to their device as the code given
//! here, so the mapping from values to codes is one and the same for
//! both.

use vstd::prelude::*;

use crate::sys::codes;
use crate::text::hex;
use crate::text::hex_text;

verus! {

/// The type of a scalar in a buffer handed to the device.
#[non_exhaustive]
#[derive(Clone, Copy, Debug, PartialEq, Eq, Structural)]
pub enum Type {
    Float,
    Short,
    UnsignedByte,
    UnsignedShort,
}

impl Type {
    /// The code both device interfaces use for the value.
    pub open spec fn code(self) -> u32 {
        match self {
            Type::Float => codes::FLOAT,
            Type::Short => codes::SHORT,
            Type::UnsignedByte => codes::UNSIGNED_BYTE,
            Type::UnsignedShort => codes::UNSIGNED_SHORT,
        }
    }

    /// The code both device interfaces use for the value.
    #[verifier::when_used_as_spec(code)]
    pub fn to_code(self) -> (code: u32)
        ensures
            code == self.code(),
    {
        match self {
            Type::Float => codes::FLOAT,
            Type::Short => codes::SHORT,
            Type::UnsignedByte => codes::UNSIGNED_BYTE,
            Type::UnsignedShort => codes::UNSIGNED_SHORT,
        }
    }
}

/// A comparison function.
#[non_exhaustive]
#[derive(Clone, Copy, Debug, PartialEq, Eq, Structural)]
pub enum Func {
    LessOrEqual,
    Greater,
}

impl Func {
    /// The code both device interfaces use for the value.
    pub open spec fn code(self) -> u32 {
        match self {
            Func::LessOrEqual => codes::LEQUAL,
            Func::Greater => codes::GREATER,
        }
    }

    /// The code both device interfaces use for the value.
    #[verifier::when_used_as_spec(code)]
    pub fn to_code(self) -> (code: u32)
        ensures
            code == self.code(),
    {
        match self {
            Func::LessOrEqual => codes::LEQUAL,
            Func::Greater => codes::GREATER,
        }
    }
}

/// A blend factor.
#[non_exhaustive]
#[derive(Clone, Copy, Debug, PartialEq, Eq, Structural)]
pub enum Factor {
    SrcAlpha,
    OneMinusSrcAlpha,
}

impl Factor {
    /// The code both device interfaces use for the value.
    pub open spec fn code(self) -> u32 {
        match self {
            Factor::SrcAlpha => codes::SRC_ALPHA,
            Factor::OneMinusSrcAlpha => codes::ONE_MINUS_SRC_ALPHA,
        }
    }

    /// The code both device interfaces use for the value.
    #[verifier::when_used_as_spec(code)]
    pub fn to_code(self) -> (code: u32)
        ensures
            code == self.code(),
    {
        match self {
            Factor::SrcAlpha => codes::SRC_ALPHA,
            Factor::OneMinusSrcAlpha => codes::ONE_MINUS_SRC_ALPHA,
        }
    }
}

/// The winding order that marks a polygon as front facing.
#[non_exhaustive]
#[derive(Clone, Copy, Debug, PartialEq, Eq, Structural)]
pub enum FrontFace {
    ClockWise,
}

impl FrontFace {
    /// The code both device interfaces use for the value.
    pub open spec fn code(self) -> u32 {
        match self {
            FrontFace::ClockWise => codes::CW,
        }
    }

    /// The code both device interfaces use for the value.
    #[verifier::when_used_as_spec(code)]
    pub fn to_code(self) -> (code: u32)
        ensures
            code == self.code(),
    {
        match self {
            FrontFace::ClockWise => codes::CW,
        }
    }
}

/// The polygon faces to cull.
#[non_exhaustive]
#[derive(Clone, Copy, Debug, PartialEq, Eq, Structural)]
pub enum CullFace {
    Back,
}

impl CullFace {
    /// The code both device interfaces use for the value.
    pub open spec fn code(self) -> u32 {
        match self {
            CullFace::Back => codes::BACK,
        }
    }

    /// The code both device interfaces use for the value.
    #[verifier::when_used_as_spec(code)]
    pub fn to_code(self) -> (code: u32)
        ensures
            code == self.code(),
    {
        match self {
            CullFace::Back => codes::BACK,
        }
    }
}

/// A primitive topology.
#[non_exhaustive]
#[derive(Clone, Copy, Debug, PartialEq, Eq, Structural)]
pub enum Primitive {
    Lines,
    Triangles,
    TriangleFan,
    TriangleStrip,
}

impl Primitive {
    /// The code both device interfaces use for the value.
    pub open spec fn code(self) -> u32 {
        match self {
            Primitive::Lines => codes::LINES,
            Primitive::Triangles => codes::TRIANGLES,
            Primitive::TriangleFan => codes::TRIANGLE_FAN,
            Primitive::TriangleStrip => codes::TRIANGLE_STRIP,
        }
    }

    /// The code both device interfaces use for the value.
    #[verifier::when_used_as_spec(code)]
    pub fn to_code(self) -> (code: u32)
        ensures
            code == self.code(),
    {
        match self {
            Primitive::Lines => codes::LINES,
            Primitive::Triangles => codes::TRIANGLES,
            Primitive::TriangleFan => codes::TRIANGLE_FAN,
            Primitive::TriangleStrip => codes::TRIANGLE_STRIP,
        }
    }
}

/// The pipeline stage a shader is written for.
#[non_exhaustive]
#[derive(Clone, Copy, Debug, PartialEq, Eq, Structural)]
pub enum ShaderType {
    Fragment,
    Vertex,
}

impl ShaderType {
    /// The code both device interfaces use for the value.
    pub open spec fn code(self) -> u32 {
        match self {
            ShaderType::Fragment => codes::FRAGMENT_SHADER,
            ShaderType::Vertex => codes::VERTEX_SHADER,
        }
    }

    /// The code both device interfaces use for the value.
    #[verifier::when_used_as_spec(code)]
    pub fn to_code(self) -> (code: u32)
        ensures
            code == self.code(),
    {
        match self {
            ShaderType::Fragment => codes::FRAGMENT_SHADER,
            ShaderType::Vertex => codes::VERTEX_SHADER,
        }
    }

    /// The name of the stage, as used in diagnostics.
    pub open spec fn name(self) -> Seq<char> {
        match self {
            ShaderType::Fragment => "fragment"@,
            ShaderType::Vertex => "vertex"@,
        }
    }

    /// The name of the stage, as used in diagnostics.
    pub fn as_str(&self) -> (name: &'static str)
        ensures
            name@ == self.name(),
    {
        match self {
            ShaderType::Fragment => "fragment",
            ShaderType::Vertex => "vertex",
        }
    }
}

/// The binding point of a vertex buffer.
#[non_exhaustive]
#[derive(Clone, Copy, Debug, PartialEq, Eq, Structural)]
pub enum VertexBufferTarget {
    Array,
    ElementArray,
}

impl VertexBufferTarget {
    /// The code both device interfaces use for the value.
    pub open spec fn code(self) -> u32 {
        match self {
            VertexBufferTarget::Array => codes::ARRAY_BUFFER,
            VertexBufferTarget::ElementArray => codes::ELEMENT_ARRAY_BUFFER,
        }
    }

    /// The code both device interfaces use for the value.
    #[verifier::when_used_as_spec(code)]
    pub fn to_code(self) -> (code: u32)
        ensures
            code == self.code(),
    {
        match self {
            VertexBufferTarget::Array => codes::ARRAY_BUFFER,
            VertexBufferTarget::ElementArray => codes::ELEMENT_ARRAY_BUFFER,
        }
    }
}

/// The expected usage pattern of a vertex buffer.
#[non_exhaustive]
#[derive(Clone, Copy, Debug, PartialEq, Eq, Structural)]
pub enum VertexBufferUsage {
    DynamicDraw,
    StaticDraw,
    StreamDraw,
}

impl VertexBufferUsage {
    /// The code both device interfaces use for the value.
    pub open spec fn code(self) -> u32 {
        match self {
            VertexBufferUsage::DynamicDraw => codes::DYNAMIC_DRAW,
            VertexBufferUsage::StaticDraw => codes::STATIC_DRAW,
            VertexBufferUsage::StreamDraw => codes::STREAM_DRAW,
        }
    }

    /// The code both device interfaces use for the value.
    #[verifier::when_used_as_spec(code)]
    pub fn to_code(self) -> (code: u32)
        ensures
            code == self.code(),
    {
        match self {
            VertexBufferUsage::DynamicDraw => codes::DYNAMIC_DRAW,
            VertexBufferUsage::StaticDraw => codes::STATIC_DRAW,
            VertexBufferUsage::StreamDraw => codes::STREAM_DRAW,
        }
    }
}

/// The binding point of a texture.
#[non_exhaustive]
#[derive(Clone, Copy, Debug, PartialEq, Eq, Structural)]
pub enum TextureTarget {
    Texture2D,
    Texture2DArray,
}

impl TextureTarget {
    /// The code both device interfaces use for the value.
    pub open spec fn code(self) -> u32 {
        match self {
            TextureTarget::Texture2D => codes::TEXTURE_2D,
            TextureTarget::Texture2DArray => codes::TEXTURE_2D_ARRAY,
        }
    }

    /// The code both device interfaces use for the value.
    #[verifier::when_used_as_spec(code)]
    pub fn to_code(self) -> (code: u32)
        ensures
            code == self.code(),
    {
        match self {
            TextureTarget::Texture2D => codes::TEXTURE_2D,
            TextureTarget::Texture2DArray => codes::TEXTURE_2D_ARRAY,
        }
    }
}

/// The format in which the device stores a texture.
#[non_exhaustive]
#[derive(Clone, Copy, Debug, PartialEq, Eq, Structural)]
pub enum TextureInternalFormat {
    Gray8,
    Depth,
    RGB8,
    SRGB8,
    RGBA8,
    SRGBA8,
}

impl TextureInternalFormat {
    /// The code both device interfaces use for the value.
    pub open spec fn code(self) -> u32 {
        match self {
            TextureInternalFormat::Gray8 => codes::R8,
            TextureInternalFormat::Depth => codes::DEPTH_COMPONENT32F,
            TextureInternalFormat::RGB8 => codes::RGB8,
            TextureInternalFormat::SRGB8 => codes::SRGB8,
            TextureInternalFormat::RGBA8 => codes::RGBA8,
            TextureInternalFormat::SRGBA8 => codes::SRGB8_ALPHA8,
        }
    }

    /// The code both device interfaces use for the value.
    #[verifier::when_used_as_spec(code)]
    pub fn to_code(self) -> (code: u32)
        ensures
            code == self.code(),
    {
        match self {
            TextureInternalFormat::Gray8 => codes::R8,
            TextureInternalFormat::Depth => codes::DEPTH_COMPONENT32F,
            TextureInternalFormat::RGB8 => codes::RGB8,
            TextureInternalFormat::SRGB8 => codes::SRGB8,
            TextureInternalFormat::RGBA8 => codes::RGBA8,
            TextureInternalFormat::SRGBA8 => codes::SRGB8_ALPHA8,
        }
    }
}

/// The format of the pixels handed to the device.
#[non_exhaustive]
#[derive(Clone, Copy, Debug, PartialEq, Eq, Structural)]
pub enum TexturePixelFormat {
    Gray,
    Depth,
    RGB,
    RGBA,
}

impl TexturePixelFormat {
    /// The code both device interfaces use for the value.
    pub open spec fn code(self) -> u32 {
        match self {
            TexturePixelFormat::Gray => codes::RED,
            TexturePixelFormat::Depth => codes::DEPTH_COMPONENT,
            TexturePixelFormat::RGB => codes::RGB,
            TexturePixelFormat::RGBA => codes::RGBA,
        }
    }

    /// The code both device interfaces use for the value.
    #[verifier::when_used_as_spec(code)]
    pub fn to_code(self) -> (code: u32)
        ensures
            code == self.code(),
    {
        match self {
            TexturePixelFormat::Gray => codes::RED,
            TexturePixelFormat::Depth => codes::DEPTH_COMPONENT,
            TexturePixelFormat::RGB => codes::RGB,
            TexturePixelFormat::RGBA => codes::RGBA,
        }
    }
}

/// The way a depth texture is compared on lookup.
#[non_exhaustive]
#[derive(Clone, Copy, Debug, PartialEq, Eq, Structural)]
pub enum TextureCompareMode {
    RefToTexture,
}

impl TextureCompareMode {
    /// The code both device interfaces use for the value.
    pub open spec fn code(self) -> u32 {
        match self {
            TextureCompareMode::RefToTexture => codes::COMPARE_REF_TO_TEXTURE,
        }
    }

    /// The code both device interfaces use for the value.
    #[verifier::when_used_as_spec(code)]
    pub fn to_code(self) -> (code: u32)
        ensures
            code == self.code(),
    {
        match self {
            TextureCompareMode::RefToTexture => codes::COMPARE_REF_TO_TEXTURE,
        }
    }
}

/// The treatment of texture coordinates outside the unit square.
#[non_exhaustive]
#[derive(Clone, Copy, Debug, PartialEq, Eq, Structural)]
pub enum TextureWrap {
    ClampToEdge,
    Repeat,
}

impl TextureWrap {
    /// The code both device interfaces use for the value.
    pub open spec fn code(self) -> u32 {
        match self {
            TextureWrap::ClampToEdge => codes::CLAMP_TO_EDGE,
            TextureWrap::Repeat => codes::REPEAT,
        }
    }

    /// The code both device interfaces use for the value.
    #[verifier::when_used_as_spec(code)]
    pub fn to_code(self) -> (code: u32)
        ensures
            code == self.code(),
    {
        match self {
            TextureWrap::ClampToEdge => codes::CLAMP_TO_EDGE,
            TextureWrap::Repeat => codes::REPEAT,
        }
    }
}

/// The situation a texture filter applies to.
#[non_exhaustive]
#[derive(Clone, Copy, Debug, PartialEq, Eq, Structural)]
pub enum TextureFilterType {
    Minimize,
    Magnify,
}

impl TextureFilterType {
    /// The code both device interfaces use for the value.
    pub open spec fn code(self) -> u32 {
        match self {
            TextureFilterType::Minimize => codes::TEXTURE_MIN_FILTER,
            TextureFilterType::Magnify => codes::TEXTURE_MAG_FILTER,
        }
    }

    /// The code both device interfaces use for the value.
    #[verifier::when_used_as_spec(code)]
    pub fn to_code(self) -> (code: u32)
        ensures
            code == self.code(),
    {
        match self {
            TextureFilterType::Minimize => codes::TEXTURE_MIN_FILTER,
            TextureFilterType::Magnify => codes::TEXTURE_MAG_FILTER,
        }
    }
}

/// A texture filter.
#[non_exhaustive]
#[derive(Clone, Copy, Debug, PartialEq, Eq, Structural)]
pub enum TextureFilter {
    Linear,
    LinearMipmapLinear,
}

impl TextureFilter {
    /// The code both device interfaces use for the value.
    pub open spec fn code(self) -> u32 {
        match self {
            TextureFilter::Linear => codes::LINEAR,
            TextureFilter::LinearMipmapLinear => codes::LINEAR_MIPMAP_LINEAR,
        }
    }

    /// The code both device interfaces use for the value.
    #[verifier::when_used_as_spec(code)]
    pub fn to_code(self) -> (code: u32)
        ensures
            code == self.code(),
    {
        match self {
            TextureFilter::Linear => codes::LINEAR,
            TextureFilter::LinearMipmapLinear => codes::LINEAR_MIPMAP_LINEAR,
        }
    }
}

/// A set of buffers to clear.
#[derive(Clone, Copy, Debug, PartialEq, Eq, Structural)]
pub struct ClearMask(u32);

impl ClearMask {
    /// The bits of the mask, one per buffer.
    pub closed spec fn bits(self) -> u32 {
        self.0
    }

    /// The bits of the mask, one per buffer.
    #[verifier::when_used_as_spec(bits)]
    pub fn to_bits(self) -> (bits: u32)
        ensures
            bits == self.bits(),
    {
        self.0
    }

    /// The mask that selects the color buffer.
    pub fn color_buffer() -> (mask: Self)
        ensures
            mask.bits() == codes::COLOR_BUFFER_BIT,
    {
        ClearMask(codes::COLOR_BUFFER_BIT)
    }

    /// The mask that selects the depth buffer.
    pub fn depth_buffer() -> (mask: Self)
        ensures
            mask.bits() == codes::DEPTH_BUFFER_BIT,
    {
        ClearMask(codes::DEPTH_BUFFER_BIT)
    }

    /// The mask that selects every buffer that `self` or `other`
    /// selects.
    pub closed spec fn joined(self, other: Self) -> Self {
        ClearMask(self.0 | other.0)
    }

    /// The joined mask has the bits of both masks.
    pub proof fn lemma_joined_bits(self, other: Self)
        ensures
            self.joined(other).bits() == self.bits() | other.bits(),
    {
    }

    /// The mask that selects every buffer that `self` or `other`
    /// selects.
    #[verifier::when_used_as_spec(joined)]
    pub fn union(self, other: Self) -> (mask: Self)
        ensures
            mask == self.joined(other),
            mask.bits() == self.bits() | other.bits(),
    {
        ClearMask(self.0 | other.0)
    }

    /// Add every buffer that `other` selects to the mask.
    pub fn insert(&mut self, other: Self)
        ensures
            final(self).bits() == old(self).bits() | other.bits(),
    {
        self.0 = self.0 | other.0;
    }
}

impl core::ops::BitOr for ClearMask {
    type Output = Self;

    /// The mask that selects every buffer that either mask selects.
    fn bitor(self, other: Self) -> (mask: Self) {
        self.union(other)
    }
}

impl vstd::std_specs::ops::BitOrSpecImpl for ClearMask {
    open spec fn obeys_bitor_spec() -> bool {
        true
    }

    open spec fn bitor_req(self, other: Self) -> bool {
        true
    }

    open spec fn bitor_spec(self, other: Self) -> Self {
        self.joined(other)
    }
}

/// The device's verdict on whether the attachments of a framebuffer
/// form a usable render target.
#[derive(Clone, Copy, Debug, PartialEq, Eq, Structural)]
pub struct FramebufferStatus(u32);

impl FramebufferStatus {
    /// The raw status code.
    pub closed spec fn code(self) -> u32 {
        self.0
    }

    /// The raw status code.
    #[verifier::when_used_as_spec(code)]
    pub fn to_code(self) -> (code: u32)
        ensures
            code == self.code(),
    {
        self.0
    }

    /// The status with the given raw code.
    pub closed spec fn of(code: u32) -> Self {
        FramebufferStatus(code)
    }

    /// A status is determined by its raw code.
    pub proof fn lemma_of_code(self)
        ensures
            self == Self::of(self.code()),
    {
    }

    /// The status with a given raw code has that code.
    pub proof fn lemma_code_of(code: u32)
        ensures
            Self::of(code).code() == code,
    {
    }

    /// The status with the given raw code.
    #[verifier::when_used_as_spec(of)]
    pub fn from_code(code: u32) -> (status: Self)
        ensures
            status == Self::of(code),
            status.code() == code,
    {
        FramebufferStatus(code)
    }

    /// The status of a framebuffer that can be rendered to.
    pub fn complete() -> (status: Self)
        ensures
            status == Self::of(codes::FRAMEBUFFER_COMPLETE),
            status.is_complete(),
    {
        FramebufferStatus(codes::FRAMEBUFFER_COMPLETE)
    }

    /// Whether the status is that of a usable render target.
    pub open spec fn is_complete(self) -> bool {
        self.code() == codes::FRAMEBUFFER_COMPLETE
    }

    /// Whether the status is that of a usable render target.
    #[verifier::when_used_as_spec(is_complete)]
    pub fn check_complete(self) -> (complete: bool)
        ensures
            complete == self.is_complete(),
    {
        self.0 == codes::FRAMEBUFFER_COMPLETE
    }

    /// The status code in hexadecimal.
    pub open spec fn text(self) -> Seq<char> {
        hex_text(self.code() as nat)
    }

    /// The status code in hexadecimal.
    pub fn to_text(&self) -> (text: String)
        ensures
            text@ == self.text(),
    {
        hex(self.0)
    }
}

} // verus!
