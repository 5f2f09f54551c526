//! The interface to the device and its realizations.

pub mod codes;
pub mod convert;
pub mod gl;
pub mod kinds;
pub mod opengl;
pub(crate) mod protected;
pub mod webgl;

pub use self::gl::BuiltinType;
pub use self::gl::DeviceError;
pub use self::gl::Gl;
pub use self::gl::Op;
pub use self::gl::OpOf;
pub use self::kinds::ClearMask;
pub use self::kinds::CullFace;
pub use self::kinds::Factor;
pub use self::kinds::FramebufferStatus;
pub use self::kinds::FrontFace;
pub use self::kinds::Func;
pub use self::kinds::Primitive;
pub use self::kinds::ShaderType;
pub use self::kinds::TextureCompareMode;
pub use self::kinds::TextureFilter;
pub use self::kinds::TextureFilterType;
pub use self::kinds::TextureInternalFormat;
pub use self::kinds::TexturePixelFormat;
pub use self::kinds::TextureTarget;
pub use self::kinds::TextureWrap;
pub use self::kinds::Type;
pub use self::kinds::VertexBufferTarget;
pub use self::kinds::VertexBufferUsage;
