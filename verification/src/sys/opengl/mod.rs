//! The realization of the context abstraction on the native device
//! interface.

pub mod context;
pub mod driver;

pub use self::context::version;
pub use self::context::Capability;
pub use self::context::Context;
pub use self::context::Error;
pub use self::context::Framebuffer;
pub use self::context::Program;
pub use self::context::Shader;
pub use self::context::Texture;
pub use self::context::UniformLocation;
pub use self::context::VertexArrayObject;
pub use self::context::VertexBufferObject;

pub use self::driver::Driver;
pub use crate::sys::kinds::ClearMask;
pub use crate::sys::kinds::CullFace;
pub use crate::sys::kinds::Factor;
pub use crate::sys::kinds::FramebufferStatus;
pub use crate::sys::kinds::FrontFace;
pub use crate::sys::kinds::Func;
pub use crate::sys::kinds::Primitive;
pub use crate::sys::kinds::ShaderType;
pub use crate::sys::kinds::TextureCompareMode;
pub use crate::sys::kinds::TextureFilter;
pub use crate::sys::kinds::TextureFilterType;
pub use crate::sys::kinds::TextureInternalFormat;
pub use crate::sys::kinds::TexturePixelFormat;
pub use crate::sys::kinds::TextureTarget;
pub use crate::sys::kinds::TextureWrap;
pub use crate::sys::kinds::Type;
pub use crate::sys::kinds::VertexBufferTarget;
pub use crate::sys::kinds::VertexBufferUsage;
