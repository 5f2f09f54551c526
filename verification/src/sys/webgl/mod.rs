//! The realization of the context abstraction on a host-managed device
//! interface.

pub mod context;
pub mod host;

pub use self::context::version;
pub use self::context::Capability;
pub use self::context::Context;
pub use self::context::Error;

pub use self::host::Host;
pub use crate::sys::kinds::ClearMask;
pub use crate::sys::kinds::CullFace;
pub use crate::sys::kinds::Factor;
pub use crate::sys::kinds::FramebufferStatus;
pub use crate::sys::kinds::FrontFace;
pub use crate::sys::kinds::Func;
pub use crate::sys::kinds::Primitive;
pub use crate::sys::kinds::ShaderType;
pub use crate::sys::kinds::TextureCompareMode;
pub use crate::sys::kinds::TextureFilter;
pub use crate::sys::kinds::TextureFilterType;
pub use crate::sys::kinds::TextureInternalFormat;
pub use crate::sys::kinds::TexturePixelFormat;
pub use crate::sys::kinds::TextureTarget;
pub use crate::sys::kinds::TextureWrap;
pub use crate::sys::kinds::Type;
pub use crate::sys::kinds::VertexBufferTarget;
pub use crate::sys::kinds::VertexBufferUsage;
