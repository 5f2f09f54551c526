//! A single interface for issuing rendering commands to a graphics
//! device, a resource-ownership discipline built on top of it, and a
//! bounded stack of transforms.
//!
//! # The context
//!
//! Every device operation is issued through a context, a value of a
//! type that implements [`sys::Gl`]. There are two realizations:
//! [`sys::opengl::Context`] reaches a native device through the entry
//! points of a [`sys::opengl::Driver`], with integer handles and an
//! error flag that is polled after a call; [`sys::webgl::Context`]
//! reaches a device through a host object, a [`sys::webgl::Host`], with
//! handles and diagnostics that the host manages. A context is passed
//! by mutable reference to whatever issues operations: holding that
//! reference is the licence to talk to the device.
//!
//! A context keeps a journal of the operations issued through it, each
//! with its arguments and with what the device answered. The journal
//! exists for reasoning only. The contract of an operation of the
//! interface says which entry it appends; the contract of an operation
//! of a realization adds which entry points of the device it called,
//! in which order, with which arguments and with which results.
//!
//! # Resources
//!
//! [`Shader`], [`Program`], [`Texture`], [`Framebuffer`],
//! [`VertexBuffer`] and [`VertexArray`] each own exactly one handle. A
//! constructor creates the object, configures it and validates it, and
//! deletes it again before it reports a failure; `release` consumes the
//! value and deletes the object. The contract of a constructor says
//! exactly which operations it issued, given what the device answered,
//! and with which result.
//!
//! # The transform stack
//!
//! [`MatrixStack`] is a stack of bounded depth that hands its top to a
//! loading function whenever the top changes because of a push or a
//! pop. A push onto a full stack and a pop of the bottom matrix are
//! ruled out: `push` and `pop` demand of the caller that neither
//! happens, `try_push` and `try_pop` check for it and report a refusal
//! without having done anything.

pub mod error;
pub mod framebuffer;
pub mod matrices;
pub mod program;
pub mod shader;
pub mod stack;
pub mod sys;
pub mod text;
pub mod texture;
pub mod vertex;
pub mod vertices;

pub use crate::error::Error;
pub use crate::framebuffer::Framebuffer;
pub use crate::matrices::MatrixStack;
pub use crate::program::Program;
pub use crate::shader::Shader;
pub use crate::stack::Stack;
pub use crate::texture::Builder as TextureBuilder;
pub use crate::texture::Texture;
pub use crate::texture::TextureInfo;
pub use crate::vertices::VertexArray;
pub use crate::vertices::VertexBuffer;
