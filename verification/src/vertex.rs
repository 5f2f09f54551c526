//! The description of vertex types.

pub use crate::vertices::Attrib;
pub use crate::vertices::AttribType;
pub use crate::vertices::Attribs;
