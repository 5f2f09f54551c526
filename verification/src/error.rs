//! The failures of resource construction.

use vstd::prelude::*;
use vstd::string::StringExecFns;
use vstd::utf8::decode_utf8;
use vstd::utf8::valid_utf8;

use crate::sys::gl::DeviceError;
use crate::sys::kinds::FramebufferStatus;
use crate::sys::kinds::ShaderType;
use crate::text::decimal;
use crate::text::decimal_digits;
use crate::text::lossy;
use crate::text::utf8_lossy;
use crate::vertices::AttribType;

verus! {

/// A failure to construct or query a resource.
///
/// `E` is the error that the device reports. A failure says what was
/// being attempted; where the device gave a cause, the failure carries
/// it unchanged.
#[derive(Debug, PartialEq, Eq)]
pub enum Error<E> {
    /// The device handed out no shader object.
    CreateShader,
    /// A shader did not compile; `log` is the raw diagnostic.
    CompileShader { stage: ShaderType, log: Vec<u8> },
    /// The device handed out no program object.
    CreateProgram,
    /// A program did not link; `log` is the raw diagnostic.
    LinkProgram { log: Vec<u8> },
    /// A program did not validate; `log` is the raw diagnostic.
    ValidateProgram { log: Vec<u8> },
    /// A program has no vertex attribute of the given name.
    AttribLocation { name: String },
    /// A program has no uniform of the given name.
    UniformLocation { name: String },
    /// The device refused to create a framebuffer object.
    CreateFramebuffer { cause: E },
    /// A framebuffer is not a usable render target; `status` is the raw
    /// completeness status.
    IncompleteFramebuffer { status: FramebufferStatus },
    /// The device refused to create a texture object.
    CreateTexture { cause: E },
    /// The device refused the image of a 2D texture.
    PopulateTexture { cause: E },
    /// The device refused to allocate a depth map.
    DepthMapTexture { cause: E },
    /// The device refused to allocate an array texture.
    InitTexture3d { cause: E },
    /// The device refused the image with the given index as a layer of
    /// an array texture.
    PopulateTexture3d { index: usize, cause: E },
    /// The image with the given index exceeds the bounds of the array
    /// texture it is meant for.
    ImageTooLarge { index: usize },
    /// The caller could not supply the image with the given index, for
    /// the reason given.
    Image { index: usize, message: String },
    /// The device refused to create a vertex buffer object.
    CreateVertexBuffer { cause: E },
    /// The device refused to create a vertex array object.
    CreateVertexArray { cause: E },
    /// No index was given for a vertex attribute of the vertex type.
    MissingAttrib { ty: AttribType },
}

impl<E: DeviceError> Error<E> {
    /// The error that the device gave as the cause, if any.
    pub open spec fn cause(&self) -> Option<E> {
        match self {
            Error::CreateFramebuffer { cause } => Some(*cause),
            Error::CreateTexture { cause } => Some(*cause),
            Error::PopulateTexture { cause } => Some(*cause),
            Error::DepthMapTexture { cause } => Some(*cause),
            Error::InitTexture3d { cause } => Some(*cause),
            Error::PopulateTexture3d { index, cause } => Some(*cause),
            Error::CreateVertexBuffer { cause } => Some(*cause),
            Error::CreateVertexArray { cause } => Some(*cause),
            _ => None,
        }
    }

    /// The raw diagnostic of the device that the failure carries, if
    /// any.
    pub open spec fn diagnostic(&self) -> Option<Seq<u8>> {
        match self {
            Error::CompileShader { stage, log } => Some(log@),
            Error::LinkProgram { log } => Some(log@),
            Error::ValidateProgram { log } => Some(log@),
            _ => None,
        }
    }

    /// The text that introduces the diagnostic of the device, for a
    /// failure that carries one.
    pub open spec fn introduction(&self) -> Seq<char> {
        match self {
            Error::CompileShader { stage, log } => "failed to compile "@ + stage.name()
                + " shader: "@,
            Error::LinkProgram { log } => "failed to link program: "@,
            Error::ValidateProgram { log } => "failed to validate program: "@,
            _ => Seq::empty(),
        }
    }

    /// The text that says what was being attempted.
    pub open spec fn text(&self) -> Seq<char> {
        match self {
            Error::CreateShader => "failed to create shader object"@,
            Error::CompileShader { stage, log } => "failed to compile "@ + stage.name()
                + " shader: "@ + utf8_lossy(log@),
            Error::CreateProgram => "failed to create program object"@,
            Error::LinkProgram { log } => "failed to link program: "@ + utf8_lossy(log@),
            Error::ValidateProgram { log } => "failed to validate program: "@ + utf8_lossy(log@),
            Error::AttribLocation { name } => "failed to query `"@ + name@
                + "` attribute location"@,
            Error::UniformLocation { name } => "failed to query `"@ + name@
                + "` uniform location"@,
            Error::CreateFramebuffer { cause } => "failed to create framebuffer object"@,
            Error::IncompleteFramebuffer { status } => "failed to complete framebuffer: status: "@
                + status.text(),
            Error::CreateTexture { cause } => "failed to generate OpenGL texture ID"@,
            Error::PopulateTexture { cause } => "failed to populate texture"@,
            Error::DepthMapTexture { cause } => "failed to depth map texture"@,
            Error::InitTexture3d { cause } => "failed to initialize 3D texture"@,
            Error::PopulateTexture3d { index, cause } =>
                "failed to initialize 3D texture (index = "@ + decimal_digits(*index as nat)
                + ")"@,
            Error::ImageTooLarge { index } => "image "@ + decimal_digits(*index as nat)
                + " is larger than maximum bounds provided"@,
            Error::Image { index, message } => message@,
            Error::CreateVertexBuffer { cause } => "failed to create vertex buffer"@,
            Error::CreateVertexArray { cause } => "failed to create vertex array"@,
            Error::MissingAttrib { ty } => "failed to find "@ + ty.name()
                + " vertex attribute index"@,
        }
    }

    /// The text of the failure followed, after a colon, by the text of
    /// the cause, where the device gave one.
    pub open spec fn full_text(&self) -> Seq<char> {
        match self.cause() {
            Some(cause) => self.text() + ": "@ + cause.text(),
            None => self.text(),
        }
    }

    /// Say what was being attempted when the failure occurred.
    ///
    /// A diagnostic of the device is included as it is, with what is not
    /// valid UTF-8 replaced.
    pub fn message(&self) -> (text: String)
        ensures
            text@ == self.text(),
            match self.diagnostic() {
                Some(log) => valid_utf8(log) ==> text@ == self.introduction() + decode_utf8(log),
                None => true,
            },
    {
        match self {
            Error::CreateShader => String::from_str("failed to create shader object"),
            Error::CompileShader { stage, log } => {
                let mut text = String::from_str("failed to compile ");
                text.append(stage.as_str());
                text.append(" shader: ");
                text.append(lossy(log.as_slice()).as_str());
                text
            },
            Error::CreateProgram => String::from_str("failed to create program object"),
            Error::LinkProgram { log } => {
                let mut text = String::from_str("failed to link program: ");
                text.append(lossy(log.as_slice()).as_str());
                text
            },
            Error::ValidateProgram { log } => {
                let mut text = String::from_str("failed to validate program: ");
                text.append(lossy(log.as_slice()).as_str());
                text
            },
            Error::AttribLocation { name } => {
                let mut text = String::from_str("failed to query `");
                text.append(name.as_str());
                text.append("` attribute location");
                text
            },
            Error::UniformLocation { name } => {
                let mut text = String::from_str("failed to query `");
                text.append(name.as_str());
                text.append("` uniform location");
                text
            },
            Error::CreateFramebuffer { .. } => String::from_str(
                "failed to create framebuffer object",
            ),
            Error::IncompleteFramebuffer { status } => {
                let mut text = String::from_str("failed to complete framebuffer: status: ");
                text.append(status.to_text().as_str());
                text
            },
            Error::CreateTexture { .. } => String::from_str("failed to generate OpenGL texture ID"),
            Error::PopulateTexture { .. } => String::from_str("failed to populate texture"),
            Error::DepthMapTexture { .. } => String::from_str("failed to depth map texture"),
            Error::InitTexture3d { .. } => String::from_str("failed to initialize 3D texture"),
            Error::PopulateTexture3d { index, .. } => {
                let mut text = String::from_str("failed to initialize 3D texture (index = ");
                text.append(decimal(*index as u64).as_str());
                text.append(")");
                text
            },
            Error::ImageTooLarge { index } => {
                let mut text = String::from_str("image ");
                text.append(decimal(*index as u64).as_str());
                text.append(" is larger than maximum bounds provided");
                text
            },
            Error::Image { message, .. } => message.clone(),
            Error::CreateVertexBuffer { .. } => String::from_str("failed to create vertex buffer"),
            Error::CreateVertexArray { .. } => String::from_str("failed to create vertex array"),
            Error::MissingAttrib { ty } => {
                let mut text = String::from_str("failed to find ");
                text.append(ty.as_str());
                text.append(" vertex attribute index");
                text
            },
        }
    }

    /// Say what was being attempted and, where the device gave a cause,
    /// what the cause was.
    pub fn report(&self) -> (text: String)
        ensures
            text@ == self.full_text(),
    {
        let mut text = self.message();
        match self {
            Error::CreateFramebuffer { cause }
            | Error::CreateTexture { cause }
            | Error::PopulateTexture { cause }
            | Error::DepthMapTexture { cause }
            | Error::InitTexture3d { cause }
            | Error::PopulateTexture3d { cause, .. }
            | Error::CreateVertexBuffer { cause }
            | Error::CreateVertexArray { cause } => {
                text.append(": ");
                text.append(cause.describe().as_str());
            },
            _ => {},
        }
        text
    }
}

/// A failure of a creation path wraps the error of the device in one
/// layer that says what was being attempted: the failure has the error
/// of the device as its cause, and its full text is the text of the
/// attempt followed, after a colon, by the text of the cause.
pub proof fn lemma_creation_wraps_cause<E: DeviceError>(error: Error<E>, cause: E)
    requires
        error == (Error::CreateFramebuffer { cause }) || error == (Error::CreateTexture { cause })
            || error == (Error::CreateVertexBuffer { cause }) || error == (
            Error::CreateVertexArray { cause }),
    ensures
        error.cause() == Some(cause),
        error.full_text() == error.text() + ": "@ + cause.text(),
        error.text() == "failed to create framebuffer object"@ || error.text()
            == "failed to generate OpenGL texture ID"@ || error.text()
            == "failed to create vertex buffer"@ || error.text()
            == "failed to create vertex array"@,
{
}

} // verus!
