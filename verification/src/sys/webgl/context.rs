//! The realization of the context abstraction on a host-managed
//! device interface.
//!
//! Every operation maps to one or a few operations of the host. The
//! handles are the host's own references. Whether a shader compiled or
//! a program linked or validated is read from its status flag; the
//! diagnostic comes back as optional text after a failure, and an error
//! is read from the host once it has refused a call.

use vstd::prelude::*;
use vstd::string::StrSliceExecFns;
use vstd::string::StringExecFns;
use vstd::utf8::encode_utf8;

use crate::sys::codes;
use crate::sys::convert::attrib_index;
use crate::sys::convert::attrib_index_of;
use crate::sys::convert::signed;
use crate::sys::gl::bytes;
use crate::sys::gl::diagnostic;
use crate::sys::gl::pointee;
use crate::sys::gl::verdict;
use crate::sys::gl::BuiltinType;
use crate::sys::gl::DeviceError;
use crate::sys::gl::Gl;
use crate::sys::gl::Op;
use crate::sys::gl::OpOf;
use crate::sys::kinds::ClearMask;
use crate::sys::kinds::CullFace;
use crate::sys::kinds::Factor;
use crate::sys::kinds::FramebufferStatus;
use crate::sys::kinds::FrontFace;
use crate::sys::kinds::Func;
use crate::sys::kinds::Primitive;
use crate::sys::kinds::ShaderType;
use crate::sys::kinds::TextureCompareMode;
use crate::sys::kinds::TextureFilter;
use crate::sys::kinds::TextureFilterType;
use crate::sys::kinds::TextureInternalFormat;
use crate::sys::kinds::TexturePixelFormat;
use crate::sys::kinds::TextureTarget;
use crate::sys::kinds::TextureWrap;
use crate::sys::kinds::Type;
use crate::sys::kinds::VertexBufferTarget;
use crate::sys::kinds::VertexBufferUsage;
use crate::sys::protected::Sealed;
use crate::sys::webgl::host::text;
use crate::sys::webgl::host::Host;
use crate::text::hex;
use crate::text::hex_text;

verus! {

/// The code of the error that reports the loss of the connection to
/// the device.
pub const CONTEXT_LOST_WEBGL: u32 = 0x9242;

/// An error code read from the error state of the host.
#[derive(Debug, PartialEq, Eq, Structural)]
pub struct Error(u32);

/// The description of an error code, for the codes that have one.
pub open spec fn error_name(code: u32) -> Option<Seq<char>> {
    if code == codes::NO_ERROR {
        Some("no error"@)
    } else if code == codes::INVALID_ENUM {
        Some("invalid enum (INVALID_ENUM)"@)
    } else if code == codes::INVALID_VALUE {
        Some("invalid value (INVALID_VALUE)"@)
    } else if code == codes::INVALID_OPERATION {
        Some("invalid operation (INVALID_OPERATION)"@)
    } else if code == codes::INVALID_FRAMEBUFFER_OPERATION {
        Some("invalid framebuffer operation (INVALID_FRAMEBUFFER_OPERATION)"@)
    } else if code == codes::OUT_OF_MEMORY {
        Some("out of memory (OUT_OF_MEMORY)"@)
    } else if code == CONTEXT_LOST_WEBGL {
        Some("lost WebGL context (CONTEXT_LOST_WEBGL)"@)
    } else {
        None
    }
}

/// The description of an error code, for the codes that have one.
pub fn error_name_of(code: u32) -> (name: Option<&'static str>)
    ensures
        match name {
            Some(name) => error_name(code) == Some(name@),
            None => error_name(code) is None,
        },
{
    if code == codes::NO_ERROR {
        Some("no error")
    } else if code == codes::INVALID_ENUM {
        Some("invalid enum (INVALID_ENUM)")
    } else if code == codes::INVALID_VALUE {
        Some("invalid value (INVALID_VALUE)")
    } else if code == codes::INVALID_OPERATION {
        Some("invalid operation (INVALID_OPERATION)")
    } else if code == codes::INVALID_FRAMEBUFFER_OPERATION {
        Some("invalid framebuffer operation (INVALID_FRAMEBUFFER_OPERATION)")
    } else if code == codes::OUT_OF_MEMORY {
        Some("out of memory (OUT_OF_MEMORY)")
    } else if code == CONTEXT_LOST_WEBGL {
        Some("lost WebGL context (CONTEXT_LOST_WEBGL)")
    } else {
        None
    }
}

/// The text that describes an error code: the description of the code,
/// where it has one, and else the code in hexadecimal.
pub open spec fn error_text(code: u32) -> Seq<char> {
    match error_name(code) {
        Some(name) => "WebGL error: "@ + name,
        None => "WebGL error: "@ + hex_text(code as nat),
    }
}

impl Error {
    /// The raw error code.
    pub closed spec fn code(&self) -> u32 {
        self.0
    }

    /// The raw error code.
    #[verifier::when_used_as_spec(code)]
    pub fn to_code(&self) -> (code: u32)
        ensures
            code == self.code(),
    {
        self.0
    }

    /// The error with the given raw code.
    pub fn from_code(code: u32) -> (error: Self)
        ensures
            error.code() == code,
    {
        Error(code)
    }

    /// Two errors with the same code are the same error.
    pub proof fn lemma_code_determines(a: Self, b: Self)
        requires
            a.code() == b.code(),
        ensures
            a == b,
    {
    }
}

impl DeviceError for Error {
    open spec fn text(&self) -> Seq<char> {
        error_text(self.code())
    }

    fn describe(&self) -> (text: String) {
        let mut text = String::from_str("WebGL error: ");
        match error_name_of(self.0) {
            Some(name) => {
                text.append(name);
            },
            None => {
                text.append(hex(self.0).as_str());
            },
        }
        text
    }
}

/// A device-togglable rendering feature.
#[non_exhaustive]
#[derive(Clone, Copy, Debug, PartialEq, Eq, Structural)]
pub enum Capability {
    Blend,
    CullFace,
    DepthTest,
    ScissorTest,
}

impl Capability {
    /// The code the host uses for the capability.
    pub open spec fn code(self) -> u32 {
        match self {
            Capability::Blend => codes::BLEND,
            Capability::CullFace => codes::CULL_FACE,
            Capability::DepthTest => codes::DEPTH_TEST,
            Capability::ScissorTest => codes::SCISSOR_TEST,
        }
    }

    /// The code the host uses for the capability.
    #[verifier::when_used_as_spec(code)]
    pub fn to_code(self) -> (code: u32)
        ensures
            code == self.code(),
    {
        match self {
            Capability::Blend => codes::BLEND,
            Capability::CullFace => codes::CULL_FACE,
            Capability::DepthTest => codes::DEPTH_TEST,
            Capability::ScissorTest => codes::SCISSOR_TEST,
        }
    }
}

/// The code that the error state held when an outcome was derived from
/// it.
pub open spec fn code_of<T>(outcome: Result<T, Error>) -> u32 {
    match outcome {
        Ok(_) => codes::NO_ERROR,
        Err(error) => error.code(),
    }
}

/// Turn a code read from the error state into an outcome: `NO_ERROR` is
/// success, every other code an error.
pub fn failure(code: u32) -> (outcome: Result<(), Error>)
    ensures
        code_of(outcome) == code,
        outcome is Ok <==> code == codes::NO_ERROR,
{
    if code == codes::NO_ERROR {
        Ok(())
    } else {
        Err(Error(code))
    }
}

/// The text of the diagnostic that the host holds, or the empty text
/// if it holds none.
pub open spec fn log_text(log: Option<Seq<char>>) -> Seq<char> {
    match log {
        Some(log) => log,
        None => Seq::empty(),
    }
}

/// The diagnostic that the host holds as bytes; no diagnostic is an
/// empty one.
pub fn diagnostic_bytes(log: Option<String>) -> (bytes: Vec<u8>)
    ensures
        bytes@ == encode_utf8(log_text(text(log))),
{
    let log = match log {
        Some(log) => log,
        None => String::new(),
    };
    log.as_str().as_bytes_vec()
}

/// The version of the device interface that the host offers: the
/// embedded profile.
pub open spec fn interface_version() -> (u8, u8, Option<&'static str>) {
    (3, 0, Some("es"))
}

/// Retrieve the version of the device interface to use.
#[verifier::when_used_as_spec(interface_version)]
pub fn version() -> (version: (u8, u8, Option<&'static str>))
    ensures
        version == interface_version(),
{
    (3, 0, Some("es"))
}

/// The operations of the realization on the host `H`.
pub type WebOp<H> = Op<
    Capability,
    Error,
    <H as Host>::Framebuffer,
    <H as Host>::Program,
    <H as Host>::Shader,
    <H as Host>::Texture,
    <H as Host>::UniformLocation,
    <H as Host>::VertexArrayObject,
    <H as Host>::VertexBufferObject,
>;

/// The context in use: the connection to the device behind a host
/// object.
///
/// Every operation states which operations of the host it called, in
/// which order, with which arguments and with which results.
pub struct Context<H: Host> {
    /// The host object.
    host: H,
    /// The operations issued so far.
    ops: Ghost<Seq<WebOp<H>>>,
}

impl<H: Host> Context<H> {
    /// The host object that the context calls.
    pub closed spec fn host(&self) -> H {
        self.host
    }

    /// Create a context on top of a host object.
    pub fn new(context: H) -> (created: Self)
        ensures
            created.journal() == Seq::<WebOp<H>>::empty(),
            created.host() == context,
    {
        Context { host: context, ops: Ghost(Seq::empty()) }
    }

    /// Give up the context for the host object it was created on.
    pub fn into_host(self) -> (host: H)
        ensures
            host == self.host(),
    {
        self.host
    }
}

impl<H: Host> Sealed for Context<H> {
}

impl<H: Host> Gl for Context<H> {
    type Error = Error;

    type Capability = Capability;

    type Framebuffer = H::Framebuffer;

    type Program = H::Program;

    type Shader = H::Shader;

    type Texture = H::Texture;

    type UniformLocation = H::UniformLocation;

    type VertexArrayObject = H::VertexArrayObject;

    type VertexBufferObject = H::VertexBufferObject;

    closed spec fn journal(&self) -> Seq<OpOf<Self>> {
        self.ops@
    }

    /// The host takes names as they are.
    open spec fn valid_name(name: Seq<char>) -> bool {
        true
    }

    open spec fn interface_version() -> (u8, u8, Option<&'static str>) {
        self::interface_version()
    }

    fn version() -> (version: (u8, u8, Option<&'static str>)) {
        self::version()
    }

    fn error(&mut self) -> (outcome: Result<(), Error>)
        ensures
            exists|call: &mut H|
                *call == old(self).host()
                && *final(call) == final(self).host()
                && call_ensures(H::get_error, (call,), code_of(outcome)),
            outcome matches Err(error) ==> error.to_code() != codes::NO_ERROR,
    {
        let code = self.host.get_error();
        let outcome = failure(code);
        proof {
            self.ops@ = self.ops@.push(Op::Error { outcome: verdict(outcome) });
        }
        outcome
    }

    fn enable(&mut self, capability: Capability)
        ensures
            exists|call: &mut H|
                *call == old(self).host()
                && *final(call) == final(self).host()
                && call_ensures(H::enable, (call, capability.to_code()), ()),
    {
        self.host.enable(capability.to_code());
        proof {
            self.ops@ = self.ops@.push(Op::Enable { capability });
        }
    }

    fn disable(&mut self, capability: Capability)
        ensures
            exists|call: &mut H|
                *call == old(self).host()
                && *final(call) == final(self).host()
                && call_ensures(H::disable, (call, capability.to_code()), ()),
    {
        self.host.disable(capability.to_code());
        proof {
            self.ops@ = self.ops@.push(Op::Disable { capability });
        }
    }

    fn set_depth_func(&mut self, func: Func)
        ensures
            exists|call: &mut H|
                *call == old(self).host()
                && *final(call) == final(self).host()
                && call_ensures(H::depth_func, (call, func.to_code()), ()),
    {
        self.host.depth_func(func.to_code());
        proof {
            self.ops@ = self.ops@.push(Op::DepthFunc { func });
        }
    }

    fn set_blend_func(&mut self, src_factor: Factor, dst_factor: Factor)
        ensures
            exists|call: &mut H|
                *call == old(self).host()
                && *final(call) == final(self).host()
                && call_ensures(
                       H::blend_func,
                       (call, src_factor.to_code(), dst_factor.to_code()),
                       (),
                   ),
    {
        self.host.blend_func(src_factor.to_code(), dst_factor.to_code());
        proof {
            self.ops@ = self.ops@.push(Op::BlendFunc { src_factor, dst_factor });
        }
    }

    fn set_front_face(&mut self, face: FrontFace)
        ensures
            exists|call: &mut H|
                *call == old(self).host()
                && *final(call) == final(self).host()
                && call_ensures(H::front_face, (call, face.to_code()), ()),
    {
        self.host.front_face(face.to_code());
        proof {
            self.ops@ = self.ops@.push(Op::FrontFace { face });
        }
    }

    fn set_cull_face(&mut self, face: CullFace)
        ensures
            exists|call: &mut H|
                *call == old(self).host()
                && *final(call) == final(self).host()
                && call_ensures(H::cull_face, (call, face.to_code()), ()),
    {
        self.host.cull_face(face.to_code());
        proof {
            self.ops@ = self.ops@.push(Op::CullFace { face });
        }
    }

    fn set_viewport(&mut self, x: i32, y: i32, w: i32, h: i32)
        ensures
            exists|call: &mut H|
                *call == old(self).host()
                && *final(call) == final(self).host()
                && call_ensures(H::viewport, (call, x, y, w, h), ()),
    {
        self.host.viewport(x, y, w, h);
        proof {
            self.ops@ = self.ops@.push(Op::Viewport { x, y, w, h });
        }
    }

    fn set_pixel_unpack_alignment(&mut self, alignment: u32)
        ensures
            exists|call: &mut H|
                *call == old(self).host()
                && *final(call) == final(self).host()
                && call_ensures(
                       H::pixel_storei,
                       (call, codes::UNPACK_ALIGNMENT, signed(alignment)),
                       (),
                   ),
    {
        self.host.pixel_storei(codes::UNPACK_ALIGNMENT, signed(alignment));
        proof {
            self.ops@ = self.ops@.push(Op::PixelUnpackAlignment { alignment });
        }
    }

    fn clear(&mut self, mask: ClearMask)
        ensures
            exists|call: &mut H|
                *call == old(self).host()
                && *final(call) == final(self).host()
                && call_ensures(H::clear, (call, mask.to_bits()), ()),
    {
        self.host.clear(mask.to_bits());
        proof {
            self.ops@ = self.ops@.push(Op::Clear { mask });
        }
    }

    fn draw_arrays(&mut self, primitive: Primitive, count: i32)
        ensures
            exists|call: &mut H|
                *call == old(self).host()
                && *final(call) == final(self).host()
                && call_ensures(H::draw_arrays, (call, primitive.to_code(), 0, count), ()),
    {
        self.host.draw_arrays(primitive.to_code(), 0, count);
        proof {
            self.ops@ = self.ops@.push(Op::DrawArrays { primitive, count });
        }
    }

    fn draw_arrays_instanced(&mut self, primitive: Primitive, count: i32, instance_count: i32)
        ensures
            exists|call: &mut H|
                *call == old(self).host()
                && *final(call) == final(self).host()
                && call_ensures(
                       H::draw_arrays_instanced,
                       (call, primitive.to_code(), 0, count, instance_count),
                       (),
                   ),
    {
        self.host.draw_arrays_instanced(primitive.to_code(), 0, count, instance_count);
        proof {
            self.ops@ = self.ops@.push(
                Op::DrawArraysInstanced { primitive, count, instance_count },
            );
        }
    }

    fn draw_elements<I: BuiltinType>(&mut self, primitive: Primitive, count: i32)
        ensures
            exists|call: &mut H|
                *call == old(self).host()
                && *final(call) == final(self).host()
                && call_ensures(
                       H::draw_elements,
                       (call, primitive.to_code(), count, I::type_of().to_code(), 0),
                       (),
                   ),
    {
        let ty = I::as_type();
        self.host.draw_elements(primitive.to_code(), count, ty.to_code(), 0);
        proof {
            self.ops@ = self.ops@.push(
                Op::DrawElements { primitive, count, index_type: I::type_of() },
            );
        }
    }

    fn create_framebuffer(&mut self) -> (created: Result<H::Framebuffer, Error>)
        ensures
            match created {
                Ok(fbo) => {
                    exists|call: &mut H|
                        *call == old(self).host()
                        && *final(call) == final(self).host()
                        && call_ensures(H::create_framebuffer, (call,), Some(fbo))
                },
                Err(error) => {
                    exists|first: &mut H, second: &mut H|
                        *first == old(self).host()
                        && *final(first) == *second
                        && *final(second) == final(self).host()
                        && call_ensures(H::create_framebuffer, (first,), None)
                        && call_ensures(H::get_error, (second,), error.to_code())
                },
            },
    {
        let created = match self.host.create_framebuffer() {
            Some(fbo) => Ok(fbo),
            None => Err(Error::from_code(self.host.get_error())),
        };
        proof {
            self.ops@ = self.ops@.push(Op::CreateFramebuffer { created });
        }
        created
    }

    fn delete_framebuffer(&mut self, fbo: &H::Framebuffer)
        ensures
            exists|call: &mut H|
                *call == old(self).host()
                && *final(call) == final(self).host()
                && call_ensures(H::delete_framebuffer, (call, Some(fbo)), ()),
    {
        self.host.delete_framebuffer(Some(fbo));
        proof {
            self.ops@ = self.ops@.push(Op::DeleteFramebuffer { fbo: *fbo });
        }
    }

    fn bind_framebuffer(&mut self, fbo: Option<&H::Framebuffer>)
        ensures
            exists|call: &mut H|
                *call == old(self).host()
                && *final(call) == final(self).host()
                && call_ensures(H::bind_framebuffer, (call, codes::FRAMEBUFFER, fbo), ()),
    {
        self.host.bind_framebuffer(codes::FRAMEBUFFER, fbo);
        proof {
            self.ops@ = self.ops@.push(Op::BindFramebuffer { fbo: pointee(fbo) });
        }
    }

    fn check_framebuffer_status(&mut self) -> (status: FramebufferStatus)
        ensures
            exists|call: &mut H|
                *call == old(self).host()
                && *final(call) == final(self).host()
                && call_ensures(
                       H::check_framebuffer_status,
                       (call, codes::FRAMEBUFFER),
                       status.to_code(),
                   ),
    {
        let code = self.host.check_framebuffer_status(codes::FRAMEBUFFER);
        let status = FramebufferStatus::from_code(code);
        proof {
            self.ops@ = self.ops@.push(Op::CheckFramebufferStatus { status });
        }
        status
    }

    fn set_framebuffer_depth_texture(&mut self, texture_target: TextureTarget, texture: &H::Texture)
        ensures
            exists|call: &mut H|
                *call == old(self).host()
                && *final(call) == final(self).host()
                && call_ensures(
                       H::framebuffer_texture_2d,
                       (
                           call,
                           codes::FRAMEBUFFER,
                           codes::DEPTH_ATTACHMENT,
                           texture_target.to_code(),
                           Some(texture),
                           0,
                       ),
                       (),
                   ),
    {
        self.host.framebuffer_texture_2d(
            codes::FRAMEBUFFER,
            codes::DEPTH_ATTACHMENT,
            texture_target.to_code(),
            Some(texture),
            0,
        );
        proof {
            self.ops@ = self.ops@.push(
                Op::FramebufferDepthTexture { target: texture_target, texture: *texture },
            );
        }
    }

    fn unset_draw_buffer(&mut self)
        ensures
            exists|call: &mut H, buffers: &[u32]|
                *call == old(self).host()
                && *final(call) == final(self).host()
                && call_ensures(H::draw_buffers, (call, buffers), ())
                && buffers@ == seq![codes::NONE],
    {
        let buffers = [codes::NONE];
        self.host.draw_buffers(buffers.as_slice());
        proof {
            assert(buffers@ =~= seq![codes::NONE]);
            self.ops@ = self.ops@.push(Op::UnsetDrawBuffer);
        }
    }

    fn unset_read_buffer(&mut self)
        ensures
            exists|call: &mut H|
                *call == old(self).host()
                && *final(call) == final(self).host()
                && call_ensures(H::read_buffer, (call, codes::NONE), ()),
    {
        self.host.read_buffer(codes::NONE);
        proof {
            self.ops@ = self.ops@.push(Op::UnsetReadBuffer);
        }
    }

    fn create_shader(&mut self, ty: ShaderType) -> (created: Option<H::Shader>)
        ensures
            exists|call: &mut H|
                *call == old(self).host()
                && *final(call) == final(self).host()
                && call_ensures(H::create_shader, (call, ty.to_code()), created),
    {
        let created = self.host.create_shader(ty.to_code());
        proof {
            self.ops@ = self.ops@.push(Op::CreateShader { ty, created });
        }
        created
    }

    fn delete_shader(&mut self, shader: &H::Shader)
        ensures
            exists|call: &mut H|
                *call == old(self).host()
                && *final(call) == final(self).host()
                && call_ensures(H::delete_shader, (call, Some(shader)), ()),
    {
        self.host.delete_shader(Some(shader));
        proof {
            self.ops@ = self.ops@.push(Op::DeleteShader { shader: *shader });
        }
    }

    fn set_shader_source(&mut self, shader: &H::Shader, source: &str)
        ensures
            exists|call: &mut H|
                *call == old(self).host()
                && *final(call) == final(self).host()
                && call_ensures(H::shader_source, (call, shader, source), ()),
    {
        self.host.shader_source(shader, source);
        proof {
            self.ops@ = self.ops@.push(Op::ShaderSource { shader: *shader, source: source@ });
        }
    }

    fn compile_shader(&mut self, shader: &H::Shader) -> (outcome: Result<(), Vec<u8>>)
        ensures
            match outcome {
                Ok(()) => {
                    exists|first: &mut H, second: &mut H|
                        *first == old(self).host()
                        && *final(first) == *second
                        && *final(second) == final(self).host()
                        && call_ensures(H::compile_shader, (first, shader), ())
                        && call_ensures(
                               H::get_shader_parameter,
                               (second, shader, codes::COMPILE_STATUS),
                               true,
                           )
                },
                Err(bytes) => {
                    exists|first: &mut H, second: &mut H, third: &mut H, log: Option<String>|
                        *first == old(self).host()
                        && *final(first) == *second
                        && *final(second) == *third
                        && *final(third) == final(self).host()
                        && call_ensures(H::compile_shader, (first, shader), ())
                        && call_ensures(
                               H::get_shader_parameter,
                               (second, shader, codes::COMPILE_STATUS),
                               false,
                           )
                        && call_ensures(H::get_shader_info_log, (third, shader), log)
                        && bytes@ == encode_utf8(log_text(text(log)))
                },
            },
    {
        self.host.compile_shader(shader);
        let outcome = if self.host.get_shader_parameter(shader, codes::COMPILE_STATUS) {
            Ok(())
        } else {
            Err(diagnostic_bytes(self.host.get_shader_info_log(shader)))
        };
        proof {
            self.ops@ = self.ops@.push(
                Op::CompileShader { shader: *shader, outcome: diagnostic(outcome) },
            );
        }
        outcome
    }

    fn attach_shader(&mut self, program: &H::Program, shader: &H::Shader)
        ensures
            exists|call: &mut H|
                *call == old(self).host()
                && *final(call) == final(self).host()
                && call_ensures(H::attach_shader, (call, program, shader), ()),
    {
        self.host.attach_shader(program, shader);
        proof {
            self.ops@ = self.ops@.push(Op::AttachShader { program: *program, shader: *shader });
        }
    }

    fn detach_shader(&mut self, program: &H::Program, shader: &H::Shader)
        ensures
            exists|call: &mut H|
                *call == old(self).host()
                && *final(call) == final(self).host()
                && call_ensures(H::detach_shader, (call, program, shader), ()),
    {
        self.host.detach_shader(program, shader);
        proof {
            self.ops@ = self.ops@.push(Op::DetachShader { program: *program, shader: *shader });
        }
    }

    fn create_program(&mut self) -> (created: Option<H::Program>)
        ensures
            exists|call: &mut H|
                *call == old(self).host()
                && *final(call) == final(self).host()
                && call_ensures(H::create_program, (call,), created),
    {
        let created = self.host.create_program();
        proof {
            self.ops@ = self.ops@.push(Op::CreateProgram { created });
        }
        created
    }

    fn delete_program(&mut self, program: &H::Program)
        ensures
            exists|call: &mut H|
                *call == old(self).host()
                && *final(call) == final(self).host()
                && call_ensures(H::delete_program, (call, Some(program)), ()),
    {
        self.host.delete_program(Some(program));
        proof {
            self.ops@ = self.ops@.push(Op::DeleteProgram { program: *program });
        }
    }

    fn link_program(&mut self, program: &H::Program) -> (outcome: Result<(), Vec<u8>>)
        ensures
            match outcome {
                Ok(()) => {
                    exists|first: &mut H, second: &mut H|
                        *first == old(self).host()
                        && *final(first) == *second
                        && *final(second) == final(self).host()
                        && call_ensures(H::link_program, (first, program), ())
                        && call_ensures(
                               H::get_program_parameter,
                               (second, program, codes::LINK_STATUS),
                               true,
                           )
                },
                Err(bytes) => {
                    exists|first: &mut H, second: &mut H, third: &mut H, log: Option<String>|
                        *first == old(self).host()
                        && *final(first) == *second
                        && *final(second) == *third
                        && *final(third) == final(self).host()
                        && call_ensures(H::link_program, (first, program), ())
                        && call_ensures(
                               H::get_program_parameter,
                               (second, program, codes::LINK_STATUS),
                               false,
                           )
                        && call_ensures(H::get_program_info_log, (third, program), log)
                        && bytes@ == encode_utf8(log_text(text(log)))
                },
            },
    {
        self.host.link_program(program);
        let outcome = if self.host.get_program_parameter(program, codes::LINK_STATUS) {
            Ok(())
        } else {
            Err(diagnostic_bytes(self.host.get_program_info_log(program)))
        };
        proof {
            self.ops@ = self.ops@.push(
                Op::LinkProgram { program: *program, outcome: diagnostic(outcome) },
            );
        }
        outcome
    }

    fn validate_program(&mut self, program: &H::Program) -> (outcome: Result<(), Vec<u8>>)
        ensures
            match outcome {
                Ok(()) => {
                    exists|first: &mut H, second: &mut H|
                        *first == old(self).host()
                        && *final(first) == *second
                        && *final(second) == final(self).host()
                        && call_ensures(H::validate_program, (first, program), ())
                        && call_ensures(
                               H::get_program_parameter,
                               (second, program, codes::VALIDATE_STATUS),
                               true,
                           )
                },
                Err(bytes) => {
                    exists|first: &mut H, second: &mut H, third: &mut H, log: Option<String>|
                        *first == old(self).host()
                        && *final(first) == *second
                        && *final(second) == *third
                        && *final(third) == final(self).host()
                        && call_ensures(H::validate_program, (first, program), ())
                        && call_ensures(
                               H::get_program_parameter,
                               (second, program, codes::VALIDATE_STATUS),
                               false,
                           )
                        && call_ensures(H::get_program_info_log, (third, program), log)
                        && bytes@ == encode_utf8(log_text(text(log)))
                },
            },
    {
        self.host.validate_program(program);
        let outcome = if self.host.get_program_parameter(program, codes::VALIDATE_STATUS) {
            Ok(())
        } else {
            Err(diagnostic_bytes(self.host.get_program_info_log(program)))
        };
        proof {
            self.ops@ = self.ops@.push(
                Op::ValidateProgram { program: *program, outcome: diagnostic(outcome) },
            );
        }
        outcome
    }

    fn use_program(&mut self, program: &H::Program)
        ensures
            exists|call: &mut H|
                *call == old(self).host()
                && *final(call) == final(self).host()
                && call_ensures(H::use_program, (call, Some(program)), ()),
    {
        self.host.use_program(Some(program));
        proof {
            self.ops@ = self.ops@.push(Op::UseProgram { program: *program });
        }
    }

    fn attrib_location(&mut self, program: &H::Program, attrib: &str) -> (location: Option<u32>)
        ensures
            exists|call: &mut H, raw: i32|
                *call == old(self).host()
                && *final(call) == final(self).host()
                && call_ensures(H::get_attrib_location, (call, program, attrib), raw)
                && location == attrib_index(raw),
    {
        let raw = self.host.get_attrib_location(program, attrib);
        let location = attrib_index_of(raw);
        proof {
            self.ops@ = self.ops@.push(
                Op::AttribLocation { program: *program, name: attrib@, location },
            );
        }
        location
    }

    fn uniform_location(
        &mut self,
        program: &H::Program,
        uniform: &str,
    ) -> (location: Option<H::UniformLocation>)
        ensures
            exists|call: &mut H|
                *call == old(self).host()
                && *final(call) == final(self).host()
                && call_ensures(H::get_uniform_location, (call, program, uniform), location),
    {
        let location = self.host.get_uniform_location(program, uniform);
        proof {
            self.ops@ = self.ops@.push(
                Op::UniformLocation { program: *program, name: uniform@, location },
            );
        }
        location
    }

    fn set_uniform_1i(&mut self, location: &H::UniformLocation, data: i32)
        ensures
            exists|call: &mut H|
                *call == old(self).host()
                && *final(call) == final(self).host()
                && call_ensures(H::uniform_1i, (call, Some(location), data), ()),
    {
        self.host.uniform_1i(Some(location), data);
        proof {
            self.ops@ = self.ops@.push(Op::Uniform1i { location: *location, value: data });
        }
    }

    fn set_uniform_1ui(&mut self, location: &H::UniformLocation, data: u32)
        ensures
            exists|call: &mut H|
                *call == old(self).host()
                && *final(call) == final(self).host()
                && call_ensures(H::uniform_1ui, (call, Some(location), data), ()),
    {
        self.host.uniform_1ui(Some(location), data);
        proof {
            self.ops@ = self.ops@.push(Op::Uniform1ui { location: *location, value: data });
        }
    }

    fn set_uniform_1iv(&mut self, location: &H::UniformLocation, data: &[i32])
        ensures
            exists|call: &mut H|
                *call == old(self).host()
                && *final(call) == final(self).host()
                && call_ensures(H::uniform_1iv, (call, Some(location), data), ()),
    {
        self.host.uniform_1iv(Some(location), data);
        proof {
            self.ops@ = self.ops@.push(Op::Uniform1iv { location: *location, values: data@ });
        }
    }

    fn create_vertex_buffer(&mut self) -> (created: Result<H::VertexBufferObject, Error>)
        ensures
            match created {
                Ok(vbo) => {
                    exists|call: &mut H|
                        *call == old(self).host()
                        && *final(call) == final(self).host()
                        && call_ensures(H::create_buffer, (call,), Some(vbo))
                },
                Err(error) => {
                    exists|first: &mut H, second: &mut H|
                        *first == old(self).host()
                        && *final(first) == *second
                        && *final(second) == final(self).host()
                        && call_ensures(H::create_buffer, (first,), None)
                        && call_ensures(H::get_error, (second,), error.to_code())
                },
            },
    {
        let created = match self.host.create_buffer() {
            Some(vbo) => Ok(vbo),
            None => Err(Error::from_code(self.host.get_error())),
        };
        proof {
            self.ops@ = self.ops@.push(Op::CreateVertexBuffer { created });
        }
        created
    }

    fn delete_vertex_buffer(&mut self, vbo: &H::VertexBufferObject)
        ensures
            exists|call: &mut H|
                *call == old(self).host()
                && *final(call) == final(self).host()
                && call_ensures(H::delete_buffer, (call, Some(vbo)), ()),
    {
        self.host.delete_buffer(Some(vbo));
        proof {
            self.ops@ = self.ops@.push(Op::DeleteVertexBuffer { vbo: *vbo });
        }
    }

    fn bind_vertex_buffer(
        &mut self,
        target: VertexBufferTarget,
        vbo: Option<&H::VertexBufferObject>,
    )
        ensures
            exists|call: &mut H|
                *call == old(self).host()
                && *final(call) == final(self).host()
                && call_ensures(H::bind_buffer, (call, target.to_code(), vbo), ()),
    {
        self.host.bind_buffer(target.to_code(), vbo);
        proof {
            self.ops@ = self.ops@.push(Op::BindVertexBuffer { target, vbo: pointee(vbo) });
        }
    }

    fn set_vertex_buffer_data<V>(
        &mut self,
        target: VertexBufferTarget,
        usage: VertexBufferUsage,
        data: &[V],
    )
        ensures
            exists|call: &mut H|
                *call == old(self).host()
                && *final(call) == final(self).host()
                && call_ensures(
                       H::buffer_data::<V>,
                       (call, target.to_code(), data, usage.to_code()),
                       (),
                   ),
    {
        self.host.buffer_data(target.to_code(), data, usage.to_code());
        proof {
            self.ops@ = self.ops@.push(Op::VertexBufferData { target, usage, items: data@.len() });
        }
    }

    fn create_vertex_array(&mut self) -> (created: Result<H::VertexArrayObject, Error>)
        ensures
            match created {
                Ok(vao) => {
                    exists|call: &mut H|
                        *call == old(self).host()
                        && *final(call) == final(self).host()
                        && call_ensures(H::create_vertex_array, (call,), Some(vao))
                },
                Err(error) => {
                    exists|first: &mut H, second: &mut H|
                        *first == old(self).host()
                        && *final(first) == *second
                        && *final(second) == final(self).host()
                        && call_ensures(H::create_vertex_array, (first,), None)
                        && call_ensures(H::get_error, (second,), error.to_code())
                },
            },
    {
        let created = match self.host.create_vertex_array() {
            Some(vao) => Ok(vao),
            None => Err(Error::from_code(self.host.get_error())),
        };
        proof {
            self.ops@ = self.ops@.push(Op::CreateVertexArray { created });
        }
        created
    }

    fn delete_vertex_array(&mut self, vao: &H::VertexArrayObject)
        ensures
            exists|call: &mut H|
                *call == old(self).host()
                && *final(call) == final(self).host()
                && call_ensures(H::delete_vertex_array, (call, Some(vao)), ()),
    {
        self.host.delete_vertex_array(Some(vao));
        proof {
            self.ops@ = self.ops@.push(Op::DeleteVertexArray { vao: *vao });
        }
    }

    fn bind_vertex_array(&mut self, vao: Option<&H::VertexArrayObject>)
        ensures
            exists|call: &mut H|
                *call == old(self).host()
                && *final(call) == final(self).host()
                && call_ensures(H::bind_vertex_array, (call, vao), ()),
    {
        self.host.bind_vertex_array(vao);
        proof {
            self.ops@ = self.ops@.push(Op::BindVertexArray { vao: pointee(vao) });
        }
    }

    fn enable_vertex_attrib_array(&mut self, idx: u32)
        ensures
            exists|call: &mut H|
                *call == old(self).host()
                && *final(call) == final(self).host()
                && call_ensures(H::enable_vertex_attrib_array, (call, idx), ()),
    {
        self.host.enable_vertex_attrib_array(idx);
        proof {
            self.ops@ = self.ops@.push(Op::EnableVertexAttribArray { index: idx });
        }
    }

    fn set_vertex_attrib_pointer(
        &mut self,
        idx: u32,
        size: i32,
        ty: Type,
        normalize: bool,
        stride: i32,
        offset: i32,
    )
        ensures
            exists|call: &mut H|
                *call == old(self).host()
                && *final(call) == final(self).host()
                && call_ensures(
                       H::vertex_attrib_pointer,
                       (call, idx, size, ty.to_code(), normalize, stride, offset),
                       (),
                   ),
    {
        self.host.vertex_attrib_pointer(idx, size, ty.to_code(), normalize, stride, offset);
        proof {
            self.ops@ = self.ops@.push(
                Op::VertexAttribPointer { index: idx, size, ty, normalize, stride, offset },
            );
        }
    }

    fn create_texture(&mut self) -> (created: Result<H::Texture, Error>)
        ensures
            match created {
                Ok(texture) => {
                    exists|call: &mut H|
                        *call == old(self).host()
                        && *final(call) == final(self).host()
                        && call_ensures(H::create_texture, (call,), Some(texture))
                },
                Err(error) => {
                    exists|first: &mut H, second: &mut H|
                        *first == old(self).host()
                        && *final(first) == *second
                        && *final(second) == final(self).host()
                        && call_ensures(H::create_texture, (first,), None)
                        && call_ensures(H::get_error, (second,), error.to_code())
                },
            },
    {
        let created = match self.host.create_texture() {
            Some(texture) => Ok(texture),
            None => Err(Error::from_code(self.host.get_error())),
        };
        proof {
            self.ops@ = self.ops@.push(Op::CreateTexture { created });
        }
        created
    }

    fn delete_texture(&mut self, texture: &H::Texture)
        ensures
            exists|call: &mut H|
                *call == old(self).host()
                && *final(call) == final(self).host()
                && call_ensures(H::delete_texture, (call, Some(texture)), ()),
    {
        self.host.delete_texture(Some(texture));
        proof {
            self.ops@ = self.ops@.push(Op::DeleteTexture { texture: *texture });
        }
    }

    fn bind_texture(&mut self, target: TextureTarget, texture: Option<&H::Texture>)
        ensures
            exists|call: &mut H|
                *call == old(self).host()
                && *final(call) == final(self).host()
                && call_ensures(H::bind_texture, (call, target.to_code(), texture), ()),
    {
        self.host.bind_texture(target.to_code(), texture);
        proof {
            self.ops@ = self.ops@.push(Op::BindTexture { target, texture: pointee(texture) });
        }
    }

    fn set_active_texture_unit(&mut self, unit: u32)
        ensures
            exists|call: &mut H|
                *call == old(self).host()
                && *final(call) == final(self).host()
                && call_ensures(H::active_texture, (call, (codes::TEXTURE0 + unit) as u32), ()),
    {
        self.host.active_texture(codes::TEXTURE0 + unit);
        proof {
            self.ops@ = self.ops@.push(Op::ActiveTextureUnit { unit });
        }
    }

    fn set_texture_image_2d(
        &mut self,
        target: TextureTarget,
        internal_format: TextureInternalFormat,
        pixel_format: TexturePixelFormat,
        channel_type: Type,
        w: u32,
        h: u32,
        pixels: Option<&[u8]>,
    ) -> (outcome: Result<(), Error>)
        ensures
            match outcome {
                Ok(()) => {
                    exists|call: &mut H|
                        *call == old(self).host()
                        && *final(call) == final(self).host()
                        && call_ensures(
                               H::tex_image_2d,
                               (
                                   call,
                                   target.to_code(),
                                   0,
                                   signed(internal_format.to_code()),
                                   signed(w),
                                   signed(h),
                                   0,
                                   pixel_format.to_code(),
                                   channel_type.to_code(),
                                   pixels,
                               ),
                               true,
                           )
                },
                Err(error) => {
                    exists|first: &mut H, second: &mut H|
                        *first == old(self).host()
                        && *final(first) == *second
                        && *final(second) == final(self).host()
                        && call_ensures(
                               H::tex_image_2d,
                               (
                                   first,
                                   target.to_code(),
                                   0,
                                   signed(internal_format.to_code()),
                                   signed(w),
                                   signed(h),
                                   0,
                                   pixel_format.to_code(),
                                   channel_type.to_code(),
                                   pixels,
                               ),
                               false,
                           )
                        && call_ensures(H::get_error, (second,), error.to_code())
                },
            },
    {
        let accepted = self.host.tex_image_2d(
            target.to_code(),
            0,
            signed(internal_format.to_code()),
            signed(w),
            signed(h),
            0,
            pixel_format.to_code(),
            channel_type.to_code(),
            pixels,
        );
        let outcome = if accepted {
            Ok(())
        } else {
            Err(Error::from_code(self.host.get_error()))
        };
        proof {
            self.ops@ = self.ops@.push(
                Op::TextureImage2d {
                    target,
                    internal_format,
                    pixel_format,
                    channel_type,
                    w,
                    h,
                    pixels: bytes(pixels),
                    outcome: verdict(outcome),
                },
            );
        }
        outcome
    }

    fn set_texture_image_3d(
        &mut self,
        target: TextureTarget,
        internal_format: TextureInternalFormat,
        pixel_format: TexturePixelFormat,
        channel_type: Type,
        w: u32,
        h: u32,
        count: u32,
        pixels: Option<&[u8]>,
    ) -> (outcome: Result<(), Error>)
        ensures
            match outcome {
                Ok(()) => {
                    exists|call: &mut H|
                        *call == old(self).host()
                        && *final(call) == final(self).host()
                        && call_ensures(
                               H::tex_image_3d,
                               (
                                   call,
                                   target.to_code(),
                                   0,
                                   signed(internal_format.to_code()),
                                   signed(w),
                                   signed(h),
                                   signed(count),
                                   0,
                                   pixel_format.to_code(),
                                   channel_type.to_code(),
                                   pixels,
                               ),
                               true,
                           )
                },
                Err(error) => {
                    exists|first: &mut H, second: &mut H|
                        *first == old(self).host()
                        && *final(first) == *second
                        && *final(second) == final(self).host()
                        && call_ensures(
                               H::tex_image_3d,
                               (
                                   first,
                                   target.to_code(),
                                   0,
                                   signed(internal_format.to_code()),
                                   signed(w),
                                   signed(h),
                                   signed(count),
                                   0,
                                   pixel_format.to_code(),
                                   channel_type.to_code(),
                                   pixels,
                               ),
                               false,
                           )
                        && call_ensures(H::get_error, (second,), error.to_code())
                },
            },
    {
        let accepted = self.host.tex_image_3d(
            target.to_code(),
            0,
            signed(internal_format.to_code()),
            signed(w),
            signed(h),
            signed(count),
            0,
            pixel_format.to_code(),
            channel_type.to_code(),
            pixels,
        );
        let outcome = if accepted {
            Ok(())
        } else {
            Err(Error::from_code(self.host.get_error()))
        };
        proof {
            self.ops@ = self.ops@.push(
                Op::TextureImage3d {
                    target,
                    internal_format,
                    pixel_format,
                    channel_type,
                    w,
                    h,
                    count,
                    pixels: bytes(pixels),
                    outcome: verdict(outcome),
                },
            );
        }
        outcome
    }

    fn set_texture_sub_image_3d(
        &mut self,
        target: TextureTarget,
        pixel_format: TexturePixelFormat,
        channel_type: Type,
        x: u32,
        y: u32,
        z: u32,
        w: u32,
        h: u32,
        pixels: &[u8],
    ) -> (outcome: Result<(), Error>)
        ensures
            match outcome {
                Ok(()) => {
                    exists|call: &mut H|
                        *call == old(self).host()
                        && *final(call) == final(self).host()
                        && call_ensures(
                               H::tex_sub_image_3d,
                               (
                                   call,
                                   target.to_code(),
                                   0,
                                   signed(x),
                                   signed(y),
                                   signed(z),
                                   signed(w),
                                   signed(h),
                                   1,
                                   pixel_format.to_code(),
                                   channel_type.to_code(),
                                   Some(pixels),
                               ),
                               true,
                           )
                },
                Err(error) => {
                    exists|first: &mut H, second: &mut H|
                        *first == old(self).host()
                        && *final(first) == *second
                        && *final(second) == final(self).host()
                        && call_ensures(
                               H::tex_sub_image_3d,
                               (
                                   first,
                                   target.to_code(),
                                   0,
                                   signed(x),
                                   signed(y),
                                   signed(z),
                                   signed(w),
                                   signed(h),
                                   1,
                                   pixel_format.to_code(),
                                   channel_type.to_code(),
                                   Some(pixels),
                               ),
                               false,
                           )
                        && call_ensures(H::get_error, (second,), error.to_code())
                },
            },
    {
        let accepted = self.host.tex_sub_image_3d(
            target.to_code(),
            0,
            signed(x),
            signed(y),
            signed(z),
            signed(w),
            signed(h),
            1,
            pixel_format.to_code(),
            channel_type.to_code(),
            Some(pixels),
        );
        let outcome = if accepted {
            Ok(())
        } else {
            Err(Error::from_code(self.host.get_error()))
        };
        proof {
            self.ops@ = self.ops@.push(
                Op::TextureSubImage3d {
                    target,
                    pixel_format,
                    channel_type,
                    x,
                    y,
                    z,
                    w,
                    h,
                    pixels: pixels@,
                    outcome: verdict(outcome),
                },
            );
        }
        outcome
    }

    fn set_texture_filter(
        &mut self,
        target: TextureTarget,
        ty: TextureFilterType,
        filter: TextureFilter,
    )
        ensures
            exists|call: &mut H|
                *call == old(self).host()
                && *final(call) == final(self).host()
                && call_ensures(
                       H::tex_parameteri,
                       (call, target.to_code(), ty.to_code(), signed(filter.to_code())),
                       (),
                   ),
    {
        self.host.tex_parameteri(target.to_code(), ty.to_code(), signed(filter.to_code()));
        proof {
            self.ops@ = self.ops@.push(Op::TextureFilter { target, ty, filter });
        }
    }

    fn set_texture_compare_mode(&mut self, target: TextureTarget, mode: TextureCompareMode)
        ensures
            exists|call: &mut H|
                *call == old(self).host()
                && *final(call) == final(self).host()
                && call_ensures(
                       H::tex_parameteri,
                       (
                           call,
                           target.to_code(),
                           codes::TEXTURE_COMPARE_MODE,
                           signed(mode.to_code()),
                       ),
                       (),
                   ),
    {
        self.host.tex_parameteri(
            target.to_code(),
            codes::TEXTURE_COMPARE_MODE,
            signed(mode.to_code()),
        );
        proof {
            self.ops@ = self.ops@.push(Op::TextureCompareMode { target, mode });
        }
    }

    fn set_texture_compare_func(&mut self, target: TextureTarget, func: Func)
        ensures
            exists|call: &mut H|
                *call == old(self).host()
                && *final(call) == final(self).host()
                && call_ensures(
                       H::tex_parameteri,
                       (
                           call,
                           target.to_code(),
                           codes::TEXTURE_COMPARE_FUNC,
                           signed(func.to_code()),
                       ),
                       (),
                   ),
    {
        self.host.tex_parameteri(
            target.to_code(),
            codes::TEXTURE_COMPARE_FUNC,
            signed(func.to_code()),
        );
        proof {
            self.ops@ = self.ops@.push(Op::TextureCompareFunc { target, func });
        }
    }

    fn set_texture_wrap(&mut self, target: TextureTarget, wrap: TextureWrap)
        ensures
            exists|first: &mut H, second: &mut H|
                *first == old(self).host()
                && *final(first) == *second
                && *final(second) == final(self).host()
                && call_ensures(
                       H::tex_parameteri,
                       (first, target.to_code(), codes::TEXTURE_WRAP_S, signed(wrap.to_code())),
                       (),
                   )
                && call_ensures(
                       H::tex_parameteri,
                       (
                           second,
                           target.to_code(),
                           codes::TEXTURE_WRAP_T,
                           signed(wrap.to_code()),
                       ),
                       (),
                   ),
    {
        self.host.tex_parameteri(target.to_code(), codes::TEXTURE_WRAP_S, signed(wrap.to_code()));
        self.host.tex_parameteri(target.to_code(), codes::TEXTURE_WRAP_T, signed(wrap.to_code()));
        proof {
            self.ops@ = self.ops@.push(Op::TextureWrap { target, wrap });
        }
    }

    fn generate_mipmaps(&mut self, target: TextureTarget)
        ensures
            exists|call: &mut H|
                *call == old(self).host()
                && *final(call) == final(self).host()
                && call_ensures(H::generate_mipmap, (call, target.to_code()), ()),
    {
        self.host.generate_mipmap(target.to_code());
        proof {
            self.ops@ = self.ops@.push(Op::GenerateMipmaps { target });
        }
    }
}

} // verus!
