//! The native realization of the context abstraction.
//!
//! Every operation is a thin layer around one or a few entry points of
//! the driver. Handles are the integer names that the device hands out,
//! with zero standing for "no object"; errors are read from the
//! device's error flag.

use vstd::prelude::*;
use vstd::string::StringExecFns;

use crate::sys::codes;
use crate::sys::convert::attrib_index;
use crate::sys::convert::attrib_index_of;
use crate::sys::convert::signed;
use crate::sys::gl::bytes;
use crate::sys::gl::diagnostic;
use crate::sys::gl::pointee;
use crate::sys::gl::verdict;
use crate::sys::gl::BuiltinType;
use crate::sys::gl::DeviceError;
use crate::sys::gl::Gl;
use crate::sys::gl::Op;
use crate::sys::gl::OpOf;
use crate::sys::kinds::ClearMask;
use crate::sys::kinds::CullFace;
use crate::sys::kinds::Factor;
use crate::sys::kinds::FramebufferStatus;
use crate::sys::kinds::FrontFace;
use crate::sys::kinds::Func;
use crate::sys::kinds::Primitive;
use crate::sys::kinds::ShaderType;
use crate::sys::kinds::TextureCompareMode;
use crate::sys::kinds::TextureFilter;
use crate::sys::kinds::TextureFilterType;
use crate::sys::kinds::TextureInternalFormat;
use crate::sys::kinds::TexturePixelFormat;
use crate::sys::kinds::TextureTarget;
use crate::sys::kinds::TextureWrap;
use crate::sys::kinds::Type;
use crate::sys::kinds::VertexBufferTarget;
use crate::sys::kinds::VertexBufferUsage;
use crate::sys::opengl::driver::Driver;
use crate::sys::protected::Sealed;
use crate::text::hex;
use crate::text::hex_text;

verus! {

/// The code of the capability to convert the output to sRGB.
pub const FRAMEBUFFER_SRGB: u32 = 0x8DB9;

/// The code of the capability to sample fragments more than once.
pub const MULTISAMPLE: u32 = 0x809D;

/// The name of a program object on the device.
#[derive(Debug)]
pub struct Program(u32);

impl Program {
    /// The integer that the device uses for the object.
    pub closed spec fn id(&self) -> u32 {
        self.0
    }

    /// The integer that the device uses for the object.
    #[verifier::when_used_as_spec(id)]
    pub fn to_id(&self) -> (id: u32)
        ensures
            id == self.id(),
    {
        self.0
    }

    /// The integer that the device returned when it was asked for the
    /// object: its name, or zero if it handed out none.
    pub open spec fn name_of(created: Option<Self>) -> u32 {
        match created {
            Some(created) => created.id(),
            None => 0,
        }
    }
}

/// The name of a shader object on the device.
#[derive(Debug)]
pub struct Shader(u32);

impl Shader {
    /// The integer that the device uses for the object.
    pub closed spec fn id(&self) -> u32 {
        self.0
    }

    /// The integer that the device uses for the object.
    #[verifier::when_used_as_spec(id)]
    pub fn to_id(&self) -> (id: u32)
        ensures
            id == self.id(),
    {
        self.0
    }

    /// The integer that the device returned when it was asked for the
    /// object: its name, or zero if it handed out none.
    pub open spec fn name_of(created: Option<Self>) -> u32 {
        match created {
            Some(created) => created.id(),
            None => 0,
        }
    }
}

/// The name of a framebuffer object on the device.
#[derive(Debug)]
pub struct Framebuffer(u32);

impl Framebuffer {
    /// The integer that the device uses for the object.
    pub closed spec fn id(&self) -> u32 {
        self.0
    }

    /// The integer that the device uses for the object.
    #[verifier::when_used_as_spec(id)]
    pub fn to_id(&self) -> (id: u32)
        ensures
            id == self.id(),
    {
        self.0
    }

    /// The integer that designates the object, or zero for no object.
    pub open spec fn spec_id_or_zero(handle: Option<&Self>) -> u32 {
        match handle {
            Some(handle) => handle.id(),
            None => 0,
        }
    }

    /// The integer that designates the object, or zero for no object.
    #[verifier::when_used_as_spec(spec_id_or_zero)]
    pub fn id_or_zero(handle: Option<&Self>) -> (id: u32)
        ensures
            id == Self::spec_id_or_zero(handle),
    {
        match handle {
            Some(handle) => handle.0,
            None => 0,
        }
    }
}

/// The name of a texture object on the device.
#[derive(Debug)]
pub struct Texture(u32);

impl Texture {
    /// The integer that the device uses for the object.
    pub closed spec fn id(&self) -> u32 {
        self.0
    }

    /// The integer that the device uses for the object.
    #[verifier::when_used_as_spec(id)]
    pub fn to_id(&self) -> (id: u32)
        ensures
            id == self.id(),
    {
        self.0
    }

    /// The integer that designates the object, or zero for no object.
    pub open spec fn spec_id_or_zero(handle: Option<&Self>) -> u32 {
        match handle {
            Some(handle) => handle.id(),
            None => 0,
        }
    }

    /// The integer that designates the object, or zero for no object.
    #[verifier::when_used_as_spec(spec_id_or_zero)]
    pub fn id_or_zero(handle: Option<&Self>) -> (id: u32)
        ensures
            id == Self::spec_id_or_zero(handle),
    {
        match handle {
            Some(handle) => handle.0,
            None => 0,
        }
    }
}

/// The name of a vertex array object on the device.
#[derive(Debug)]
pub struct VertexArrayObject(u32);

impl VertexArrayObject {
    /// The integer that the device uses for the object.
    pub closed spec fn id(&self) -> u32 {
        self.0
    }

    /// The integer that the device uses for the object.
    #[verifier::when_used_as_spec(id)]
    pub fn to_id(&self) -> (id: u32)
        ensures
            id == self.id(),
    {
        self.0
    }

    /// The integer that designates the object, or zero for no object.
    pub open spec fn spec_id_or_zero(handle: Option<&Self>) -> u32 {
        match handle {
            Some(handle) => handle.id(),
            None => 0,
        }
    }

    /// The integer that designates the object, or zero for no object.
    #[verifier::when_used_as_spec(spec_id_or_zero)]
    pub fn id_or_zero(handle: Option<&Self>) -> (id: u32)
        ensures
            id == Self::spec_id_or_zero(handle),
    {
        match handle {
            Some(handle) => handle.0,
            None => 0,
        }
    }
}

/// The name of a vertex buffer object on the device.
#[derive(Debug)]
pub struct VertexBufferObject(u32);

impl VertexBufferObject {
    /// The integer that the device uses for the object.
    pub closed spec fn id(&self) -> u32 {
        self.0
    }

    /// The integer that the device uses for the object.
    #[verifier::when_used_as_spec(id)]
    pub fn to_id(&self) -> (id: u32)
        ensures
            id == self.id(),
    {
        self.0
    }

    /// The integer that designates the object, or zero for no object.
    pub open spec fn spec_id_or_zero(handle: Option<&Self>) -> u32 {
        match handle {
            Some(handle) => handle.id(),
            None => 0,
        }
    }

    /// The integer that designates the object, or zero for no object.
    #[verifier::when_used_as_spec(spec_id_or_zero)]
    pub fn id_or_zero(handle: Option<&Self>) -> (id: u32)
        ensures
            id == Self::spec_id_or_zero(handle),
    {
        match handle {
            Some(handle) => handle.0,
            None => 0,
        }
    }
}

/// The location of a uniform in a linked program.
#[derive(Debug)]
pub struct UniformLocation(i32);

impl UniformLocation {
    /// The index that the device uses for the uniform; -1 stands for a
    /// uniform that exists but was optimized out.
    pub closed spec fn index(&self) -> i32 {
        self.0
    }

    /// The index that the device uses for the uniform.
    #[verifier::when_used_as_spec(index)]
    pub fn to_index(&self) -> (index: i32)
        ensures
            index == self.index(),
    {
        self.0
    }
}

/// An error code read from the error flag of the device.
#[derive(Debug, PartialEq, Eq, Structural)]
pub struct Error(u32);

/// The name of an error code, for the codes that have one.
pub open spec fn error_name(code: u32) -> Option<Seq<char>> {
    if code == codes::INVALID_ENUM {
        Some("invalid enum"@)
    } else if code == codes::INVALID_VALUE {
        Some("invalid value"@)
    } else if code == codes::INVALID_OPERATION {
        Some("invalid operation"@)
    } else if code == codes::OUT_OF_MEMORY {
        Some("out of memory"@)
    } else if code == codes::INVALID_FRAMEBUFFER_OPERATION {
        Some("invalid framebuffer operation"@)
    } else {
        None
    }
}

/// The name of an error code, for the codes that have one.
pub fn error_name_of(code: u32) -> (name: Option<&'static str>)
    ensures
        match name {
            Some(name) => error_name(code) == Some(name@),
            None => error_name(code) is None,
        },
{
    if code == codes::INVALID_ENUM {
        Some("invalid enum")
    } else if code == codes::INVALID_VALUE {
        Some("invalid value")
    } else if code == codes::INVALID_OPERATION {
        Some("invalid operation")
    } else if code == codes::OUT_OF_MEMORY {
        Some("out of memory")
    } else if code == codes::INVALID_FRAMEBUFFER_OPERATION {
        Some("invalid framebuffer operation")
    } else {
        None
    }
}

/// The text that describes an error code: the name of the code, where
/// it has one, and the code in hexadecimal.
pub open spec fn error_text(code: u32) -> Seq<char> {
    match error_name(code) {
        Some(name) => "OpenGL error: "@ + name + " ("@ + hex_text(code as nat) + ")"@,
        None => "OpenGL error: "@ + hex_text(code as nat),
    }
}

impl Error {
    /// The raw error code.
    pub closed spec fn code(&self) -> u32 {
        self.0
    }

    /// The raw error code.
    #[verifier::when_used_as_spec(code)]
    pub fn to_code(&self) -> (code: u32)
        ensures
            code == self.code(),
    {
        self.0
    }

    /// The error with the given raw code.
    pub fn from_code(code: u32) -> (error: Self)
        ensures
            error.code() == code,
    {
        Error(code)
    }

    /// Two errors with the same code are the same error.
    pub proof fn lemma_code_determines(a: Self, b: Self)
        requires
            a.code() == b.code(),
        ensures
            a == b,
    {
    }
}

impl DeviceError for Error {
    open spec fn text(&self) -> Seq<char> {
        error_text(self.code())
    }

    fn describe(&self) -> (text: String) {
        let mut text = String::from_str("OpenGL error: ");
        let digits = hex(self.0);
        match error_name_of(self.0) {
            Some(name) => {
                text.append(name);
                text.append(" (");
                text.append(digits.as_str());
                text.append(")");
                assert(text@ =~= error_text(self.code()));
            },
            None => {
                text.append(digits.as_str());
                assert(text@ =~= error_text(self.code()));
            },
        }
        text
    }
}

/// A device-togglable rendering feature.
#[non_exhaustive]
#[derive(Clone, Copy, Debug, PartialEq, Eq, Structural)]
pub enum Capability {
    Blend,
    CullFace,
    DepthTest,
    FramebufferSRGB,
    Multisample,
    ScissorTest,
}

impl Capability {
    /// The code the device uses for the capability.
    pub open spec fn code(self) -> u32 {
        match self {
            Capability::Blend => codes::BLEND,
            Capability::CullFace => codes::CULL_FACE,
            Capability::DepthTest => codes::DEPTH_TEST,
            Capability::FramebufferSRGB => FRAMEBUFFER_SRGB,
            Capability::Multisample => MULTISAMPLE,
            Capability::ScissorTest => codes::SCISSOR_TEST,
        }
    }

    /// The code the device uses for the capability.
    #[verifier::when_used_as_spec(code)]
    pub fn to_code(self) -> (code: u32)
        ensures
            code == self.code(),
    {
        match self {
            Capability::Blend => codes::BLEND,
            Capability::CullFace => codes::CULL_FACE,
            Capability::DepthTest => codes::DEPTH_TEST,
            Capability::FramebufferSRGB => FRAMEBUFFER_SRGB,
            Capability::Multisample => MULTISAMPLE,
            Capability::ScissorTest => codes::SCISSOR_TEST,
        }
    }
}

/// The code that the error flag held when an outcome was derived from
/// it.
pub open spec fn code_of<T>(outcome: Result<T, Error>) -> u32 {
    match outcome {
        Ok(_) => codes::NO_ERROR,
        Err(error) => error.code(),
    }
}

/// Turn a code read from the error flag into an outcome: `NO_ERROR` is
/// success, every other code an error.
pub fn failure(code: u32) -> (outcome: Result<(), Error>)
    ensures
        code_of(outcome) == code,
        outcome is Ok <==> code == codes::NO_ERROR,
{
    if code == codes::NO_ERROR {
        Ok(())
    } else {
        Err(Error(code))
    }
}

/// The uniform location that a raw lookup result stands for: -1 is the
/// location of a uniform that exists but was optimized out, anything
/// below means that there is no such uniform.
pub closed spec fn uniform_index(raw: i32) -> Option<UniformLocation> {
    if raw >= -1 {
        Some(UniformLocation(raw))
    } else {
        None
    }
}

/// A raw lookup result of -1 or more stands for a location with that
/// index, anything below for none.
pub proof fn lemma_uniform_index(raw: i32)
    ensures
        match uniform_index(raw) {
            Some(location) => raw >= -1 && location.index() == raw,
            None => raw < -1,
        },
{
}

/// The raw result -1 means different things for the two kinds of
/// lookup: there is no attribute with the given name, while the
/// uniform with the given name exists but was optimized out. Every
/// other raw result means the same for both.
pub proof fn lemma_sentinels_differ(raw: i32)
    ensures
        attrib_index(-1i32) is None,
        uniform_index(-1i32) is Some,
        raw != -1 ==> (attrib_index(raw) is Some <==> uniform_index(raw) is Some),
{
}

/// The uniform location that a raw lookup result stands for.
pub fn uniform_index_of(raw: i32) -> (location: Option<UniformLocation>)
    ensures
        location == uniform_index(raw),
        match location {
            Some(location) => raw >= -1 && location.index() == raw,
            None => raw < -1,
        },
{
    if raw >= -1 {
        Some(UniformLocation(raw))
    } else {
        None
    }
}

/// The device's representation of a truth value.
pub open spec fn as_flag(value: bool) -> u8 {
    if value {
        1
    } else {
        0
    }
}

/// The device's representation of a truth value.
#[verifier::when_used_as_spec(as_flag)]
pub fn flag(value: bool) -> (flag: u8)
    ensures
        flag == as_flag(value),
{
    if value {
        1
    } else {
        0
    }
}

/// The version of the device interface that the native realization
/// asks for.
pub open spec fn interface_version() -> (u8, u8, Option<&'static str>) {
    (3, 3, None)
}

/// Retrieve the version of the device interface to use.
#[verifier::when_used_as_spec(interface_version)]
pub fn version() -> (version: (u8, u8, Option<&'static str>))
    ensures
        version == interface_version(),
{
    (3, 3, None)
}

/// The operations of the native realization.
pub type NativeOp = Op<
    Capability,
    Error,
    Framebuffer,
    Program,
    Shader,
    Texture,
    UniformLocation,
    VertexArrayObject,
    VertexBufferObject,
>;

/// The context in use: the connection to the device that is current
/// on the calling thread.
///
/// Every operation states which entry points of the driver it called,
/// in which order, with which arguments and with which results.
pub struct Context<D: Driver> {
    /// The entry points of the device.
    driver: D,
    /// The operations issued so far.
    ops: Ghost<Seq<NativeOp>>,
}

impl<D: Driver> Context<D> {
    /// The driver that the context calls.
    pub closed spec fn driver(&self) -> D {
        self.driver
    }

    /// Create a context on top of the entry points of a device.
    pub fn new(driver: D) -> (context: Self)
        ensures
            context.journal() == Seq::<NativeOp>::empty(),
            context.driver() == driver,
    {
        Context { driver, ops: Ghost(Seq::empty()) }
    }

    /// Give up the context for the driver it was created on.
    pub fn into_driver(self) -> (driver: D)
        ensures
            driver == self.driver(),
    {
        self.driver
    }

    /// Read a status flag of a shader and, if it is not set, fetch the
    /// diagnostic that the device holds for the shader.
    fn check_shader(&mut self, shader: &Shader, status_attrib: u32) -> (outcome: Result<
        (),
        Vec<u8>,
    >)
        ensures
            final(self).ops@ == old(self).ops@,
            match outcome {
                Ok(()) => {
                    exists|call: &mut D, status: i32|
                        *call == old(self).driver()
                        && *final(call) == final(self).driver()
                        && call_ensures(
                           D::get_shaderiv,
                           (call, shader.to_id(), status_attrib),
                           status,
                        )
                        && status != 0
                },
                Err(log) => {
                    exists|first: &mut D, second: &mut D, third: &mut D, len: i32|
                        *first == old(self).driver()
                        && *final(first) == *second
                        && *final(second) == *third
                        && *final(third) == final(self).driver()
                        && call_ensures(
                           D::get_shaderiv,
                           (first, shader.to_id(), status_attrib),
                           0,
                        )
                        && call_ensures(
                           D::get_shaderiv,
                           (second, shader.to_id(), codes::INFO_LOG_LENGTH),
                           len,
                        )
                        && call_ensures(
                           D::get_shader_info_log,
                           (third, shader.to_id(), len),
                           log,
                        )
                },
            },
    {
        let status = self.driver.get_shaderiv(shader.to_id(), status_attrib);
        if status == 0 {
            let len = self.driver.get_shaderiv(shader.to_id(), codes::INFO_LOG_LENGTH);
            let log = self.driver.get_shader_info_log(shader.to_id(), len);
            Err(log)
        } else {
            Ok(())
        }
    }

    /// Read a status flag of a program and, if it is not set, fetch the
    /// diagnostic that the device holds for the program.
    fn check_program(&mut self, program: &Program, status_attrib: u32) -> (outcome: Result<
        (),
        Vec<u8>,
    >)
        ensures
            final(self).ops@ == old(self).ops@,
            match outcome {
                Ok(()) => {
                    exists|call: &mut D, status: i32|
                        *call == old(self).driver()
                        && *final(call) == final(self).driver()
                        && call_ensures(
                           D::get_programiv,
                           (call, program.to_id(), status_attrib),
                           status,
                        )
                        && status != 0
                },
                Err(log) => {
                    exists|first: &mut D, second: &mut D, third: &mut D, len: i32|
                        *first == old(self).driver()
                        && *final(first) == *second
                        && *final(second) == *third
                        && *final(third) == final(self).driver()
                        && call_ensures(
                           D::get_programiv,
                           (first, program.to_id(), status_attrib),
                           0,
                        )
                        && call_ensures(
                           D::get_programiv,
                           (second, program.to_id(), codes::INFO_LOG_LENGTH),
                           len,
                        )
                        && call_ensures(
                           D::get_program_info_log,
                           (third, program.to_id(), len),
                           log,
                        )
                },
            },
    {
        let status = self.driver.get_programiv(program.to_id(), status_attrib);
        if status == 0 {
            let len = self.driver.get_programiv(program.to_id(), codes::INFO_LOG_LENGTH);
            let log = self.driver.get_program_info_log(program.to_id(), len);
            Err(log)
        } else {
            Ok(())
        }
    }

    /// Replace a part of the contents of the buffer bound to a target,
    /// starting `offset` bytes into the buffer.
    ///
    /// The operation is particular to the native realization and leaves
    /// no entry in the journal of operations.
    pub fn set_vertex_buffer_sub_data<V>(
        &mut self,
        target: VertexBufferTarget,
        data: &[V],
        offset: i32,
    )
        ensures
            final(self).journal() == old(self).journal(),
            exists|call: &mut D|
                *call == old(self).driver()
                && *final(call) == final(self).driver()
                && call_ensures(
                   D::buffer_sub_data::<V>,
                   (call, target.to_code(), offset, data),
                   (),
                ),
    {
        self.driver.buffer_sub_data(target.to_code(), offset, data);
    }
}

impl<D: Driver> Sealed for Context<D> {
}

impl<D: Driver> Gl for Context<D> {
    type Error = Error;

    type Capability = Capability;

    type Framebuffer = Framebuffer;

    type Program = Program;

    type Shader = Shader;

    type Texture = Texture;

    type UniformLocation = UniformLocation;

    type VertexArrayObject = VertexArrayObject;

    type VertexBufferObject = VertexBufferObject;

    closed spec fn journal(&self) -> Seq<OpOf<Self>> {
        self.ops@
    }

    /// A name is handed to the device as a NUL-terminated string, so
    /// it cannot hold a NUL character itself.
    open spec fn valid_name(name: Seq<char>) -> bool {
        !name.contains('\0')
    }

    open spec fn interface_version() -> (u8, u8, Option<&'static str>) {
        self::interface_version()
    }

    fn version() -> (version: (u8, u8, Option<&'static str>)) {
        self::version()
    }

    fn error(&mut self) -> (outcome: Result<(), Error>)
        ensures
            exists|call: &mut D|
                *call == old(self).driver()
                && *final(call) == final(self).driver()
                && call_ensures(D::get_error, (call,), code_of(outcome)),
            outcome matches Err(error) ==> error.to_code() != codes::NO_ERROR,
    {
        let code = self.driver.get_error();
        let outcome = failure(code);
        proof {
            self.ops@ = self.ops@.push(Op::Error { outcome: verdict(outcome) });
        }
        outcome
    }

    fn enable(&mut self, capability: Capability)
        ensures
            exists|call: &mut D|
                *call == old(self).driver()
                && *final(call) == final(self).driver()
                && call_ensures(D::enable, (call, capability.to_code()), ()),
    {
        self.driver.enable(capability.to_code());
        proof {
            self.ops@ = self.ops@.push(Op::Enable { capability });
        }
    }

    fn disable(&mut self, capability: Capability)
        ensures
            exists|call: &mut D|
                *call == old(self).driver()
                && *final(call) == final(self).driver()
                && call_ensures(D::disable, (call, capability.to_code()), ()),
    {
        self.driver.disable(capability.to_code());
        proof {
            self.ops@ = self.ops@.push(Op::Disable { capability });
        }
    }

    fn set_depth_func(&mut self, func: Func)
        ensures
            exists|call: &mut D|
                *call == old(self).driver()
                && *final(call) == final(self).driver()
                && call_ensures(D::depth_func, (call, func.to_code()), ()),
    {
        self.driver.depth_func(func.to_code());
        proof {
            self.ops@ = self.ops@.push(Op::DepthFunc { func });
        }
    }

    fn set_blend_func(&mut self, src_factor: Factor, dst_factor: Factor)
        ensures
            exists|call: &mut D|
                *call == old(self).driver()
                && *final(call) == final(self).driver()
                && call_ensures(
                       D::blend_func,
                       (call, src_factor.to_code(), dst_factor.to_code()),
                       (),
                   ),
    {
        self.driver.blend_func(src_factor.to_code(), dst_factor.to_code());
        proof {
            self.ops@ = self.ops@.push(Op::BlendFunc { src_factor, dst_factor });
        }
    }

    fn set_front_face(&mut self, face: FrontFace)
        ensures
            exists|call: &mut D|
                *call == old(self).driver()
                && *final(call) == final(self).driver()
                && call_ensures(D::front_face, (call, face.to_code()), ()),
    {
        self.driver.front_face(face.to_code());
        proof {
            self.ops@ = self.ops@.push(Op::FrontFace { face });
        }
    }

    fn set_cull_face(&mut self, face: CullFace)
        ensures
            exists|call: &mut D|
                *call == old(self).driver()
                && *final(call) == final(self).driver()
                && call_ensures(D::cull_face, (call, face.to_code()), ()),
    {
        self.driver.cull_face(face.to_code());
        proof {
            self.ops@ = self.ops@.push(Op::CullFace { face });
        }
    }

    fn set_viewport(&mut self, x: i32, y: i32, w: i32, h: i32)
        ensures
            exists|call: &mut D|
                *call == old(self).driver()
                && *final(call) == final(self).driver()
                && call_ensures(D::viewport, (call, x, y, w, h), ()),
    {
        self.driver.viewport(x, y, w, h);
        proof {
            self.ops@ = self.ops@.push(Op::Viewport { x, y, w, h });
        }
    }

    fn set_pixel_unpack_alignment(&mut self, alignment: u32)
        ensures
            exists|call: &mut D|
                *call == old(self).driver()
                && *final(call) == final(self).driver()
                && call_ensures(
                       D::pixel_storei,
                       (call, codes::UNPACK_ALIGNMENT, signed(alignment)),
                       (),
                   ),
    {
        self.driver.pixel_storei(codes::UNPACK_ALIGNMENT, signed(alignment));
        proof {
            self.ops@ = self.ops@.push(Op::PixelUnpackAlignment { alignment });
        }
    }

    fn clear(&mut self, mask: ClearMask)
        ensures
            exists|call: &mut D|
                *call == old(self).driver()
                && *final(call) == final(self).driver()
                && call_ensures(D::clear, (call, mask.to_bits()), ()),
    {
        self.driver.clear(mask.to_bits());
        proof {
            self.ops@ = self.ops@.push(Op::Clear { mask });
        }
    }

    fn draw_arrays(&mut self, primitive: Primitive, count: i32)
        ensures
            exists|call: &mut D|
                *call == old(self).driver()
                && *final(call) == final(self).driver()
                && call_ensures(D::draw_arrays, (call, primitive.to_code(), 0, count), ()),
    {
        self.driver.draw_arrays(primitive.to_code(), 0, count);
        proof {
            self.ops@ = self.ops@.push(Op::DrawArrays { primitive, count });
        }
    }

    fn draw_arrays_instanced(&mut self, primitive: Primitive, count: i32, instance_count: i32)
        ensures
            exists|call: &mut D|
                *call == old(self).driver()
                && *final(call) == final(self).driver()
                && call_ensures(
                       D::draw_arrays_instanced,
                       (call, primitive.to_code(), 0, count, instance_count),
                       (),
                   ),
    {
        self.driver.draw_arrays_instanced(primitive.to_code(), 0, count, instance_count);
        proof {
            self.ops@ = self.ops@.push(
                Op::DrawArraysInstanced { primitive, count, instance_count },
            );
        }
    }

    fn draw_elements<I: BuiltinType>(&mut self, primitive: Primitive, count: i32)
        ensures
            exists|call: &mut D|
                *call == old(self).driver()
                && *final(call) == final(self).driver()
                && call_ensures(
                       D::draw_elements,
                       (call, primitive.to_code(), count, I::type_of().to_code()),
                       (),
                   ),
    {
        let ty = I::as_type();
        self.driver.draw_elements(primitive.to_code(), count, ty.to_code());
        proof {
            self.ops@ = self.ops@.push(
                Op::DrawElements { primitive, count, index_type: I::type_of() },
            );
        }
    }

    fn create_framebuffer(&mut self) -> (created: Result<Framebuffer, Error>)
        ensures
            exists|first: &mut D, second: &mut D, id: u32|
                *first == old(self).driver()
                && *final(first) == *second
                && *final(second) == final(self).driver()
                && call_ensures(D::gen_framebuffer, (first,), id)
                && call_ensures(D::get_error, (second,), code_of(created))
                && (created matches Ok(fbo) ==> fbo.to_id() == id),
            created matches Err(error) ==> error.to_code() != codes::NO_ERROR,
    {
        let id = self.driver.gen_framebuffer();
        let code = self.driver.get_error();
        let created = match failure(code) {
            Ok(()) => Ok(Framebuffer(id)),
            Err(error) => Err(error),
        };
        proof {
            self.ops@ = self.ops@.push(Op::CreateFramebuffer { created });
        }
        created
    }

    fn delete_framebuffer(&mut self, fbo: &Framebuffer)
        ensures
            exists|call: &mut D|
                *call == old(self).driver()
                && *final(call) == final(self).driver()
                && call_ensures(D::delete_framebuffer, (call, fbo.to_id()), ()),
    {
        self.driver.delete_framebuffer(fbo.to_id());
        proof {
            self.ops@ = self.ops@.push(Op::DeleteFramebuffer { fbo: *fbo });
        }
    }

    fn bind_framebuffer(&mut self, fbo: Option<&Framebuffer>)
        ensures
            exists|call: &mut D|
                *call == old(self).driver()
                && *final(call) == final(self).driver()
                && call_ensures(
                       D::bind_framebuffer,
                       (call, codes::FRAMEBUFFER, Framebuffer::id_or_zero(fbo)),
                       (),
                   ),
    {
        self.driver.bind_framebuffer(codes::FRAMEBUFFER, Framebuffer::id_or_zero(fbo));
        proof {
            self.ops@ = self.ops@.push(Op::BindFramebuffer { fbo: pointee(fbo) });
        }
    }

    fn check_framebuffer_status(&mut self) -> (status: FramebufferStatus)
        ensures
            exists|call: &mut D|
                *call == old(self).driver()
                && *final(call) == final(self).driver()
                && call_ensures(
                       D::check_framebuffer_status,
                       (call, codes::FRAMEBUFFER),
                       status.to_code(),
                   ),
    {
        let code = self.driver.check_framebuffer_status(codes::FRAMEBUFFER);
        let status = FramebufferStatus::from_code(code);
        proof {
            self.ops@ = self.ops@.push(Op::CheckFramebufferStatus { status });
        }
        status
    }

    fn set_framebuffer_depth_texture(&mut self, texture_target: TextureTarget, texture: &Texture)
        ensures
            exists|call: &mut D|
                *call == old(self).driver()
                && *final(call) == final(self).driver()
                && call_ensures(
                       D::framebuffer_texture_2d,
                       (
                           call,
                           codes::FRAMEBUFFER,
                           codes::DEPTH_ATTACHMENT,
                           texture_target.to_code(),
                           texture.to_id(),
                           0,
                       ),
                       (),
                   ),
    {
        self.driver.framebuffer_texture_2d(
            codes::FRAMEBUFFER,
            codes::DEPTH_ATTACHMENT,
            texture_target.to_code(),
            texture.to_id(),
            0,
        );
        proof {
            self.ops@ = self.ops@.push(
                Op::FramebufferDepthTexture { target: texture_target, texture: *texture },
            );
        }
    }

    fn unset_draw_buffer(&mut self)
        ensures
            exists|call: &mut D|
                *call == old(self).driver()
                && *final(call) == final(self).driver()
                && call_ensures(D::draw_buffer, (call, codes::NONE), ()),
    {
        self.driver.draw_buffer(codes::NONE);
        proof {
            self.ops@ = self.ops@.push(Op::UnsetDrawBuffer);
        }
    }

    fn unset_read_buffer(&mut self)
        ensures
            exists|call: &mut D|
                *call == old(self).driver()
                && *final(call) == final(self).driver()
                && call_ensures(D::read_buffer, (call, codes::NONE), ()),
    {
        self.driver.read_buffer(codes::NONE);
        proof {
            self.ops@ = self.ops@.push(Op::UnsetReadBuffer);
        }
    }

    fn create_shader(&mut self, ty: ShaderType) -> (created: Option<Shader>)
        ensures
            exists|call: &mut D|
                *call == old(self).driver()
                && *final(call) == final(self).driver()
                && call_ensures(D::create_shader, (call, ty.to_code()), Shader::name_of(created)),
            created matches Some(shader) ==> shader.to_id() != 0,
    {
        let id = self.driver.create_shader(ty.to_code());
        let created = if id != 0 {
            Some(Shader(id))
        } else {
            None
        };
        proof {
            self.ops@ = self.ops@.push(Op::CreateShader { ty, created });
        }
        created
    }

    fn delete_shader(&mut self, shader: &Shader)
        ensures
            exists|call: &mut D|
                *call == old(self).driver()
                && *final(call) == final(self).driver()
                && call_ensures(D::delete_shader, (call, shader.to_id()), ()),
    {
        self.driver.delete_shader(shader.to_id());
        proof {
            self.ops@ = self.ops@.push(Op::DeleteShader { shader: *shader });
        }
    }

    fn set_shader_source(&mut self, shader: &Shader, source: &str)
        ensures
            exists|call: &mut D|
                *call == old(self).driver()
                && *final(call) == final(self).driver()
                && call_ensures(D::shader_source, (call, shader.to_id(), source), ()),
    {
        self.driver.shader_source(shader.to_id(), source);
        proof {
            self.ops@ = self.ops@.push(Op::ShaderSource { shader: *shader, source: source@ });
        }
    }

    fn compile_shader(&mut self, shader: &Shader) -> (outcome: Result<(), Vec<u8>>)
        ensures
            match outcome {
                Ok(()) => {
                    exists|first: &mut D, second: &mut D, status: i32|
                        *first == old(self).driver()
                        && *final(first) == *second
                        && *final(second) == final(self).driver()
                        && call_ensures(D::compile_shader, (first, shader.to_id()), ())
                        && call_ensures(
                               D::get_shaderiv,
                               (second, shader.to_id(), codes::COMPILE_STATUS),
                               status,
                           )
                        && status != 0
                },
                Err(log) => {
                    exists|first: &mut D, second: &mut D, third: &mut D, fourth: &mut D, len: i32|
                        *first == old(self).driver()
                        && *final(first) == *second
                        && *final(second) == *third
                        && *final(third) == *fourth
                        && *final(fourth) == final(self).driver()
                        && call_ensures(D::compile_shader, (first, shader.to_id()), ())
                        && call_ensures(
                               D::get_shaderiv,
                               (second, shader.to_id(), codes::COMPILE_STATUS),
                               0,
                           )
                        && call_ensures(
                               D::get_shaderiv,
                               (third, shader.to_id(), codes::INFO_LOG_LENGTH),
                               len,
                           )
                        && call_ensures(D::get_shader_info_log, (fourth, shader.to_id(), len), log)
                },
            },
    {
        self.driver.compile_shader(shader.to_id());
        let outcome = self.check_shader(shader, codes::COMPILE_STATUS);
        proof {
            self.ops@ = self.ops@.push(
                Op::CompileShader { shader: *shader, outcome: diagnostic(outcome) },
            );
        }
        outcome
    }

    fn attach_shader(&mut self, program: &Program, shader: &Shader)
        ensures
            exists|call: &mut D|
                *call == old(self).driver()
                && *final(call) == final(self).driver()
                && call_ensures(D::attach_shader, (call, program.to_id(), shader.to_id()), ()),
    {
        self.driver.attach_shader(program.to_id(), shader.to_id());
        proof {
            self.ops@ = self.ops@.push(Op::AttachShader { program: *program, shader: *shader });
        }
    }

    fn detach_shader(&mut self, program: &Program, shader: &Shader)
        ensures
            exists|call: &mut D|
                *call == old(self).driver()
                && *final(call) == final(self).driver()
                && call_ensures(D::detach_shader, (call, program.to_id(), shader.to_id()), ()),
    {
        self.driver.detach_shader(program.to_id(), shader.to_id());
        proof {
            self.ops@ = self.ops@.push(Op::DetachShader { program: *program, shader: *shader });
        }
    }

    fn create_program(&mut self) -> (created: Option<Program>)
        ensures
            exists|call: &mut D|
                *call == old(self).driver()
                && *final(call) == final(self).driver()
                && call_ensures(D::create_program, (call,), Program::name_of(created)),
            created matches Some(program) ==> program.to_id() != 0,
    {
        let id = self.driver.create_program();
        let created = if id != 0 {
            Some(Program(id))
        } else {
            None
        };
        proof {
            self.ops@ = self.ops@.push(Op::CreateProgram { created });
        }
        created
    }

    fn delete_program(&mut self, program: &Program)
        ensures
            exists|call: &mut D|
                *call == old(self).driver()
                && *final(call) == final(self).driver()
                && call_ensures(D::delete_program, (call, program.to_id()), ()),
    {
        self.driver.delete_program(program.to_id());
        proof {
            self.ops@ = self.ops@.push(Op::DeleteProgram { program: *program });
        }
    }

    fn link_program(&mut self, program: &Program) -> (outcome: Result<(), Vec<u8>>)
        ensures
            match outcome {
                Ok(()) => {
                    exists|first: &mut D, second: &mut D, status: i32|
                        *first == old(self).driver()
                        && *final(first) == *second
                        && *final(second) == final(self).driver()
                        && call_ensures(D::link_program, (first, program.to_id()), ())
                        && call_ensures(
                               D::get_programiv,
                               (second, program.to_id(), codes::LINK_STATUS),
                               status,
                           )
                        && status != 0
                },
                Err(log) => {
                    exists|first: &mut D, second: &mut D, third: &mut D, fourth: &mut D, len: i32|
                        *first == old(self).driver()
                        && *final(first) == *second
                        && *final(second) == *third
                        && *final(third) == *fourth
                        && *final(fourth) == final(self).driver()
                        && call_ensures(D::link_program, (first, program.to_id()), ())
                        && call_ensures(
                               D::get_programiv,
                               (second, program.to_id(), codes::LINK_STATUS),
                               0,
                           )
                        && call_ensures(
                               D::get_programiv,
                               (third, program.to_id(), codes::INFO_LOG_LENGTH),
                               len,
                           )
                        && call_ensures(
                               D::get_program_info_log,
                               (fourth, program.to_id(), len),
                               log,
                           )
                },
            },
    {
        self.driver.link_program(program.to_id());
        let outcome = self.check_program(program, codes::LINK_STATUS);
        proof {
            self.ops@ = self.ops@.push(
                Op::LinkProgram { program: *program, outcome: diagnostic(outcome) },
            );
        }
        outcome
    }

    fn validate_program(&mut self, program: &Program) -> (outcome: Result<(), Vec<u8>>)
        ensures
            match outcome {
                Ok(()) => {
                    exists|first: &mut D, second: &mut D, status: i32|
                        *first == old(self).driver()
                        && *final(first) == *second
                        && *final(second) == final(self).driver()
                        && call_ensures(D::validate_program, (first, program.to_id()), ())
                        && call_ensures(
                               D::get_programiv,
                               (second, program.to_id(), codes::VALIDATE_STATUS),
                               status,
                           )
                        && status != 0
                },
                Err(log) => {
                    exists|first: &mut D, second: &mut D, third: &mut D, fourth: &mut D, len: i32|
                        *first == old(self).driver()
                        && *final(first) == *second
                        && *final(second) == *third
                        && *final(third) == *fourth
                        && *final(fourth) == final(self).driver()
                        && call_ensures(D::validate_program, (first, program.to_id()), ())
                        && call_ensures(
                               D::get_programiv,
                               (second, program.to_id(), codes::VALIDATE_STATUS),
                               0,
                           )
                        && call_ensures(
                               D::get_programiv,
                               (third, program.to_id(), codes::INFO_LOG_LENGTH),
                               len,
                           )
                        && call_ensures(
                               D::get_program_info_log,
                               (fourth, program.to_id(), len),
                               log,
                           )
                },
            },
    {
        self.driver.validate_program(program.to_id());
        let outcome = self.check_program(program, codes::VALIDATE_STATUS);
        proof {
            self.ops@ = self.ops@.push(
                Op::ValidateProgram { program: *program, outcome: diagnostic(outcome) },
            );
        }
        outcome
    }

    fn use_program(&mut self, program: &Program)
        ensures
            exists|call: &mut D|
                *call == old(self).driver()
                && *final(call) == final(self).driver()
                && call_ensures(D::use_program, (call, program.to_id()), ()),
    {
        self.driver.use_program(program.to_id());
        proof {
            self.ops@ = self.ops@.push(Op::UseProgram { program: *program });
        }
    }

    fn attrib_location(&mut self, program: &Program, attrib: &str) -> (location: Option<u32>)
        ensures
            exists|call: &mut D, raw: i32|
                *call == old(self).driver()
                && *final(call) == final(self).driver()
                && call_ensures(D::get_attrib_location, (call, program.to_id(), attrib), raw)
                && location == attrib_index(raw),
    {
        let raw = self.driver.get_attrib_location(program.to_id(), attrib);
        let location = attrib_index_of(raw);
        proof {
            self.ops@ = self.ops@.push(
                Op::AttribLocation { program: *program, name: attrib@, location },
            );
        }
        location
    }

    fn uniform_location(
        &mut self,
        program: &Program,
        uniform: &str,
    ) -> (location: Option<UniformLocation>)
        ensures
            exists|call: &mut D, raw: i32|
                *call == old(self).driver()
                && *final(call) == final(self).driver()
                && call_ensures(D::get_uniform_location, (call, program.to_id(), uniform), raw)
                && location == uniform_index(raw),
    {
        let raw = self.driver.get_uniform_location(program.to_id(), uniform);
        let location = uniform_index_of(raw);
        proof {
            self.ops@ = self.ops@.push(
                Op::UniformLocation { program: *program, name: uniform@, location },
            );
        }
        location
    }

    fn set_uniform_1i(&mut self, location: &UniformLocation, data: i32)
        ensures
            exists|call: &mut D|
                *call == old(self).driver()
                && *final(call) == final(self).driver()
                && call_ensures(D::uniform_1i, (call, location.to_index(), data), ()),
    {
        self.driver.uniform_1i(location.to_index(), data);
        proof {
            self.ops@ = self.ops@.push(Op::Uniform1i { location: *location, value: data });
        }
    }

    fn set_uniform_1ui(&mut self, location: &UniformLocation, data: u32)
        ensures
            exists|call: &mut D|
                *call == old(self).driver()
                && *final(call) == final(self).driver()
                && call_ensures(D::uniform_1ui, (call, location.to_index(), data), ()),
    {
        self.driver.uniform_1ui(location.to_index(), data);
        proof {
            self.ops@ = self.ops@.push(Op::Uniform1ui { location: *location, value: data });
        }
    }

    fn set_uniform_1iv(&mut self, location: &UniformLocation, data: &[i32])
        ensures
            exists|call: &mut D|
                *call == old(self).driver()
                && *final(call) == final(self).driver()
                && call_ensures(D::uniform_1iv, (call, location.to_index(), data), ()),
    {
        self.driver.uniform_1iv(location.to_index(), data);
        proof {
            self.ops@ = self.ops@.push(Op::Uniform1iv { location: *location, values: data@ });
        }
    }

    fn create_vertex_buffer(&mut self) -> (created: Result<VertexBufferObject, Error>)
        ensures
            exists|first: &mut D, second: &mut D, id: u32|
                *first == old(self).driver()
                && *final(first) == *second
                && *final(second) == final(self).driver()
                && call_ensures(D::gen_buffer, (first,), id)
                && call_ensures(D::get_error, (second,), code_of(created))
                && (created matches Ok(vbo) ==> vbo.to_id() == id),
            created matches Err(error) ==> error.to_code() != codes::NO_ERROR,
    {
        let id = self.driver.gen_buffer();
        let code = self.driver.get_error();
        let created = match failure(code) {
            Ok(()) => Ok(VertexBufferObject(id)),
            Err(error) => Err(error),
        };
        proof {
            self.ops@ = self.ops@.push(Op::CreateVertexBuffer { created });
        }
        created
    }

    fn delete_vertex_buffer(&mut self, vbo: &VertexBufferObject)
        ensures
            exists|call: &mut D|
                *call == old(self).driver()
                && *final(call) == final(self).driver()
                && call_ensures(D::delete_buffer, (call, vbo.to_id()), ()),
    {
        self.driver.delete_buffer(vbo.to_id());
        proof {
            self.ops@ = self.ops@.push(Op::DeleteVertexBuffer { vbo: *vbo });
        }
    }

    fn bind_vertex_buffer(&mut self, target: VertexBufferTarget, vbo: Option<&VertexBufferObject>)
        ensures
            exists|call: &mut D|
                *call == old(self).driver()
                && *final(call) == final(self).driver()
                && call_ensures(
                       D::bind_buffer,
                       (call, target.to_code(), VertexBufferObject::id_or_zero(vbo)),
                       (),
                   ),
    {
        self.driver.bind_buffer(target.to_code(), VertexBufferObject::id_or_zero(vbo));
        proof {
            self.ops@ = self.ops@.push(Op::BindVertexBuffer { target, vbo: pointee(vbo) });
        }
    }

    fn set_vertex_buffer_data<V>(
        &mut self,
        target: VertexBufferTarget,
        usage: VertexBufferUsage,
        data: &[V],
    )
        ensures
            exists|call: &mut D|
                *call == old(self).driver()
                && *final(call) == final(self).driver()
                && call_ensures(
                       D::buffer_data::<V>,
                       (call, target.to_code(), data, usage.to_code()),
                       (),
                   ),
    {
        self.driver.buffer_data(target.to_code(), data, usage.to_code());
        proof {
            self.ops@ = self.ops@.push(Op::VertexBufferData { target, usage, items: data@.len() });
        }
    }

    fn create_vertex_array(&mut self) -> (created: Result<VertexArrayObject, Error>)
        ensures
            exists|first: &mut D, second: &mut D, id: u32|
                *first == old(self).driver()
                && *final(first) == *second
                && *final(second) == final(self).driver()
                && call_ensures(D::gen_vertex_array, (first,), id)
                && call_ensures(D::get_error, (second,), code_of(created))
                && (created matches Ok(vao) ==> vao.to_id() == id),
            created matches Err(error) ==> error.to_code() != codes::NO_ERROR,
    {
        let id = self.driver.gen_vertex_array();
        let code = self.driver.get_error();
        let created = match failure(code) {
            Ok(()) => Ok(VertexArrayObject(id)),
            Err(error) => Err(error),
        };
        proof {
            self.ops@ = self.ops@.push(Op::CreateVertexArray { created });
        }
        created
    }

    fn delete_vertex_array(&mut self, vao: &VertexArrayObject)
        ensures
            exists|call: &mut D|
                *call == old(self).driver()
                && *final(call) == final(self).driver()
                && call_ensures(D::delete_vertex_array, (call, vao.to_id()), ()),
    {
        self.driver.delete_vertex_array(vao.to_id());
        proof {
            self.ops@ = self.ops@.push(Op::DeleteVertexArray { vao: *vao });
        }
    }

    fn bind_vertex_array(&mut self, vao: Option<&VertexArrayObject>)
        ensures
            exists|call: &mut D|
                *call == old(self).driver()
                && *final(call) == final(self).driver()
                && call_ensures(
                       D::bind_vertex_array,
                       (call, VertexArrayObject::id_or_zero(vao)),
                       (),
                   ),
    {
        self.driver.bind_vertex_array(VertexArrayObject::id_or_zero(vao));
        proof {
            self.ops@ = self.ops@.push(Op::BindVertexArray { vao: pointee(vao) });
        }
    }

    fn enable_vertex_attrib_array(&mut self, idx: u32)
        ensures
            exists|call: &mut D|
                *call == old(self).driver()
                && *final(call) == final(self).driver()
                && call_ensures(D::enable_vertex_attrib_array, (call, idx), ()),
    {
        self.driver.enable_vertex_attrib_array(idx);
        proof {
            self.ops@ = self.ops@.push(Op::EnableVertexAttribArray { index: idx });
        }
    }

    fn set_vertex_attrib_pointer(
        &mut self,
        idx: u32,
        size: i32,
        ty: Type,
        normalize: bool,
        stride: i32,
        offset: i32,
    )
        ensures
            exists|call: &mut D|
                *call == old(self).driver()
                && *final(call) == final(self).driver()
                && call_ensures(
                       D::vertex_attrib_pointer,
                       (call, idx, size, ty.to_code(), flag(normalize), stride, offset),
                       (),
                   ),
    {
        self.driver.vertex_attrib_pointer(idx, size, ty.to_code(), flag(normalize), stride, offset);
        proof {
            self.ops@ = self.ops@.push(
                Op::VertexAttribPointer { index: idx, size, ty, normalize, stride, offset },
            );
        }
    }

    fn create_texture(&mut self) -> (created: Result<Texture, Error>)
        ensures
            exists|first: &mut D, second: &mut D, id: u32|
                *first == old(self).driver()
                && *final(first) == *second
                && *final(second) == final(self).driver()
                && call_ensures(D::gen_texture, (first,), id)
                && call_ensures(D::get_error, (second,), code_of(created))
                && (created matches Ok(texture) ==> texture.to_id() == id),
            created matches Err(error) ==> error.to_code() != codes::NO_ERROR,
    {
        let id = self.driver.gen_texture();
        let code = self.driver.get_error();
        let created = match failure(code) {
            Ok(()) => Ok(Texture(id)),
            Err(error) => Err(error),
        };
        proof {
            self.ops@ = self.ops@.push(Op::CreateTexture { created });
        }
        created
    }

    fn delete_texture(&mut self, texture: &Texture)
        ensures
            exists|call: &mut D|
                *call == old(self).driver()
                && *final(call) == final(self).driver()
                && call_ensures(D::delete_texture, (call, texture.to_id()), ()),
    {
        self.driver.delete_texture(texture.to_id());
        proof {
            self.ops@ = self.ops@.push(Op::DeleteTexture { texture: *texture });
        }
    }

    fn bind_texture(&mut self, target: TextureTarget, texture: Option<&Texture>)
        ensures
            exists|call: &mut D|
                *call == old(self).driver()
                && *final(call) == final(self).driver()
                && call_ensures(
                       D::bind_texture,
                       (call, target.to_code(), Texture::id_or_zero(texture)),
                       (),
                   ),
    {
        self.driver.bind_texture(target.to_code(), Texture::id_or_zero(texture));
        proof {
            self.ops@ = self.ops@.push(Op::BindTexture { target, texture: pointee(texture) });
        }
    }

    fn set_active_texture_unit(&mut self, unit: u32)
        ensures
            exists|call: &mut D|
                *call == old(self).driver()
                && *final(call) == final(self).driver()
                && call_ensures(D::active_texture, (call, (codes::TEXTURE0 + unit) as u32), ()),
    {
        self.driver.active_texture(codes::TEXTURE0 + unit);
        proof {
            self.ops@ = self.ops@.push(Op::ActiveTextureUnit { unit });
        }
    }

    fn set_texture_image_2d(
        &mut self,
        target: TextureTarget,
        internal_format: TextureInternalFormat,
        pixel_format: TexturePixelFormat,
        channel_type: Type,
        w: u32,
        h: u32,
        pixels: Option<&[u8]>,
    ) -> (outcome: Result<(), Error>)
        ensures
            exists|first: &mut D, second: &mut D|
                *first == old(self).driver()
                && *final(first) == *second
                && *final(second) == final(self).driver()
                && call_ensures(
                       D::tex_image_2d,
                       (
                           first,
                           target.to_code(),
                           0,
                           signed(internal_format.to_code()),
                           signed(w),
                           signed(h),
                           0,
                           pixel_format.to_code(),
                           channel_type.to_code(),
                           pixels,
                       ),
                       (),
                   )
                && call_ensures(D::get_error, (second,), code_of(outcome)),
            outcome matches Err(error) ==> error.to_code() != codes::NO_ERROR,
    {
        self.driver.tex_image_2d(
            target.to_code(),
            0,
            signed(internal_format.to_code()),
            signed(w),
            signed(h),
            0,
            pixel_format.to_code(),
            channel_type.to_code(),
            pixels,
        );
        let code = self.driver.get_error();
        let outcome = failure(code);
        proof {
            self.ops@ = self.ops@.push(
                Op::TextureImage2d {
                    target,
                    internal_format,
                    pixel_format,
                    channel_type,
                    w,
                    h,
                    pixels: bytes(pixels),
                    outcome: verdict(outcome),
                },
            );
        }
        outcome
    }

    fn set_texture_image_3d(
        &mut self,
        target: TextureTarget,
        internal_format: TextureInternalFormat,
        pixel_format: TexturePixelFormat,
        channel_type: Type,
        w: u32,
        h: u32,
        count: u32,
        pixels: Option<&[u8]>,
    ) -> (outcome: Result<(), Error>)
        ensures
            exists|first: &mut D, second: &mut D|
                *first == old(self).driver()
                && *final(first) == *second
                && *final(second) == final(self).driver()
                && call_ensures(
                       D::tex_image_3d,
                       (
                           first,
                           target.to_code(),
                           0,
                           signed(internal_format.to_code()),
                           signed(w),
                           signed(h),
                           signed(count),
                           0,
                           pixel_format.to_code(),
                           channel_type.to_code(),
                           pixels,
                       ),
                       (),
                   )
                && call_ensures(D::get_error, (second,), code_of(outcome)),
            outcome matches Err(error) ==> error.to_code() != codes::NO_ERROR,
    {
        self.driver.tex_image_3d(
            target.to_code(),
            0,
            signed(internal_format.to_code()),
            signed(w),
            signed(h),
            signed(count),
            0,
            pixel_format.to_code(),
            channel_type.to_code(),
            pixels,
        );
        let code = self.driver.get_error();
        let outcome = failure(code);
        proof {
            self.ops@ = self.ops@.push(
                Op::TextureImage3d {
                    target,
                    internal_format,
                    pixel_format,
                    channel_type,
                    w,
                    h,
                    count,
                    pixels: bytes(pixels),
                    outcome: verdict(outcome),
                },
            );
        }
        outcome
    }

    fn set_texture_sub_image_3d(
        &mut self,
        target: TextureTarget,
        pixel_format: TexturePixelFormat,
        channel_type: Type,
        x: u32,
        y: u32,
        z: u32,
        w: u32,
        h: u32,
        pixels: &[u8],
    ) -> (outcome: Result<(), Error>)
        ensures
            exists|first: &mut D, second: &mut D|
                *first == old(self).driver()
                && *final(first) == *second
                && *final(second) == final(self).driver()
                && call_ensures(
                       D::tex_sub_image_3d,
                       (
                           first,
                           target.to_code(),
                           0,
                           signed(x),
                           signed(y),
                           signed(z),
                           signed(w),
                           signed(h),
                           1,
                           pixel_format.to_code(),
                           channel_type.to_code(),
                           pixels,
                       ),
                       (),
                   )
                && call_ensures(D::get_error, (second,), code_of(outcome)),
            outcome matches Err(error) ==> error.to_code() != codes::NO_ERROR,
    {
        self.driver.tex_sub_image_3d(
            target.to_code(),
            0,
            signed(x),
            signed(y),
            signed(z),
            signed(w),
            signed(h),
            1,
            pixel_format.to_code(),
            channel_type.to_code(),
            pixels,
        );
        let code = self.driver.get_error();
        let outcome = failure(code);
        proof {
            self.ops@ = self.ops@.push(
                Op::TextureSubImage3d {
                    target,
                    pixel_format,
                    channel_type,
                    x,
                    y,
                    z,
                    w,
                    h,
                    pixels: pixels@,
                    outcome: verdict(outcome),
                },
            );
        }
        outcome
    }

    fn set_texture_filter(
        &mut self,
        target: TextureTarget,
        ty: TextureFilterType,
        filter: TextureFilter,
    )
        ensures
            exists|call: &mut D|
                *call == old(self).driver()
                && *final(call) == final(self).driver()
                && call_ensures(
                       D::tex_parameteri,
                       (call, target.to_code(), ty.to_code(), signed(filter.to_code())),
                       (),
                   ),
    {
        self.driver.tex_parameteri(target.to_code(), ty.to_code(), signed(filter.to_code()));
        proof {
            self.ops@ = self.ops@.push(Op::TextureFilter { target, ty, filter });
        }
    }

    fn set_texture_compare_mode(&mut self, target: TextureTarget, mode: TextureCompareMode)
        ensures
            exists|call: &mut D|
                *call == old(self).driver()
                && *final(call) == final(self).driver()
                && call_ensures(
                       D::tex_parameteri,
                       (
                           call,
                           target.to_code(),
                           codes::TEXTURE_COMPARE_MODE,
                           signed(mode.to_code()),
                       ),
                       (),
                   ),
    {
        self.driver.tex_parameteri(
            target.to_code(),
            codes::TEXTURE_COMPARE_MODE,
            signed(mode.to_code()),
        );
        proof {
            self.ops@ = self.ops@.push(Op::TextureCompareMode { target, mode });
        }
    }

    fn set_texture_compare_func(&mut self, target: TextureTarget, func: Func)
        ensures
            exists|call: &mut D|
                *call == old(self).driver()
                && *final(call) == final(self).driver()
                && call_ensures(
                       D::tex_parameteri,
                       (
                           call,
                           target.to_code(),
                           codes::TEXTURE_COMPARE_FUNC,
                           signed(func.to_code()),
                       ),
                       (),
                   ),
    {
        self.driver.tex_parameteri(
            target.to_code(),
            codes::TEXTURE_COMPARE_FUNC,
            signed(func.to_code()),
        );
        proof {
            self.ops@ = self.ops@.push(Op::TextureCompareFunc { target, func });
        }
    }

    fn set_texture_wrap(&mut self, target: TextureTarget, wrap: TextureWrap)
        ensures
            exists|first: &mut D, second: &mut D|
                *first == old(self).driver()
                && *final(first) == *second
                && *final(second) == final(self).driver()
                && call_ensures(
                       D::tex_parameteri,
                       (first, target.to_code(), codes::TEXTURE_WRAP_S, signed(wrap.to_code())),
                       (),
                   )
                && call_ensures(
                       D::tex_parameteri,
                       (
                           second,
                           target.to_code(),
                           codes::TEXTURE_WRAP_T,
                           signed(wrap.to_code()),
                       ),
                       (),
                   ),
    {
        self.driver.tex_parameteri(target.to_code(), codes::TEXTURE_WRAP_S, signed(wrap.to_code()));
        self.driver.tex_parameteri(target.to_code(), codes::TEXTURE_WRAP_T, signed(wrap.to_code()));
        proof {
            self.ops@ = self.ops@.push(Op::TextureWrap { target, wrap });
        }
    }

    fn generate_mipmaps(&mut self, target: TextureTarget)
        ensures
            exists|call: &mut D|
                *call == old(self).driver()
                && *final(call) == final(self).driver()
                && call_ensures(D::generate_mipmap, (call, target.to_code()), ()),
    {
        self.driver.generate_mipmap(target.to_code());
        proof {
            self.ops@ = self.ops@.push(Op::GenerateMipmaps { target });
        }
    }
}

} // verus!
