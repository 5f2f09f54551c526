//! The interface through which every device operation is issued.
//!
//! A context is the live connection to one rendering device. It keeps
//! a journal of the operations issued through it, each with what the
//! device answered; the contracts of this crate are stated over that
//! journal.

use vstd::prelude::*;

use crate::sys::kinds::ClearMask;
use crate::sys::kinds::CullFace;
use crate::sys::kinds::Factor;
use crate::sys::kinds::FramebufferStatus;
use crate::sys::kinds::FrontFace;
use crate::sys::kinds::Func;
use crate::sys::kinds::Primitive;
use crate::sys::kinds::ShaderType;
use crate::sys::kinds::TextureCompareMode;
use crate::sys::kinds::TextureFilter;
use crate::sys::kinds::TextureFilterType;
use crate::sys::kinds::TextureInternalFormat;
use crate::sys::kinds::TexturePixelFormat;
use crate::sys::kinds::TextureTarget;
use crate::sys::kinds::TextureWrap;
use crate::sys::kinds::Type;
use crate::sys::kinds::VertexBufferTarget;
use crate::sys::kinds::VertexBufferUsage;
use crate::sys::protected::Sealed;

verus! {

/// The largest texture unit whose code still fits the 32 bits of a
/// device enumeration.
pub const MAX_TEXTURE_UNIT: u32 = 0xFFFF_7B3F;

/// One operation issued through a context, with its arguments and with
/// what the device answered.
///
/// The type parameters are the capability, error and handle types of
/// the realization, in the order capability, error, framebuffer,
/// program, shader, texture, uniform location, vertex array, vertex
/// buffer.
#[allow(inconsistent_fields)]
pub enum Op<Cap, Fail, Fbo, Prog, Shd, Tex, Loc, Vao, Vbo> {
    /// Query the error state of the device.
    Error { outcome: Result<(), Fail> },
    /// Switch a capability on.
    Enable { capability: Cap },
    /// Switch a capability off.
    Disable { capability: Cap },
    /// Set the function used for depth comparisons.
    DepthFunc { func: Func },
    /// Set the factors used for blending.
    BlendFunc { src_factor: Factor, dst_factor: Factor },
    /// Set the winding order of front-facing polygons.
    FrontFace { face: FrontFace },
    /// Set the polygon faces to cull.
    CullFace { face: CullFace },
    /// Set the viewport rectangle.
    Viewport { x: i32, y: i32, w: i32, h: i32 },
    /// Set the row alignment of pixel data read from client memory.
    PixelUnpackAlignment { alignment: u32 },
    /// Clear the buffers that the mask selects.
    Clear { mask: ClearMask },
    /// Draw `count` vertices of the bound arrays, starting at the first.
    DrawArrays { primitive: Primitive, count: i32 },
    /// Draw `instance_count` instances of `count` vertices of the bound arrays.
    DrawArraysInstanced { primitive: Primitive, count: i32, instance_count: i32 },
    /// Draw `count` elements of the bound element array, with indices of a type
    /// that the device can read.
    DrawElements { primitive: Primitive, count: i32, index_type: Type },
    /// Create a framebuffer object.
    CreateFramebuffer { created: Result<Fbo, Fail> },
    /// Delete a framebuffer object.
    DeleteFramebuffer { fbo: Fbo },
    /// Bind a framebuffer object, or the default framebuffer if there is none.
    BindFramebuffer { fbo: Option<Fbo> },
    /// Query the completeness of the bound framebuffer.
    CheckFramebufferStatus { status: FramebufferStatus },
    /// Attach a texture to the bound framebuffer as its depth target.
    FramebufferDepthTexture { target: TextureTarget, texture: Tex },
    /// Declare that the bound framebuffer has no color buffer to draw to.
    UnsetDrawBuffer,
    /// Declare that the bound framebuffer has no color buffer to read from.
    UnsetReadBuffer,
    /// Create a shader object for the given stage.
    CreateShader { ty: ShaderType, created: Option<Shd> },
    /// Delete a shader object.
    DeleteShader { shader: Shd },
    /// Replace the source text of a shader.
    ShaderSource { shader: Shd, source: Seq<char> },
    /// Compile a shader.
    CompileShader { shader: Shd, outcome: Result<(), Seq<u8>> },
    /// Attach a shader to a program.
    AttachShader { program: Prog, shader: Shd },
    /// Detach a shader from a program.
    DetachShader { program: Prog, shader: Shd },
    /// Create a program object.
    CreateProgram { created: Option<Prog> },
    /// Delete a program object.
    DeleteProgram { program: Prog },
    /// Link a program.
    LinkProgram { program: Prog, outcome: Result<(), Seq<u8>> },
    /// Validate a program against the current state.
    ValidateProgram { program: Prog, outcome: Result<(), Seq<u8>> },
    /// Make a program the current one.
    UseProgram { program: Prog },
    /// Look up the index of a vertex attribute of a linked program.
    AttribLocation { program: Prog, name: Seq<char>, location: Option<u32> },
    /// Look up the location of a uniform of a linked program.
    UniformLocation { program: Prog, name: Seq<char>, location: Option<Loc> },
    /// Set a signed integer uniform of the current program.
    Uniform1i { location: Loc, value: i32 },
    /// Set an unsigned integer uniform of the current program.
    Uniform1ui { location: Loc, value: u32 },
    /// Set an array of signed integer uniforms of the current program.
    Uniform1iv { location: Loc, values: Seq<i32> },
    /// Create a vertex buffer object.
    CreateVertexBuffer { created: Result<Vbo, Fail> },
    /// Delete a vertex buffer object.
    DeleteVertexBuffer { vbo: Vbo },
    /// Bind a vertex buffer object to a target, or nothing if there is none.
    BindVertexBuffer { target: VertexBufferTarget, vbo: Option<Vbo> },
    /// Replace the contents of the buffer bound to a target.
    VertexBufferData { target: VertexBufferTarget, usage: VertexBufferUsage, items: nat },
    /// Create a vertex array object.
    CreateVertexArray { created: Result<Vao, Fail> },
    /// Delete a vertex array object.
    DeleteVertexArray { vao: Vao },
    /// Bind a vertex array object, or nothing if there is none.
    BindVertexArray { vao: Option<Vao> },
    /// Enable the vertex attribute with the given index.
    EnableVertexAttribArray { index: u32 },
    /// Describe the layout of a vertex attribute in the bound vertex buffer.
    VertexAttribPointer {
        index: u32,
        size: i32,
        ty: Type,
        normalize: bool,
        stride: i32,
        offset: i32,
    },
    /// Create a texture object.
    CreateTexture { created: Result<Tex, Fail> },
    /// Delete a texture object.
    DeleteTexture { texture: Tex },
    /// Bind a texture object to a target, or nothing if there is none.
    BindTexture { target: TextureTarget, texture: Option<Tex> },
    /// Select the texture unit that subsequent texture operations affect.
    ActiveTextureUnit { unit: u32 },
    /// Define the image of the 2D texture bound to a target.
    TextureImage2d {
        target: TextureTarget,
        internal_format: TextureInternalFormat,
        pixel_format: TexturePixelFormat,
        channel_type: Type,
        w: u32,
        h: u32,
        pixels: Option<Seq<u8>>,
        outcome: Result<(), Fail>,
    },
    /// Define the images of the array texture bound to a target.
    TextureImage3d {
        target: TextureTarget,
        internal_format: TextureInternalFormat,
        pixel_format: TexturePixelFormat,
        channel_type: Type,
        w: u32,
        h: u32,
        count: u32,
        pixels: Option<Seq<u8>>,
        outcome: Result<(), Fail>,
    },
    /// Replace one layer of a region of the array texture bound to a target.
    TextureSubImage3d {
        target: TextureTarget,
        pixel_format: TexturePixelFormat,
        channel_type: Type,
        x: u32,
        y: u32,
        z: u32,
        w: u32,
        h: u32,
        pixels: Seq<u8>,
        outcome: Result<(), Fail>,
    },
    /// Set a filter of the texture bound to a target.
    TextureFilter { target: TextureTarget, ty: TextureFilterType, filter: TextureFilter },
    /// Set the comparison mode of the texture bound to a target.
    TextureCompareMode { target: TextureTarget, mode: TextureCompareMode },
    /// Set the comparison function of the texture bound to a target.
    TextureCompareFunc { target: TextureTarget, func: Func },
    /// Set the wrapping of the texture bound to a target, in both directions.
    TextureWrap { target: TextureTarget, wrap: TextureWrap },
    /// Generate the mipmaps of the texture bound to a target.
    GenerateMipmaps { target: TextureTarget },
}

/// The operations of the realization `G`.
pub type OpOf<G> = Op<
    <G as Gl>::Capability,
    <G as Gl>::Error,
    <G as Gl>::Framebuffer,
    <G as Gl>::Program,
    <G as Gl>::Shader,
    <G as Gl>::Texture,
    <G as Gl>::UniformLocation,
    <G as Gl>::VertexArrayObject,
    <G as Gl>::VertexBufferObject,
>;

impl<Cap, Fail, Fbo, Prog, Shd, Tex, Loc, Vao, Vbo> Op<
    Cap,
    Fail,
    Fbo,
    Prog,
    Shd,
    Tex,
    Loc,
    Vao,
    Vbo,
> {
    /// Whether the operation left a new object on the device.
    pub open spec fn creates(self) -> bool {
        match self {
            Op::CreateFramebuffer { created } => created is Ok,
            Op::CreateShader { ty, created } => created is Some,
            Op::CreateProgram { created } => created is Some,
            Op::CreateVertexBuffer { created } => created is Ok,
            Op::CreateVertexArray { created } => created is Ok,
            Op::CreateTexture { created } => created is Ok,
            _ => false,
        }
    }

    /// Whether the operation took an object off the device.
    pub open spec fn deletes(self) -> bool {
        match self {
            Op::DeleteFramebuffer { fbo } => true,
            Op::DeleteShader { shader } => true,
            Op::DeleteProgram { program } => true,
            Op::DeleteVertexBuffer { vbo } => true,
            Op::DeleteVertexArray { vao } => true,
            Op::DeleteTexture { texture } => true,
            _ => false,
        }
    }

    /// The change that the operation makes to the number of objects on
    /// the device.
    pub open spec fn change(self) -> int {
        if self.creates() {
            1
        } else if self.deletes() {
            -1
        } else {
            0
        }
    }
}

/// The change that the given operations make to the number of objects
/// on the device: the objects created minus the objects deleted.
pub open spec fn balance<Cap, Fail, Fbo, Prog, Shd, Tex, Loc, Vao, Vbo>(
    ops: Seq<Op<Cap, Fail, Fbo, Prog, Shd, Tex, Loc, Vao, Vbo>>,
) -> int
    decreases ops.len(),
{
    if ops.len() == 0 {
        0
    } else {
        balance(ops.drop_last()) + ops.last().change()
    }
}

/// One more operation adds its own change to the balance.
pub proof fn lemma_balance_push<Cap, Fail, Fbo, Prog, Shd, Tex, Loc, Vao, Vbo>(
    ops: Seq<Op<Cap, Fail, Fbo, Prog, Shd, Tex, Loc, Vao, Vbo>>,
    op: Op<Cap, Fail, Fbo, Prog, Shd, Tex, Loc, Vao, Vbo>,
)
    ensures
        balance(ops.push(op)) == balance(ops) + op.change(),
{
    assert(ops.push(op).drop_last() =~= ops);
}

/// The balance of operations in a row is the sum of their balances.
pub proof fn lemma_balance_add<Cap, Fail, Fbo, Prog, Shd, Tex, Loc, Vao, Vbo>(
    first: Seq<Op<Cap, Fail, Fbo, Prog, Shd, Tex, Loc, Vao, Vbo>>,
    second: Seq<Op<Cap, Fail, Fbo, Prog, Shd, Tex, Loc, Vao, Vbo>>,
)
    ensures
        balance(first + second) == balance(first) + balance(second),
    decreases second.len(),
{
    if second.len() == 0 {
        assert(first + second =~= first);
    } else {
        assert((first + second).drop_last() =~= first + second.drop_last());
        lemma_balance_add(first, second.drop_last());
    }
}

/// Operations that neither create nor delete an object leave the
/// balance at zero.
pub proof fn lemma_balance_neutral<Cap, Fail, Fbo, Prog, Shd, Tex, Loc, Vao, Vbo>(
    ops: Seq<Op<Cap, Fail, Fbo, Prog, Shd, Tex, Loc, Vao, Vbo>>,
)
    requires
        forall|i: int| 0 <= i < ops.len() ==> (#[trigger] ops[i]).change() == 0,
    ensures
        balance(ops) == 0,
    decreases ops.len(),
{
    if ops.len() > 0 {
        lemma_balance_neutral(ops.drop_last());
    }
}

/// The object that an optional reference designates, if any.
pub open spec fn pointee<T>(handle: Option<&T>) -> Option<T> {
    match handle {
        Some(handle) => Some(*handle),
        None => None,
    }
}

/// The bytes of an optional buffer, if any.
pub open spec fn bytes(buffer: Option<&[u8]>) -> Option<Seq<u8>> {
    match buffer {
        Some(buffer) => Some(buffer@),
        None => None,
    }
}

/// The outcome of an operation that the device accepts or refuses.
pub open spec fn verdict<E>(outcome: Result<(), E>) -> Result<(), E> {
    match outcome {
        Ok(_) => Ok(()),
        Err(error) => Err(error),
    }
}

/// The outcome of a compile, link or validate step, with the raw
/// diagnostic of a failure as a sequence of bytes.
pub open spec fn diagnostic(outcome: Result<(), Vec<u8>>) -> Result<(), Seq<u8>> {
    match outcome {
        Ok(()) => Ok(()),
        Err(log) => Err(log@),
    }
}

/// Whether the journal `after` continues the journal `before`: nothing
/// that was recorded is lost or changed.
pub open spec fn extends<T>(before: Seq<T>, after: Seq<T>) -> bool {
    before.is_prefix_of(after)
}

/// The entries that the journal `after` holds beyond those of the
/// journal `before`, oldest first.
pub open spec fn issued<T>(before: Seq<T>, after: Seq<T>) -> Seq<T> {
    after.skip(before.len() as int)
}

/// A journal that grew by `entries` continues the journal it grew from,
/// and what it holds beyond are exactly those entries.
pub proof fn lemma_issued<T>(before: Seq<T>, entries: Seq<T>)
    ensures
        extends(before, before + entries),
        issued(before, before + entries) == entries,
{
    assert((before + entries).skip(before.len() as int) =~= entries);
}

/// A journal that continues another one is that journal followed by
/// the entries it holds beyond.
pub proof fn lemma_continued<T>(before: Seq<T>, after: Seq<T>)
    requires
        extends(before, after),
    ensures
        after == before + issued(before, after),
{
    assert(after =~= before + after.skip(before.len() as int));
}

/// An error code reported by a device, with the text that describes it.
pub trait DeviceError: Sized {
    /// The text that describes the error.
    spec fn text(&self) -> Seq<char>;

    /// The text that describes the error.
    fn describe(&self) -> (text: String)
        ensures
            text@ == self.text(),
    ;
}

/// A type of element index that the device can read from an element
/// array.
pub trait BuiltinType: Sealed {
    /// The device's name for the type.
    spec fn type_of() -> Type;

    /// The device's name for the type.
    fn as_type() -> (ty: Type)
        ensures
            ty == Self::type_of(),
    ;
}

impl BuiltinType for u16 {
    open spec fn type_of() -> Type {
        Type::UnsignedShort
    }

    fn as_type() -> (ty: Type) {
        Type::UnsignedShort
    }
}

/// Whether the versions of the device interface and of its shading
/// language are in step from this version on.
pub open spec fn version_supported(version: (u8, u8, Option<&'static str>)) -> bool {
    match version.2 {
        Some(suffix) if suffix@ == "es"@ => version.0 >= 3,
        _ => version.0 > 3 || (version.0 == 3 && version.1 >= 3),
    }
}

/// The context abstraction: every stateful device operation, the same
/// for each realization.
///
/// Every operation appends exactly one entry to the journal of the
/// context: the operation, its arguments and the device's answer.
pub trait Gl: Sealed + Sized {
    /// The error that the device reports.
    type Error: DeviceError;

    /// A device-togglable rendering feature.
    type Capability: Copy;

    /// The handle of a framebuffer object.
    type Framebuffer;

    /// The handle of a program object.
    type Program;

    /// The handle of a shader object.
    type Shader;

    /// The handle of a texture object.
    type Texture;

    /// The location of a uniform in a linked program.
    type UniformLocation;

    /// The handle of a vertex array object.
    type VertexArrayObject;

    /// The handle of a vertex buffer object.
    type VertexBufferObject;

    /// The operations issued through the context so far, oldest first.
    spec fn journal(&self) -> Seq<OpOf<Self>>;

    /// Whether a name can be handed to the device for a lookup.
    spec fn valid_name(name: Seq<char>) -> bool;

    /// The version of the device interface: major, minor and an
    /// optional profile suffix.
    spec fn interface_version() -> (u8, u8, Option<&'static str>);

    /// Retrieve the version of the device interface to use.
    fn version() -> (version: (u8, u8, Option<&'static str>))
        ensures
            version == Self::interface_version(),
            version_supported(version),
    ;

    /// Query the error state of the device.
    fn error(&mut self) -> (outcome: Result<(), Self::Error>)
        ensures
            final(self).journal() == old(self).journal().push(
                Op::Error { outcome: verdict(outcome) },
            ),
    ;

    /// Switch a capability on.
    fn enable(&mut self, capability: Self::Capability)
        ensures
            final(self).journal() == old(self).journal().push(Op::Enable { capability }),
    ;

    /// Switch a capability off.
    fn disable(&mut self, capability: Self::Capability)
        ensures
            final(self).journal() == old(self).journal().push(Op::Disable { capability }),
    ;

    /// Set the function used for depth comparisons.
    fn set_depth_func(&mut self, func: Func)
        ensures
            final(self).journal() == old(self).journal().push(Op::DepthFunc { func }),
    ;

    /// Set the factors used for blending.
    fn set_blend_func(&mut self, src_factor: Factor, dst_factor: Factor)
        ensures
            final(self).journal() == old(self).journal().push(
                Op::BlendFunc { src_factor, dst_factor },
            ),
    ;

    /// Set the winding order of front-facing polygons.
    fn set_front_face(&mut self, face: FrontFace)
        ensures
            final(self).journal() == old(self).journal().push(Op::FrontFace { face }),
    ;

    /// Set the polygon faces to cull.
    fn set_cull_face(&mut self, face: CullFace)
        ensures
            final(self).journal() == old(self).journal().push(Op::CullFace { face }),
    ;

    /// Set the viewport rectangle.
    fn set_viewport(&mut self, x: i32, y: i32, w: i32, h: i32)
        ensures
            final(self).journal() == old(self).journal().push(Op::Viewport { x, y, w, h }),
    ;

    /// Set the row alignment of pixel data read from client memory.
    fn set_pixel_unpack_alignment(&mut self, alignment: u32)
        ensures
            final(self).journal() == old(self).journal().push(
                Op::PixelUnpackAlignment { alignment },
            ),
    ;

    /// Clear the buffers that the mask selects.
    fn clear(&mut self, mask: ClearMask)
        ensures
            final(self).journal() == old(self).journal().push(Op::Clear { mask }),
    ;

    /// Draw `count` vertices of the bound arrays, starting at the first.
    fn draw_arrays(&mut self, primitive: Primitive, count: i32)
        ensures
            final(self).journal() == old(self).journal().push(Op::DrawArrays { primitive, count }),
    ;

    /// Draw `instance_count` instances of `count` vertices of the bound arrays.
    fn draw_arrays_instanced(&mut self, primitive: Primitive, count: i32, instance_count: i32)
        ensures
            final(self).journal() == old(self).journal().push(
                Op::DrawArraysInstanced { primitive, count, instance_count },
            ),
    ;

    /// Draw `count` elements of the bound element array, with indices of a type
    /// that the device can read.
    fn draw_elements<I: BuiltinType>(&mut self, primitive: Primitive, count: i32)
        ensures
            final(self).journal() == old(self).journal().push(
                Op::DrawElements { primitive, count, index_type: I::type_of() },
            ),
    ;

    /// Create a framebuffer object.
    fn create_framebuffer(&mut self) -> (created: Result<Self::Framebuffer, Self::Error>)
        ensures
            final(self).journal() == old(self).journal().push(Op::CreateFramebuffer { created }),
    ;

    /// Delete a framebuffer object.
    fn delete_framebuffer(&mut self, fbo: &Self::Framebuffer)
        ensures
            final(self).journal() == old(self).journal().push(Op::DeleteFramebuffer { fbo: *fbo }),
    ;

    /// Bind a framebuffer object, or the default framebuffer if there is none.
    fn bind_framebuffer(&mut self, fbo: Option<&Self::Framebuffer>)
        ensures
            final(self).journal() == old(self).journal().push(
                Op::BindFramebuffer { fbo: pointee(fbo) },
            ),
    ;

    /// Query the completeness of the bound framebuffer.
    fn check_framebuffer_status(&mut self) -> (status: FramebufferStatus)
        ensures
            final(self).journal() == old(self).journal().push(
                Op::CheckFramebufferStatus { status },
            ),
    ;

    /// Attach a texture to the bound framebuffer as its depth target.
    fn set_framebuffer_depth_texture(
        &mut self,
        texture_target: TextureTarget,
        texture: &Self::Texture,
    )
        ensures
            final(self).journal() == old(self).journal().push(
                Op::FramebufferDepthTexture { target: texture_target, texture: *texture },
            ),
    ;

    /// Declare that the bound framebuffer has no color buffer to draw to.
    fn unset_draw_buffer(&mut self)
        ensures
            final(self).journal() == old(self).journal().push(Op::UnsetDrawBuffer),
    ;

    /// Declare that the bound framebuffer has no color buffer to read from.
    fn unset_read_buffer(&mut self)
        ensures
            final(self).journal() == old(self).journal().push(Op::UnsetReadBuffer),
    ;

    /// Create a shader object for the given stage.
    fn create_shader(&mut self, ty: ShaderType) -> (created: Option<Self::Shader>)
        ensures
            final(self).journal() == old(self).journal().push(Op::CreateShader { ty, created }),
    ;

    /// Delete a shader object.
    fn delete_shader(&mut self, shader: &Self::Shader)
        ensures
            final(self).journal() == old(self).journal().push(Op::DeleteShader { shader: *shader }),
    ;

    /// Replace the source text of a shader.
    fn set_shader_source(&mut self, shader: &Self::Shader, source: &str)
        ensures
            final(self).journal() == old(self).journal().push(
                Op::ShaderSource { shader: *shader, source: source@ },
            ),
    ;

    /// Compile a shader; on failure the raw diagnostic is returned.
    fn compile_shader(&mut self, shader: &Self::Shader) -> (outcome: Result<(), Vec<u8>>)
        ensures
            final(self).journal() == old(self).journal().push(
                Op::CompileShader { shader: *shader, outcome: diagnostic(outcome) },
            ),
    ;

    /// Attach a shader to a program.
    fn attach_shader(&mut self, program: &Self::Program, shader: &Self::Shader)
        ensures
            final(self).journal() == old(self).journal().push(
                Op::AttachShader { program: *program, shader: *shader },
            ),
    ;

    /// Detach a shader from a program.
    fn detach_shader(&mut self, program: &Self::Program, shader: &Self::Shader)
        ensures
            final(self).journal() == old(self).journal().push(
                Op::DetachShader { program: *program, shader: *shader },
            ),
    ;

    /// Create a program object.
    fn create_program(&mut self) -> (created: Option<Self::Program>)
        ensures
            final(self).journal() == old(self).journal().push(Op::CreateProgram { created }),
    ;

    /// Delete a program object.
    fn delete_program(&mut self, program: &Self::Program)
        ensures
            final(self).journal() == old(self).journal().push(
                Op::DeleteProgram { program: *program },
            ),
    ;

    /// Link a program; on failure the raw diagnostic is returned.
    fn link_program(&mut self, program: &Self::Program) -> (outcome: Result<(), Vec<u8>>)
        ensures
            final(self).journal() == old(self).journal().push(
                Op::LinkProgram { program: *program, outcome: diagnostic(outcome) },
            ),
    ;

    /// Validate a program against the current state; on failure the raw
    /// diagnostic is returned.
    fn validate_program(&mut self, program: &Self::Program) -> (outcome: Result<(), Vec<u8>>)
        ensures
            final(self).journal() == old(self).journal().push(
                Op::ValidateProgram { program: *program, outcome: diagnostic(outcome) },
            ),
    ;

    /// Make a program the current one.
    fn use_program(&mut self, program: &Self::Program)
        ensures
            final(self).journal() == old(self).journal().push(Op::UseProgram { program: *program }),
    ;

    /// Look up the index of a vertex attribute of a linked program.
    fn attrib_location(&mut self, program: &Self::Program, attrib: &str) -> (location: Option<u32>)
        requires
            Self::valid_name(attrib@),
        ensures
            final(self).journal() == old(self).journal().push(
                Op::AttribLocation { program: *program, name: attrib@, location },
            ),
    ;

    /// Look up the location of a uniform of a linked program.
    fn uniform_location(
        &mut self,
        program: &Self::Program,
        uniform: &str,
    ) -> (location: Option<Self::UniformLocation>)
        requires
            Self::valid_name(uniform@),
        ensures
            final(self).journal() == old(self).journal().push(
                Op::UniformLocation { program: *program, name: uniform@, location },
            ),
    ;

    /// Set a signed integer uniform of the current program.
    fn set_uniform_1i(&mut self, location: &Self::UniformLocation, data: i32)
        ensures
            final(self).journal() == old(self).journal().push(
                Op::Uniform1i { location: *location, value: data },
            ),
    ;

    /// Set an unsigned integer uniform of the current program.
    fn set_uniform_1ui(&mut self, location: &Self::UniformLocation, data: u32)
        ensures
            final(self).journal() == old(self).journal().push(
                Op::Uniform1ui { location: *location, value: data },
            ),
    ;

    /// Set an array of signed integer uniforms of the current program.
    fn set_uniform_1iv(&mut self, location: &Self::UniformLocation, data: &[i32])
        ensures
            final(self).journal() == old(self).journal().push(
                Op::Uniform1iv { location: *location, values: data@ },
            ),
    ;

    /// Create a vertex buffer object.
    fn create_vertex_buffer(&mut self) -> (created: Result<Self::VertexBufferObject, Self::Error>)
        ensures
            final(self).journal() == old(self).journal().push(Op::CreateVertexBuffer { created }),
    ;

    /// Delete a vertex buffer object.
    fn delete_vertex_buffer(&mut self, vbo: &Self::VertexBufferObject)
        ensures
            final(self).journal() == old(self).journal().push(Op::DeleteVertexBuffer { vbo: *vbo }),
    ;

    /// Bind a vertex buffer object to a target, or nothing if there is none.
    fn bind_vertex_buffer(
        &mut self,
        target: VertexBufferTarget,
        vbo: Option<&Self::VertexBufferObject>,
    )
        ensures
            final(self).journal() == old(self).journal().push(
                Op::BindVertexBuffer { target, vbo: pointee(vbo) },
            ),
    ;

    /// Replace the contents of the buffer bound to a target.
    fn set_vertex_buffer_data<V>(
        &mut self,
        target: VertexBufferTarget,
        usage: VertexBufferUsage,
        data: &[V],
    )
        ensures
            final(self).journal() == old(self).journal().push(
                Op::VertexBufferData { target, usage, items: data@.len() },
            ),
    ;

    /// Create a vertex array object.
    fn create_vertex_array(&mut self) -> (created: Result<Self::VertexArrayObject, Self::Error>)
        ensures
            final(self).journal() == old(self).journal().push(Op::CreateVertexArray { created }),
    ;

    /// Delete a vertex array object.
    fn delete_vertex_array(&mut self, vao: &Self::VertexArrayObject)
        ensures
            final(self).journal() == old(self).journal().push(Op::DeleteVertexArray { vao: *vao }),
    ;

    /// Bind a vertex array object, or nothing if there is none.
    fn bind_vertex_array(&mut self, vao: Option<&Self::VertexArrayObject>)
        ensures
            final(self).journal() == old(self).journal().push(
                Op::BindVertexArray { vao: pointee(vao) },
            ),
    ;

    /// Enable the vertex attribute with the given index.
    fn enable_vertex_attrib_array(&mut self, idx: u32)
        ensures
            final(self).journal() == old(self).journal().push(
                Op::EnableVertexAttribArray { index: idx },
            ),
    ;

    /// Describe the layout of a vertex attribute in the bound vertex buffer.
    fn set_vertex_attrib_pointer(
        &mut self,
        idx: u32,
        size: i32,
        ty: Type,
        normalize: bool,
        stride: i32,
        offset: i32,
    )
        ensures
            final(self).journal() == old(self).journal().push(
                Op::VertexAttribPointer { index: idx, size, ty, normalize, stride, offset },
            ),
    ;

    /// Create a texture object.
    fn create_texture(&mut self) -> (created: Result<Self::Texture, Self::Error>)
        ensures
            final(self).journal() == old(self).journal().push(Op::CreateTexture { created }),
    ;

    /// Delete a texture object.
    fn delete_texture(&mut self, texture: &Self::Texture)
        ensures
            final(self).journal() == old(self).journal().push(
                Op::DeleteTexture { texture: *texture },
            ),
    ;

    /// Bind a texture object to a target, or nothing if there is none.
    fn bind_texture(&mut self, target: TextureTarget, texture: Option<&Self::Texture>)
        ensures
            final(self).journal() == old(self).journal().push(
                Op::BindTexture { target, texture: pointee(texture) },
            ),
    ;

    /// Select the texture unit that subsequent texture operations affect.
    fn set_active_texture_unit(&mut self, unit: u32)
        requires
            unit <= MAX_TEXTURE_UNIT,
        ensures
            final(self).journal() == old(self).journal().push(Op::ActiveTextureUnit { unit }),
    ;

    /// Define the image of the 2D texture bound to a target; without pixels,
    /// storage is allocated and left undefined.
    fn set_texture_image_2d(
        &mut self,
        target: TextureTarget,
        internal_format: TextureInternalFormat,
        pixel_format: TexturePixelFormat,
        channel_type: Type,
        w: u32,
        h: u32,
        pixels: Option<&[u8]>,
    ) -> (outcome: Result<(), Self::Error>)
        ensures
            final(self).journal() == old(self).journal().push(
                Op::TextureImage2d {
                    target,
                    internal_format,
                    pixel_format,
                    channel_type,
                    w,
                    h,
                    pixels: bytes(pixels),
                    outcome: verdict(outcome),
                },
            ),
    ;

    /// Define the images of the array texture bound to a target; without
    /// pixels, storage is allocated and left undefined.
    fn set_texture_image_3d(
        &mut self,
        target: TextureTarget,
        internal_format: TextureInternalFormat,
        pixel_format: TexturePixelFormat,
        channel_type: Type,
        w: u32,
        h: u32,
        count: u32,
        pixels: Option<&[u8]>,
    ) -> (outcome: Result<(), Self::Error>)
        ensures
            final(self).journal() == old(self).journal().push(
                Op::TextureImage3d {
                    target,
                    internal_format,
                    pixel_format,
                    channel_type,
                    w,
                    h,
                    count,
                    pixels: bytes(pixels),
                    outcome: verdict(outcome),
                },
            ),
    ;

    /// Replace one layer of a region of the array texture bound to a target.
    fn set_texture_sub_image_3d(
        &mut self,
        target: TextureTarget,
        pixel_format: TexturePixelFormat,
        channel_type: Type,
        x: u32,
        y: u32,
        z: u32,
        w: u32,
        h: u32,
        pixels: &[u8],
    ) -> (outcome: Result<(), Self::Error>)
        ensures
            final(self).journal() == old(self).journal().push(
                Op::TextureSubImage3d {
                    target,
                    pixel_format,
                    channel_type,
                    x,
                    y,
                    z,
                    w,
                    h,
                    pixels: pixels@,
                    outcome: verdict(outcome),
                },
            ),
    ;

    /// Set a filter of the texture bound to a target.
    fn set_texture_filter(
        &mut self,
        target: TextureTarget,
        ty: TextureFilterType,
        filter: TextureFilter,
    )
        ensures
            final(self).journal() == old(self).journal().push(
                Op::TextureFilter { target, ty, filter },
            ),
    ;

    /// Set the comparison mode of the texture bound to a target.
    fn set_texture_compare_mode(&mut self, target: TextureTarget, mode: TextureCompareMode)
        ensures
            final(self).journal() == old(self).journal().push(
                Op::TextureCompareMode { target, mode },
            ),
    ;

    /// Set the comparison function of the texture bound to a target.
    fn set_texture_compare_func(&mut self, target: TextureTarget, func: Func)
        ensures
            final(self).journal() == old(self).journal().push(
                Op::TextureCompareFunc { target, func },
            ),
    ;

    /// Set the wrapping of the texture bound to a target, in both directions.
    fn set_texture_wrap(&mut self, target: TextureTarget, wrap: TextureWrap)
        ensures
            final(self).journal() == old(self).journal().push(Op::TextureWrap { target, wrap }),
    ;

    /// Generate the mipmaps of the texture bound to a target.
    fn generate_mipmaps(&mut self, target: TextureTarget)
        ensures
            final(self).journal() == old(self).journal().push(Op::GenerateMipmaps { target }),
    ;

}

} // verus!
