//! The operations of the host-managed device interface.

use vstd::prelude::*;

verus! {

/// The host-managed object through which the device is reached: one
/// function per operation of the host interface.
///
/// The handles are references that the host manages; nothing is
/// assumed of them, nor of what the functions return.
pub trait Host {
    /// The host's reference to a framebuffer object.
    type Framebuffer;

    /// The host's reference to a program object.
    type Program;

    /// The host's reference to a shader object.
    type Shader;

    /// The host's reference to a texture object.
    type Texture;

    /// The host's reference to the location of a uniform.
    type UniformLocation;

    /// The host's reference to a vertex array object.
    type VertexArrayObject;

    /// The host's reference to a buffer object.
    type VertexBufferObject;

    /// `getError`: take the oldest recorded error code, or `NO_ERROR`.
    fn get_error(&mut self) -> u32;

    /// `enable`.
    fn enable(&mut self, cap: u32);

    /// `disable`.
    fn disable(&mut self, cap: u32);

    /// `depthFunc`.
    fn depth_func(&mut self, func: u32);

    /// `blendFunc`.
    fn blend_func(&mut self, sfactor: u32, dfactor: u32);

    /// `frontFace`.
    fn front_face(&mut self, mode: u32);

    /// `cullFace`.
    fn cull_face(&mut self, mode: u32);

    /// `viewport`.
    fn viewport(&mut self, x: i32, y: i32, width: i32, height: i32);

    /// `pixelStorei`.
    fn pixel_storei(&mut self, pname: u32, param: i32);

    /// `clear`.
    fn clear(&mut self, mask: u32);

    /// `drawArrays`.
    fn draw_arrays(&mut self, mode: u32, first: i32, count: i32);

    /// `drawArraysInstanced`.
    fn draw_arrays_instanced(&mut self, mode: u32, first: i32, count: i32, instance_count: i32);

    /// `drawElements`, reading the indices `offset` bytes into the bound element array.
    fn draw_elements(&mut self, mode: u32, count: i32, ty: u32, offset: i32);

    /// `createFramebuffer`.
    fn create_framebuffer(&mut self) -> Option<Self::Framebuffer>;

    /// `deleteFramebuffer`.
    fn delete_framebuffer(&mut self, framebuffer: Option<&Self::Framebuffer>);

    /// `bindFramebuffer`.
    fn bind_framebuffer(&mut self, target: u32, framebuffer: Option<&Self::Framebuffer>);

    /// `framebufferTexture2D`.
    fn framebuffer_texture_2d(
        &mut self,
        target: u32,
        attachment: u32,
        textarget: u32,
        texture: Option<&Self::Texture>,
        level: i32,
    );

    /// `drawBuffers`.
    fn draw_buffers(&mut self, buffers: &[u32]);

    /// `readBuffer`.
    fn read_buffer(&mut self, src: u32);

    /// `checkFramebufferStatus`.
    fn check_framebuffer_status(&mut self, target: u32) -> u32;

    /// `createShader`.
    fn create_shader(&mut self, ty: u32) -> Option<Self::Shader>;

    /// `deleteShader`.
    fn delete_shader(&mut self, shader: Option<&Self::Shader>);

    /// `shaderSource`.
    fn shader_source(&mut self, shader: &Self::Shader, source: &str);

    /// `compileShader`.
    fn compile_shader(&mut self, shader: &Self::Shader);

    /// `getShaderParameter` for a parameter that is a truth value.
    fn get_shader_parameter(&mut self, shader: &Self::Shader, pname: u32) -> bool;

    /// `getShaderInfoLog`.
    fn get_shader_info_log(&mut self, shader: &Self::Shader) -> Option<String>;

    /// `attachShader`.
    fn attach_shader(&mut self, program: &Self::Program, shader: &Self::Shader);

    /// `detachShader`.
    fn detach_shader(&mut self, program: &Self::Program, shader: &Self::Shader);

    /// `createProgram`.
    fn create_program(&mut self) -> Option<Self::Program>;

    /// `deleteProgram`.
    fn delete_program(&mut self, program: Option<&Self::Program>);

    /// `linkProgram`.
    fn link_program(&mut self, program: &Self::Program);

    /// `validateProgram`.
    fn validate_program(&mut self, program: &Self::Program);

    /// `getProgramParameter` for a parameter that is a truth value.
    fn get_program_parameter(&mut self, program: &Self::Program, pname: u32) -> bool;

    /// `getProgramInfoLog`.
    fn get_program_info_log(&mut self, program: &Self::Program) -> Option<String>;

    /// `useProgram`.
    fn use_program(&mut self, program: Option<&Self::Program>);

    /// `getAttribLocation`.
    fn get_attrib_location(&mut self, program: &Self::Program, name: &str) -> i32;

    /// `getUniformLocation`.
    fn get_uniform_location(
        &mut self,
        program: &Self::Program,
        name: &str,
    ) -> Option<Self::UniformLocation>;

    /// `uniform1i`.
    fn uniform_1i(&mut self, location: Option<&Self::UniformLocation>, v0: i32);

    /// `uniform1ui`.
    fn uniform_1ui(&mut self, location: Option<&Self::UniformLocation>, v0: u32);

    /// `uniform1iv` with every value of the slice.
    fn uniform_1iv(&mut self, location: Option<&Self::UniformLocation>, values: &[i32]);

    /// `createBuffer`.
    fn create_buffer(&mut self) -> Option<Self::VertexBufferObject>;

    /// `deleteBuffer`.
    fn delete_buffer(&mut self, buffer: Option<&Self::VertexBufferObject>);

    /// `bindBuffer`.
    fn bind_buffer(&mut self, target: u32, buffer: Option<&Self::VertexBufferObject>);

    /// `bufferData` with the memory of the slice.
    fn buffer_data<V>(&mut self, target: u32, data: &[V], usage: u32);

    /// `createVertexArray`.
    fn create_vertex_array(&mut self) -> Option<Self::VertexArrayObject>;

    /// `deleteVertexArray`.
    fn delete_vertex_array(&mut self, array: Option<&Self::VertexArrayObject>);

    /// `bindVertexArray`.
    fn bind_vertex_array(&mut self, array: Option<&Self::VertexArrayObject>);

    /// `enableVertexAttribArray`.
    fn enable_vertex_attrib_array(&mut self, index: u32);

    /// `vertexAttribPointer`, with the offset into the bound buffer.
    fn vertex_attrib_pointer(
        &mut self,
        index: u32,
        size: i32,
        ty: u32,
        normalized: bool,
        stride: i32,
        offset: i32,
    );

    /// `createTexture`.
    fn create_texture(&mut self) -> Option<Self::Texture>;

    /// `deleteTexture`.
    fn delete_texture(&mut self, texture: Option<&Self::Texture>);

    /// `bindTexture`.
    fn bind_texture(&mut self, target: u32, texture: Option<&Self::Texture>);

    /// `activeTexture`.
    fn active_texture(&mut self, texture: u32);

    /// `texImage2D`; the result says whether the host accepted the call.
    fn tex_image_2d(
        &mut self,
        target: u32,
        level: i32,
        internal_format: i32,
        width: i32,
        height: i32,
        border: i32,
        format: u32,
        ty: u32,
        pixels: Option<&[u8]>,
    ) -> bool;

    /// `texImage3D`; the result says whether the host accepted the call.
    fn tex_image_3d(
        &mut self,
        target: u32,
        level: i32,
        internal_format: i32,
        width: i32,
        height: i32,
        depth: i32,
        border: i32,
        format: u32,
        ty: u32,
        pixels: Option<&[u8]>,
    ) -> bool;

    /// `texSubImage3D`; the result says whether the host accepted the call.
    fn tex_sub_image_3d(
        &mut self,
        target: u32,
        level: i32,
        xoffset: i32,
        yoffset: i32,
        zoffset: i32,
        width: i32,
        height: i32,
        depth: i32,
        format: u32,
        ty: u32,
        pixels: Option<&[u8]>,
    ) -> bool;

    /// `texParameteri`.
    fn tex_parameteri(&mut self, target: u32, pname: u32, param: i32);

    /// `generateMipmap`.
    fn generate_mipmap(&mut self, target: u32);
}

/// The text of an optional string, if any.
pub open spec fn text(string: Option<String>) -> Option<Seq<char>> {
    match string {
        Some(string) => Some(string@),
        None => None,
    }
}

} // verus!
