//! The entry points of the native device interface.

use vstd::prelude::*;

verus! {

/// The foreign call surface of the native device: one function per
/// entry point, on plain integers and buffers.
///
/// The functions act on the device that is current on the calling
/// thread. Nothing is assumed of what they return.
pub trait Driver {
    /// `glGetError`: take the oldest recorded error code, or `NO_ERROR`.
    fn get_error(&mut self) -> u32;

    /// `glEnable`.
    fn enable(&mut self, cap: u32);

    /// `glDisable`.
    fn disable(&mut self, cap: u32);

    /// `glDepthFunc`.
    fn depth_func(&mut self, func: u32);

    /// `glBlendFunc`.
    fn blend_func(&mut self, sfactor: u32, dfactor: u32);

    /// `glFrontFace`.
    fn front_face(&mut self, mode: u32);

    /// `glCullFace`.
    fn cull_face(&mut self, mode: u32);

    /// `glViewport`.
    fn viewport(&mut self, x: i32, y: i32, width: i32, height: i32);

    /// `glPixelStorei`.
    fn pixel_storei(&mut self, pname: u32, param: i32);

    /// `glClear`.
    fn clear(&mut self, mask: u32);

    /// `glDrawArrays`.
    fn draw_arrays(&mut self, mode: u32, first: i32, count: i32);

    /// `glDrawArraysInstanced`.
    fn draw_arrays_instanced(&mut self, mode: u32, first: i32, count: i32, instances: i32);

    /// `glDrawElements`, reading the indices from the start of the bound element array.
    fn draw_elements(&mut self, mode: u32, count: i32, ty: u32);

    /// `glGenFramebuffers` for a single name.
    fn gen_framebuffer(&mut self) -> u32;

    /// `glDeleteFramebuffers` for a single name.
    fn delete_framebuffer(&mut self, framebuffer: u32);

    /// `glBindFramebuffer`.
    fn bind_framebuffer(&mut self, target: u32, framebuffer: u32);

    /// `glFramebufferTexture2D`.
    fn framebuffer_texture_2d(
        &mut self,
        target: u32,
        attachment: u32,
        textarget: u32,
        texture: u32,
        level: i32,
    );

    /// `glDrawBuffer`.
    fn draw_buffer(&mut self, buf: u32);

    /// `glReadBuffer`.
    fn read_buffer(&mut self, src: u32);

    /// `glCheckFramebufferStatus`.
    fn check_framebuffer_status(&mut self, target: u32) -> u32;

    /// `glCreateShader`.
    fn create_shader(&mut self, ty: u32) -> u32;

    /// `glDeleteShader`.
    fn delete_shader(&mut self, shader: u32);

    /// `glShaderSource` with a single string, handed over with its length.
    fn shader_source(&mut self, shader: u32, source: &str);

    /// `glCompileShader`.
    fn compile_shader(&mut self, shader: u32);

    /// `glGetShaderiv`.
    fn get_shaderiv(&mut self, shader: u32, pname: u32) -> i32;

    /// `glGetShaderInfoLog` into a buffer of `len` bytes, which is returned.
    fn get_shader_info_log(&mut self, shader: u32, len: i32) -> Vec<u8>;

    /// `glAttachShader`.
    fn attach_shader(&mut self, program: u32, shader: u32);

    /// `glDetachShader`.
    fn detach_shader(&mut self, program: u32, shader: u32);

    /// `glCreateProgram`.
    fn create_program(&mut self) -> u32;

    /// `glDeleteProgram`.
    fn delete_program(&mut self, program: u32);

    /// `glLinkProgram`.
    fn link_program(&mut self, program: u32);

    /// `glValidateProgram`.
    fn validate_program(&mut self, program: u32);

    /// `glGetProgramiv`.
    fn get_programiv(&mut self, program: u32, pname: u32) -> i32;

    /// `glGetProgramInfoLog` into a buffer of `len` bytes, which is returned.
    fn get_program_info_log(&mut self, program: u32, len: i32) -> Vec<u8>;

    /// `glUseProgram`.
    fn use_program(&mut self, program: u32);

    /// `glGetAttribLocation`; the name holds no NUL character.
    fn get_attrib_location(&mut self, program: u32, name: &str) -> i32;

    /// `glGetUniformLocation`; the name holds no NUL character.
    fn get_uniform_location(&mut self, program: u32, name: &str) -> i32;

    /// `glUniform1i`.
    fn uniform_1i(&mut self, location: i32, v0: i32);

    /// `glUniform1ui`.
    fn uniform_1ui(&mut self, location: i32, v0: u32);

    /// `glUniform1iv` with every value of the slice.
    fn uniform_1iv(&mut self, location: i32, values: &[i32]);

    /// `glGenBuffers` for a single name.
    fn gen_buffer(&mut self) -> u32;

    /// `glDeleteBuffers` for a single name.
    fn delete_buffer(&mut self, buffer: u32);

    /// `glBindBuffer`.
    fn bind_buffer(&mut self, target: u32, buffer: u32);

    /// `glBufferData` with the memory of the slice.
    fn buffer_data<V>(&mut self, target: u32, data: &[V], usage: u32);

    /// `glBufferSubData` with the memory of the slice.
    fn buffer_sub_data<V>(&mut self, target: u32, offset: i32, data: &[V]);

    /// `glGenVertexArrays` for a single name.
    fn gen_vertex_array(&mut self) -> u32;

    /// `glDeleteVertexArrays` for a single name.
    fn delete_vertex_array(&mut self, array: u32);

    /// `glBindVertexArray`.
    fn bind_vertex_array(&mut self, array: u32);

    /// `glEnableVertexAttribArray`.
    fn enable_vertex_attrib_array(&mut self, index: u32);

    /// `glVertexAttribPointer`, with the offset into the bound buffer in place of a pointer.
    fn vertex_attrib_pointer(
        &mut self,
        index: u32,
        size: i32,
        ty: u32,
        normalized: u8,
        stride: i32,
        offset: i32,
    );

    /// `glGenTextures` for a single name.
    fn gen_texture(&mut self) -> u32;

    /// `glDeleteTextures` for a single name.
    fn delete_texture(&mut self, texture: u32);

    /// `glBindTexture`.
    fn bind_texture(&mut self, target: u32, texture: u32);

    /// `glActiveTexture`.
    fn active_texture(&mut self, texture: u32);

    /// `glTexImage2D`; without pixels a null pointer is handed over.
    fn tex_image_2d(
        &mut self,
        target: u32,
        level: i32,
        internal_format: i32,
        width: i32,
        height: i32,
        border: i32,
        format: u32,
        ty: u32,
        pixels: Option<&[u8]>,
    );

    /// `glTexImage3D`; without pixels a null pointer is handed over.
    fn tex_image_3d(
        &mut self,
        target: u32,
        level: i32,
        internal_format: i32,
        width: i32,
        height: i32,
        depth: i32,
        border: i32,
        format: u32,
        ty: u32,
        pixels: Option<&[u8]>,
    );

    /// `glTexSubImage3D`.
    fn tex_sub_image_3d(
        &mut self,
        target: u32,
        level: i32,
        xoffset: i32,
        yoffset: i32,
        zoffset: i32,
        width: i32,
        height: i32,
        depth: i32,
        format: u32,
        ty: u32,
        pixels: &[u8],
    );

    /// `glTexParameteri`.
    fn tex_parameteri(&mut self, target: u32, pname: u32, param: i32);

    /// `glGenerateMipmap`.
    fn generate_mipmap(&mut self, target: u32);
}

} // verus!
