use std::cell::RefCell;
use std::collections::HashMap;
use std::collections::HashSet;
use std::collections::VecDeque;
use std::rc::Rc;

use glctx::sys::opengl::Capability;
use glctx::sys::opengl::Context;
use glctx::sys::opengl::Driver;
use glctx::sys::opengl::Error as DeviceFailure;
use glctx::sys::ClearMask;
use glctx::sys::CullFace;
use glctx::sys::DeviceError;
use glctx::sys::Factor;
use glctx::sys::FramebufferStatus;
use glctx::sys::FrontFace;
use glctx::sys::Func;
use glctx::sys::Gl;
use glctx::sys::Primitive;
use glctx::sys::ShaderType;
use glctx::sys::TextureInternalFormat;
use glctx::sys::TexturePixelFormat;
use glctx::sys::TextureTarget;
use glctx::sys::Type;
use glctx::sys::VertexBufferTarget;
use glctx::sys::VertexBufferUsage;
use glctx::vertex::Attrib;
use glctx::vertex::AttribType;
use glctx::vertex::Attribs;
use glctx::Error;
use glctx::Framebuffer;
use glctx::Program;
use glctx::Shader;
use glctx::Texture;
use glctx::TextureInfo;
use glctx::VertexArray;
use glctx::VertexBuffer;

const VERTEX_SHADER: u32 = 0x8B31;
const COMPILE_STATUS: u32 = 0x8B81;
const LINK_STATUS: u32 = 0x8B82;
const VALIDATE_STATUS: u32 = 0x8B83;
const INFO_LOG_LENGTH: u32 = 0x8B84;
const DEPTH_ATTACHMENT: u32 = 0x8D00;
const FRAMEBUFFER_COMPLETE: u32 = 0x8CD5;
const FRAMEBUFFER_INCOMPLETE_MISSING_ATTACHMENT: u32 = 0x8CD7;
const INVALID_VALUE: u32 = 0x0501;
const OUT_OF_MEMORY: u32 = 0x0505;
const MAX_TEXTURE_SIZE: i32 = 16384;

/// A shader as the simulated device sees it.
#[derive(Debug, Default)]
struct ShaderState {
    ty: u32,
    source: String,
    compiled: bool,
    log: Vec<u8>,
}

/// A program as the simulated device sees it.
#[derive(Debug, Default)]
struct ProgramState {
    attached: Vec<u32>,
    linked: bool,
    attribs: Vec<String>,
    uniforms: Vec<String>,
    log: Vec<u8>,
}

/// The state of the simulated device.
#[derive(Debug, Default)]
struct State {
    /// Every entry point called, with its arguments.
    calls: Vec<String>,
    /// The error codes waiting to be read.
    errors: VecDeque<u32>,
    /// The last name handed out.
    last_name: u32,
    /// Whether the device refuses to create shaders and programs.
    refuse_objects: bool,
    /// Whether the device is out of memory when asked for a name.
    exhausted: bool,
    /// Whether the device finds no program fit to run.
    invalid: bool,
    /// Whether the device has lost track of every uniform.
    confused: bool,
    shaders: HashMap<u32, ShaderState>,
    programs: HashMap<u32, ProgramState>,
    textures: HashSet<u32>,
    /// The framebuffers, each with whether it has a depth attachment.
    framebuffers: HashMap<u32, bool>,
    bound_framebuffer: u32,
}

impl State {
    fn name(&mut self) -> u32 {
        if self.exhausted {
            self.errors.push_back(OUT_OF_MEMORY);
            0
        } else {
            self.last_name += 1;
            self.last_name
        }
    }

    /// The names declared in the given source with the given storage
    /// qualifier.
    fn declared(source: &str, qualifier: &str) -> Vec<String> {
        source
            .lines()
            .filter_map(|line| {
                let mut words = line.trim().trim_end_matches(';').split_whitespace();
                if words.next() == Some(qualifier) {
                    words.last().map(str::to_string)
                } else {
                    None
                }
            })
            .collect()
    }
}

/// A simulated device: it records every call and answers the way a
/// small part of a real device would.
#[derive(Clone, Debug, Default)]
struct Device(Rc<RefCell<State>>);

impl Device {
    fn record(&self, call: String) {
        self.0.borrow_mut().calls.push(call);
    }

    fn calls(&self) -> Vec<String> {
        self.0.borrow().calls.clone()
    }

    /// The calls made since the given number of calls.
    fn calls_since(&self, count: usize) -> Vec<String> {
        self.0.borrow().calls[count..].to_vec()
    }

    fn count(&self) -> usize {
        self.0.borrow().calls.len()
    }
}

impl Driver for Device {
    fn get_error(&mut self) -> u32 {
        self.record("GetError()".to_string());
        self.0.borrow_mut().errors.pop_front().unwrap_or(0)
    }

    fn enable(&mut self, cap: u32) {
        self.record(format!("Enable({cap:#x})"));
    }

    fn disable(&mut self, cap: u32) {
        self.record(format!("Disable({cap:#x})"));
    }

    fn depth_func(&mut self, func: u32) {
        self.record(format!("DepthFunc({func:#x})"));
    }

    fn blend_func(&mut self, sfactor: u32, dfactor: u32) {
        self.record(format!("BlendFunc({sfactor:#x}, {dfactor:#x})"));
    }

    fn front_face(&mut self, mode: u32) {
        self.record(format!("FrontFace({mode:#x})"));
    }

    fn cull_face(&mut self, mode: u32) {
        self.record(format!("CullFace({mode:#x})"));
    }

    fn viewport(&mut self, x: i32, y: i32, width: i32, height: i32) {
        self.record(format!("Viewport({x}, {y}, {width}, {height})"));
    }

    fn pixel_storei(&mut self, pname: u32, param: i32) {
        self.record(format!("PixelStorei({pname:#x}, {param})"));
    }

    fn clear(&mut self, mask: u32) {
        self.record(format!("Clear({mask:#x})"));
    }

    fn draw_arrays(&mut self, mode: u32, first: i32, count: i32) {
        self.record(format!("DrawArrays({mode:#x}, {first}, {count})"));
    }

    fn draw_arrays_instanced(&mut self, mode: u32, first: i32, count: i32, instances: i32) {
        self.record(format!("DrawArraysInstanced({mode:#x}, {first}, {count}, {instances})"));
    }

    fn draw_elements(&mut self, mode: u32, count: i32, ty: u32) {
        self.record(format!("DrawElements({mode:#x}, {count}, {ty:#x})"));
    }

    fn gen_framebuffer(&mut self) -> u32 {
        self.record("GenFramebuffers()".to_string());
        let mut state = self.0.borrow_mut();
        let name = state.name();
        if name != 0 {
            let _ = state.framebuffers.insert(name, false);
        }
        name
    }

    fn delete_framebuffer(&mut self, framebuffer: u32) {
        self.record(format!("DeleteFramebuffers({framebuffer})"));
        let _ = self.0.borrow_mut().framebuffers.remove(&framebuffer);
    }

    fn bind_framebuffer(&mut self, target: u32, framebuffer: u32) {
        self.record(format!("BindFramebuffer({target:#x}, {framebuffer})"));
        self.0.borrow_mut().bound_framebuffer = framebuffer;
    }

    fn framebuffer_texture_2d(
        &mut self,
        target: u32,
        attachment: u32,
        textarget: u32,
        texture: u32,
        level: i32,
    ) {
        self.record(format!(
            "FramebufferTexture2D({target:#x}, {attachment:#x}, {textarget:#x}, {texture}, {level})"
        ));
        let mut state = self.0.borrow_mut();
        let state = &mut *state;
        let bound = state.bound_framebuffer;
        if let Some(depth) = state.framebuffers.get_mut(&bound) {
            *depth = attachment == DEPTH_ATTACHMENT && state.textures.contains(&texture);
        }
    }

    fn draw_buffer(&mut self, buf: u32) {
        self.record(format!("DrawBuffer({buf:#x})"));
    }

    fn read_buffer(&mut self, src: u32) {
        self.record(format!("ReadBuffer({src:#x})"));
    }

    fn check_framebuffer_status(&mut self, target: u32) -> u32 {
        self.record(format!("CheckFramebufferStatus({target:#x})"));
        let state = self.0.borrow();
        match state.framebuffers.get(&state.bound_framebuffer) {
            Some(true) => FRAMEBUFFER_COMPLETE,
            Some(false) => FRAMEBUFFER_INCOMPLETE_MISSING_ATTACHMENT,
            // The default framebuffer.
            None => FRAMEBUFFER_COMPLETE,
        }
    }

    fn create_shader(&mut self, ty: u32) -> u32 {
        self.record(format!("CreateShader({ty:#x})"));
        let mut state = self.0.borrow_mut();
        if state.refuse_objects {
            return 0;
        }
        let name = state.name();
        let _ = state.shaders.insert(name, ShaderState { ty, ..Default::default() });
        name
    }

    fn delete_shader(&mut self, shader: u32) {
        self.record(format!("DeleteShader({shader})"));
        let _ = self.0.borrow_mut().shaders.remove(&shader);
    }

    fn shader_source(&mut self, shader: u32, source: &str) {
        self.record(format!("ShaderSource({shader}, {} bytes)", source.len()));
        if let Some(state) = self.0.borrow_mut().shaders.get_mut(&shader) {
            state.source = source.to_string();
        }
    }

    fn compile_shader(&mut self, shader: u32) {
        self.record(format!("CompileShader({shader})"));
        if let Some(state) = self.0.borrow_mut().shaders.get_mut(&shader) {
            state.compiled = state.source.contains("void main()");
            state.log = if state.compiled {
                Vec::new()
            } else {
                b"0:2(1): error: syntax error, unexpected IDENTIFIER\n\0".to_vec()
            };
        }
    }

    fn get_shaderiv(&mut self, shader: u32, pname: u32) -> i32 {
        self.record(format!("GetShaderiv({shader}, {pname:#x})"));
        let state = self.0.borrow();
        let shader = &state.shaders[&shader];
        match pname {
            COMPILE_STATUS => shader.compiled as i32,
            INFO_LOG_LENGTH => shader.log.len() as i32,
            _ => 0,
        }
    }

    fn get_shader_info_log(&mut self, shader: u32, len: i32) -> Vec<u8> {
        self.record(format!("GetShaderInfoLog({shader}, {len})"));
        self.0.borrow().shaders[&shader].log[..len as usize].to_vec()
    }

    fn attach_shader(&mut self, program: u32, shader: u32) {
        self.record(format!("AttachShader({program}, {shader})"));
        if let Some(state) = self.0.borrow_mut().programs.get_mut(&program) {
            state.attached.push(shader);
        }
    }

    fn detach_shader(&mut self, program: u32, shader: u32) {
        self.record(format!("DetachShader({program}, {shader})"));
        if let Some(state) = self.0.borrow_mut().programs.get_mut(&program) {
            state.attached.retain(|attached| *attached != shader);
        }
    }

    fn create_program(&mut self) -> u32 {
        self.record("CreateProgram()".to_string());
        let mut state = self.0.borrow_mut();
        if state.refuse_objects {
            return 0;
        }
        let name = state.name();
        let _ = state.programs.insert(name, ProgramState::default());
        name
    }

    fn delete_program(&mut self, program: u32) {
        self.record(format!("DeleteProgram({program})"));
        let _ = self.0.borrow_mut().programs.remove(&program);
    }

    fn link_program(&mut self, program: u32) {
        self.record(format!("LinkProgram({program})"));
        let mut state = self.0.borrow_mut();
        let attached = state.programs[&program].attached.clone();
        let stages = attached
            .iter()
            .filter_map(|shader| state.shaders.get(shader))
            .filter(|shader| shader.compiled)
            .count();
        let mut attribs = Vec::new();
        let mut uniforms = Vec::new();
        for shader in attached.iter().filter_map(|shader| state.shaders.get(shader)) {
            if shader.ty == VERTEX_SHADER {
                attribs.extend(State::declared(&shader.source, "in"));
            }
            uniforms.extend(State::declared(&shader.source, "uniform"));
        }
        let program = state.programs.get_mut(&program).unwrap();
        program.linked = stages >= 2 && stages == attached.len();
        program.attribs = attribs;
        program.uniforms = uniforms;
        program.log = if program.linked {
            Vec::new()
        } else {
            b"error: linking with uncompiled/unspecialized shader\0".to_vec()
        };
    }

    fn validate_program(&mut self, program: u32) {
        self.record(format!("ValidateProgram({program})"));
        let mut state = self.0.borrow_mut();
        let invalid = state.invalid;
        if let Some(program) = state.programs.get_mut(&program) {
            program.log = if invalid {
                b"no vertex array object bound\0".to_vec()
            } else {
                Vec::new()
            };
        }
    }

    fn get_programiv(&mut self, program: u32, pname: u32) -> i32 {
        self.record(format!("GetProgramiv({program}, {pname:#x})"));
        let state = self.0.borrow();
        let program = &state.programs[&program];
        match pname {
            LINK_STATUS => program.linked as i32,
            VALIDATE_STATUS => (program.linked && !state.invalid) as i32,
            INFO_LOG_LENGTH => program.log.len() as i32,
            _ => 0,
        }
    }

    fn get_program_info_log(&mut self, program: u32, len: i32) -> Vec<u8> {
        self.record(format!("GetProgramInfoLog({program}, {len})"));
        self.0.borrow().programs[&program].log[..len as usize].to_vec()
    }

    fn use_program(&mut self, program: u32) {
        self.record(format!("UseProgram({program})"));
    }

    fn get_attrib_location(&mut self, program: u32, name: &str) -> i32 {
        self.record(format!("GetAttribLocation({program}, {name})"));
        let state = self.0.borrow();
        let attribs = &state.programs[&program].attribs;
        attribs.iter().position(|attrib| attrib == name).map_or(-1, |idx| idx as i32)
    }

    fn get_uniform_location(&mut self, program: u32, name: &str) -> i32 {
        self.record(format!("GetUniformLocation({program}, {name})"));
        let state = self.0.borrow();
        if state.confused {
            return -2;
        }
        let uniforms = &state.programs[&program].uniforms;
        uniforms.iter().position(|uniform| uniform == name).map_or(-1, |idx| idx as i32)
    }

    fn uniform_1i(&mut self, location: i32, v0: i32) {
        self.record(format!("Uniform1i({location}, {v0})"));
    }

    fn uniform_1ui(&mut self, location: i32, v0: u32) {
        self.record(format!("Uniform1ui({location}, {v0})"));
    }

    fn uniform_1iv(&mut self, location: i32, values: &[i32]) {
        self.record(format!("Uniform1iv({location}, {values:?})"));
    }

    fn gen_buffer(&mut self) -> u32 {
        self.record("GenBuffers()".to_string());
        self.0.borrow_mut().name()
    }

    fn delete_buffer(&mut self, buffer: u32) {
        self.record(format!("DeleteBuffers({buffer})"));
    }

    fn bind_buffer(&mut self, target: u32, buffer: u32) {
        self.record(format!("BindBuffer({target:#x}, {buffer})"));
    }

    fn buffer_data<V>(&mut self, target: u32, data: &[V], usage: u32) {
        let size = std::mem::size_of_val(data);
        self.record(format!("BufferData({target:#x}, {size} bytes, {usage:#x})"));
    }

    fn buffer_sub_data<V>(&mut self, target: u32, offset: i32, data: &[V]) {
        let size = std::mem::size_of_val(data);
        self.record(format!("BufferSubData({target:#x}, {offset}, {size} bytes)"));
    }

    fn gen_vertex_array(&mut self) -> u32 {
        self.record("GenVertexArrays()".to_string());
        self.0.borrow_mut().name()
    }

    fn delete_vertex_array(&mut self, array: u32) {
        self.record(format!("DeleteVertexArrays({array})"));
    }

    fn bind_vertex_array(&mut self, array: u32) {
        self.record(format!("BindVertexArray({array})"));
    }

    fn enable_vertex_attrib_array(&mut self, index: u32) {
        self.record(format!("EnableVertexAttribArray({index})"));
    }

    fn vertex_attrib_pointer(
        &mut self,
        index: u32,
        size: i32,
        ty: u32,
        normalized: u8,
        stride: i32,
        offset: i32,
    ) {
        self.record(format!(
            "VertexAttribPointer({index}, {size}, {ty:#x}, {normalized}, {stride}, {offset})"
        ));
    }

    fn gen_texture(&mut self) -> u32 {
        self.record("GenTextures()".to_string());
        let mut state = self.0.borrow_mut();
        let name = state.name();
        if name != 0 {
            let _ = state.textures.insert(name);
        }
        name
    }

    fn delete_texture(&mut self, texture: u32) {
        self.record(format!("DeleteTextures({texture})"));
        let _ = self.0.borrow_mut().textures.remove(&texture);
    }

    fn bind_texture(&mut self, target: u32, texture: u32) {
        self.record(format!("BindTexture({target:#x}, {texture})"));
    }

    fn active_texture(&mut self, texture: u32) {
        self.record(format!("ActiveTexture({texture:#x})"));
    }

    fn tex_image_2d(
        &mut self,
        target: u32,
        level: i32,
        internal_format: i32,
        width: i32,
        height: i32,
        border: i32,
        format: u32,
        ty: u32,
        pixels: Option<&[u8]>,
    ) {
        let pixels = pixels.map(<[u8]>::len);
        self.record(format!(
            "TexImage2D({target:#x}, {level}, {internal_format:#x}, {width}, {height}, {border}, \
             {format:#x}, {ty:#x}, {pixels:?})"
        ));
        if !(0..=MAX_TEXTURE_SIZE).contains(&width) || !(0..=MAX_TEXTURE_SIZE).contains(&height) {
            self.0.borrow_mut().errors.push_back(INVALID_VALUE);
        }
    }

    fn tex_image_3d(
        &mut self,
        target: u32,
        level: i32,
        internal_format: i32,
        width: i32,
        height: i32,
        depth: i32,
        border: i32,
        format: u32,
        ty: u32,
        pixels: Option<&[u8]>,
    ) {
        let pixels = pixels.map(<[u8]>::len);
        self.record(format!(
            "TexImage3D({target:#x}, {level}, {internal_format:#x}, {width}, {height}, {depth}, \
             {border}, {format:#x}, {ty:#x}, {pixels:?})"
        ));
        if !(0..=MAX_TEXTURE_SIZE).contains(&width) || !(0..=MAX_TEXTURE_SIZE).contains(&height) {
            self.0.borrow_mut().errors.push_back(INVALID_VALUE);
        }
    }

    fn tex_sub_image_3d(
        &mut self,
        target: u32,
        level: i32,
        xoffset: i32,
        yoffset: i32,
        zoffset: i32,
        width: i32,
        height: i32,
        depth: i32,
        format: u32,
        ty: u32,
        pixels: &[u8],
    ) {
        self.record(format!(
            "TexSubImage3D({target:#x}, {level}, {xoffset}, {yoffset}, {zoffset}, {width}, \
             {height}, {depth}, {format:#x}, {ty:#x}, {} bytes)",
            pixels.len()
        ));
        if pixels.is_empty() {
            self.0.borrow_mut().errors.push_back(INVALID_VALUE);
        }
    }

    fn tex_parameteri(&mut self, target: u32, pname: u32, param: i32) {
        self.record(format!("TexParameteri({target:#x}, {pname:#x}, {param:#x})"));
    }

    fn generate_mipmap(&mut self, target: u32) {
        self.record(format!("GenerateMipmap({target:#x})"));
    }
}

/// Run a function with a context on a fresh simulated device.
fn with_opengl_context<F>(f: F)
where
    F: FnOnce(Context<Device>, Device),
{
    let device = Device::default();
    f(Context::new(device.clone()), device)
}

fn strings(calls: &[&str]) -> Vec<String> {
    calls.iter().map(|call| call.to_string()).collect()
}

/// Check that the description of the device's error type works as
/// expected.
#[test]
fn context_error_debug_impl() {
    let err = DeviceFailure::from_code(INVALID_VALUE);
    let s = err.describe();
    assert_eq!(s, "OpenGL error: invalid value (0x501)");

    let err = DeviceFailure::from_code(0xfff);
    let s = err.describe();
    assert_eq!(s, "OpenGL error: 0xfff");
}

/// Check that the description of the device's error type names the
/// codes it knows and gives every code in hexadecimal.
#[test]
fn error_debug_impl() {
    let err = DeviceFailure::from_code(INVALID_VALUE);
    let s = err.describe();
    assert_eq!(s, "OpenGL error: invalid value (0x501)");

    let err = DeviceFailure::from_code(0xfff);
    let s = err.describe();
    assert_eq!(s, "OpenGL error: 0xfff");
}

/// Check that we can create a vertex shader.
#[test]
fn vertex_shader_creation() {
    let shader_code = format!(
        r#"#version {glsl_version} core

in vec4 position;

void main() {{
   gl_Position = position;
}}
"#,
        glsl_version = Shader::<Context<Device>>::glsl_version()
    );

    with_opengl_context(|mut gl_context, _device| {
        let _shader = Shader::new(ShaderType::Vertex, &shader_code, &mut gl_context).unwrap();
    })
}

/// Check that we can create a fragment shader.
#[test]
fn fragment_shader_creation() {
    let shader_code = format!(
        r#"#version {glsl_version} core

out vec4 color;

void main() {{
   color = vec4(1.0f, 1.0f, 1.0f, 1.0f);
}}
"#,
        glsl_version = Shader::<Context<Device>>::glsl_version()
    );

    with_opengl_context(|mut gl_context, _device| {
        let _shader = Shader::new(ShaderType::Fragment, &shader_code, &mut gl_context).unwrap();
    })
}

/// Make sure that we correctly fail creation of a shader when invalid
/// code is provided.
#[test]
fn shader_creation_failure() {
    let shader_code = r#"
not a valid identifier here
"#;

    with_opengl_context(|mut gl_context, _device| {
        let err = Shader::new(ShaderType::Vertex, shader_code, &mut gl_context).err().unwrap();
        assert!(err.message().contains("syntax error"), "{}", err.report());
    })
}

fn vertex_shader_code() -> String {
    format!(
        r#"
#version {glsl_version}

in vec4 position;

void main() {{
   gl_Position = position;
}}
"#,
        glsl_version = Shader::<Context<Device>>::glsl_version()
    )
}

fn fragment_shader_code() -> String {
    format!(
        r#"
#version {glsl_version}

out vec4 color;

void main() {{
   color = vec4(1.0f, 1.0f, 1.0f, 1.0f);
}}
"#,
        glsl_version = Shader::<Context<Device>>::glsl_version()
    )
}

/// Check that we can create a program.
#[test]
fn program_creation() {
    let vertex_shader = vertex_shader_code();
    let fragment_shader = fragment_shader_code();

    with_opengl_context(|mut gl_context, _device| {
        let vertex_shader =
            Shader::new(ShaderType::Vertex, &vertex_shader, &mut gl_context).unwrap();
        let fragment_shader =
            Shader::new(ShaderType::Fragment, &fragment_shader, &mut gl_context).unwrap();
        let program = Program::new(&[vertex_shader, fragment_shader], &mut gl_context).unwrap();

        assert!(program.query_attrib_location("position", &mut gl_context).is_ok());
        assert!(program.query_attrib_location("foobar", &mut gl_context).is_err());
    })
}

/// Check that we can create a framebuffer object.
#[test]
fn framebuffer_creation() {
    with_opengl_context(|mut gl_context, _device| {
        let depth_map = Texture::builder()
            .set_context(&gl_context)
            .new_depth_map(512, 512, &mut gl_context)
            .unwrap();
        let _framebuffer = Framebuffer::with_depth_map(&depth_map, &mut gl_context).unwrap();
    })
}

/// The shading language version follows the version of the device
/// interface.
#[test]
fn glsl_version_is_aligned() {
    assert_eq!(Context::<Device>::version(), (3, 3, None));
    assert_eq!(Shader::<Context<Device>>::glsl_version(), "330");
}

/// A shader is created, given its source and compiled, and deleted
/// exactly once when it is released.
#[test]
fn shader_is_released_exactly_once() {
    with_opengl_context(|mut gl_context, device| {
        let source = vertex_shader_code();
        let shader = Shader::new(ShaderType::Vertex, &source, &mut gl_context).unwrap();
        assert_eq!(shader.handle().to_id(), 1);
        assert_eq!(
            device.calls(),
            vec![
                "CreateShader(0x8b31)".to_string(),
                format!("ShaderSource(1, {} bytes)", source.len()),
                "CompileShader(1)".to_string(),
                "GetShaderiv(1, 0x8b81)".to_string(),
            ]
        );

        let () = shader.release(&mut gl_context);
        let deletions =
            device.calls().iter().filter(|call| call.starts_with("DeleteShader")).count();
        assert_eq!(deletions, 1);
        assert_eq!(device.calls().last().unwrap(), "DeleteShader(1)");
        assert!(device.0.borrow().shaders.is_empty());
    })
}

/// A shader that does not compile is deleted again, and the failure
/// carries the diagnostic of the device.
#[test]
fn failed_shader_is_deleted() {
    with_opengl_context(|mut gl_context, device| {
        let err = Shader::new(ShaderType::Fragment, "nonsense", &mut gl_context).err().unwrap();
        assert_eq!(
            device.calls(),
            strings(&[
                "CreateShader(0x8b30)",
                "ShaderSource(1, 8 bytes)",
                "CompileShader(1)",
                "GetShaderiv(1, 0x8b81)",
                "GetShaderiv(1, 0x8b84)",
                "GetShaderInfoLog(1, 52)",
                "DeleteShader(1)",
            ])
        );
        assert_eq!(
            err,
            Error::CompileShader {
                stage: ShaderType::Fragment,
                log: b"0:2(1): error: syntax error, unexpected IDENTIFIER\n\0".to_vec(),
            }
        );
        assert_eq!(
            err.message(),
            "failed to compile fragment shader: 0:2(1): error: syntax error, unexpected \
             IDENTIFIER\n\0"
        );
        assert_eq!(err.report(), err.message());
    })
}

/// Without a shader object nothing else is attempted.
#[test]
fn refused_shader_is_reported() {
    with_opengl_context(|mut gl_context, device| {
        device.0.borrow_mut().refuse_objects = true;
        let err = Shader::new(ShaderType::Vertex, "void main() {}", &mut gl_context).err().unwrap();
        assert_eq!(err, Error::CreateShader);
        assert_eq!(err.message(), "failed to create shader object");
        assert_eq!(device.calls(), strings(&["CreateShader(0x8b31)"]));

        let err = Program::new(&[], &mut gl_context).err().unwrap();
        assert_eq!(err, Error::CreateProgram);
        assert_eq!(err.message(), "failed to create program object");
        assert_eq!(device.calls_since(1), strings(&["CreateProgram()"]));
    })
}

/// A diagnostic that is not valid UTF-8 is decoded with replacement
/// characters.
#[test]
fn diagnostic_is_decoded_lossily() {
    let err = Error::<DeviceFailure>::LinkProgram { log: vec![b'o', b'h', 0xff, b'!'] };
    assert_eq!(err.message(), "failed to link program: oh\u{fffd}!");
    let err = Error::<DeviceFailure>::ValidateProgram { log: b"no".to_vec() };
    assert_eq!(err.message(), "failed to validate program: no");
}

/// A program attaches all shaders, links, detaches all shaders and
/// validates.
#[test]
fn program_protocol() {
    with_opengl_context(|mut gl_context, device| {
        let vertex =
            Shader::new(ShaderType::Vertex, &vertex_shader_code(), &mut gl_context).unwrap();
        let fragment =
            Shader::new(ShaderType::Fragment, &fragment_shader_code(), &mut gl_context).unwrap();
        let before = device.count();
        let program = Program::new(&[vertex, fragment], &mut gl_context).unwrap();
        assert_eq!(
            device.calls_since(before),
            strings(&[
                "CreateProgram()",
                "AttachShader(3, 1)",
                "AttachShader(3, 2)",
                "LinkProgram(3)",
                "GetProgramiv(3, 0x8b82)",
                "DetachShader(3, 1)",
                "DetachShader(3, 2)",
                "ValidateProgram(3)",
                "GetProgramiv(3, 0x8b83)",
            ])
        );

        let before = device.count();
        let () = program.bind(&mut gl_context);
        let () = program.release(&mut gl_context);
        assert_eq!(device.calls_since(before), strings(&["UseProgram(3)", "DeleteProgram(3)"]));
    })
}

/// A program that does not link is deleted again, without detaching
/// its shaders.
#[test]
fn failed_link_deletes_program() {
    with_opengl_context(|mut gl_context, device| {
        let vertex =
            Shader::new(ShaderType::Vertex, &vertex_shader_code(), &mut gl_context).unwrap();
        let before = device.count();
        let err = Program::new(&[vertex], &mut gl_context).err().unwrap();
        assert_eq!(
            device.calls_since(before),
            strings(&[
                "CreateProgram()",
                "AttachShader(2, 1)",
                "LinkProgram(2)",
                "GetProgramiv(2, 0x8b82)",
                "GetProgramiv(2, 0x8b84)",
                "GetProgramInfoLog(2, 52)",
                "DeleteProgram(2)",
            ])
        );
        assert_eq!(
            err.message(),
            "failed to link program: error: linking with uncompiled/unspecialized shader\0"
        );
    })
}

/// A program that does not validate is deleted again, after its
/// shaders were detached.
#[test]
fn failed_validation_deletes_program() {
    with_opengl_context(|mut gl_context, device| {
        let vertex =
            Shader::new(ShaderType::Vertex, &vertex_shader_code(), &mut gl_context).unwrap();
        let fragment =
            Shader::new(ShaderType::Fragment, &fragment_shader_code(), &mut gl_context).unwrap();
        device.0.borrow_mut().invalid = true;
        let before = device.count();
        let err = Program::new(&[vertex, fragment], &mut gl_context).err().unwrap();
        assert_eq!(err, Error::ValidateProgram { log: b"no vertex array object bound\0".to_vec() });
        assert_eq!(err.message(), "failed to validate program: no vertex array object bound\0");
        assert_eq!(
            device.calls_since(before),
            strings(&[
                "CreateProgram()",
                "AttachShader(3, 1)",
                "AttachShader(3, 2)",
                "LinkProgram(3)",
                "GetProgramiv(3, 0x8b82)",
                "DetachShader(3, 1)",
                "DetachShader(3, 2)",
                "ValidateProgram(3)",
                "GetProgramiv(3, 0x8b83)",
                "GetProgramiv(3, 0x8b84)",
                "GetProgramInfoLog(3, 29)",
                "DeleteProgram(3)",
            ])
        );
    })
}

/// A device that answers a lookup with less than -1 knows no such
/// uniform.
#[test]
fn unknown_uniform() {
    with_opengl_context(|mut gl_context, device| {
        let vertex =
            Shader::new(ShaderType::Vertex, &vertex_shader_code(), &mut gl_context).unwrap();
        let fragment =
            Shader::new(ShaderType::Fragment, &fragment_shader_code(), &mut gl_context).unwrap();
        let program = Program::new(&[vertex, fragment], &mut gl_context).unwrap();
        device.0.borrow_mut().confused = true;
        let err = program.query_uniform_location("transform", &mut gl_context).err().unwrap();
        assert_eq!(err, Error::UniformLocation { name: "transform".to_string() });
        assert_eq!(err.message(), "failed to query `transform` uniform location");
        assert_eq!(device.calls().last().unwrap(), "GetUniformLocation(3, transform)");
    })
}

/// A missing attribute is an error, while a missing uniform is reported
/// by the device as the location -1, which is a location.
#[test]
fn location_sentinels() {
    with_opengl_context(|mut gl_context, _device| {
        let vertex = format!(
            "#version 330\nuniform mat4 transform;\nin vec4 position;\nin vec3 normal;\n{}",
            "void main() {\n gl_Position = transform * position;\n}\n"
        );
        let vertex = Shader::new(ShaderType::Vertex, &vertex, &mut gl_context).unwrap();
        let fragment =
            Shader::new(ShaderType::Fragment, &fragment_shader_code(), &mut gl_context).unwrap();
        let program = Program::new(&[vertex, fragment], &mut gl_context).unwrap();

        assert_eq!(program.query_attrib_location("position", &mut gl_context).unwrap(), 0);
        assert_eq!(program.query_attrib_location("normal", &mut gl_context).unwrap(), 1);
        let err = program.query_attrib_location("foobar", &mut gl_context).err().unwrap();
        assert_eq!(err, Error::AttribLocation { name: "foobar".to_string() });
        assert_eq!(err.message(), "failed to query `foobar` attribute location");

        let location = program.query_uniform_location("transform", &mut gl_context).unwrap();
        assert_eq!(location.to_index(), 0);
        let location = program.query_uniform_location("foobar", &mut gl_context).unwrap();
        assert_eq!(location.to_index(), -1);

        assert_eq!(glctx::sys::convert::attrib_index_of(-1), None);
        assert_eq!(glctx::sys::convert::attrib_index_of(0), Some(0));
        assert_eq!(glctx::sys::convert::attrib_index_of(i32::MAX), Some(0x7fff_ffff));
        assert!(glctx::sys::opengl::context::uniform_index_of(-2).is_none());
        assert_eq!(glctx::sys::opengl::context::uniform_index_of(-1).unwrap().to_index(), -1);
        assert_eq!(glctx::sys::opengl::context::uniform_index_of(7).unwrap().to_index(), 7);

        let err = Error::<DeviceFailure>::UniformLocation { name: "light".to_string() };
        assert_eq!(err.message(), "failed to query `light` uniform location");
    })
}

/// A depth map allocates storage without pixels and sets up the
/// comparison against a reference.
#[test]
fn depth_map_protocol() {
    with_opengl_context(|mut gl_context, device| {
        let depth_map = Texture::builder()
            .set_context(&gl_context)
            .new_depth_map(512, 512, &mut gl_context)
            .unwrap();
        assert_eq!(depth_map.target(), TextureTarget::Texture2D);
        assert_eq!(depth_map.handle().to_id(), 1);
        assert_eq!(
            device.calls(),
            strings(&[
                "GenTextures()",
                "GetError()",
                "BindTexture(0xde1, 1)",
                "TexParameteri(0xde1, 0x2800, 0x2601)",
                "TexParameteri(0xde1, 0x2801, 0x2601)",
                "TexParameteri(0xde1, 0x2802, 0x812f)",
                "TexParameteri(0xde1, 0x2803, 0x812f)",
                "PixelStorei(0xcf5, 1)",
                "TexParameteri(0xde1, 0x884c, 0x884e)",
                "TexParameteri(0xde1, 0x884d, 0x204)",
                "TexImage2D(0xde1, 0, 0x8cac, 512, 512, 0, 0x1902, 0x1406, None)",
                "GetError()",
                "BindTexture(0xde1, 0)",
            ])
        );
        let () = depth_map.release(&mut gl_context);
        assert_eq!(device.calls().last().unwrap(), "DeleteTextures(1)");
    })
}

/// A depth map that the device refuses is unbound and deleted, without
/// generating mipmaps.
#[test]
fn refused_depth_map_is_deleted() {
    with_opengl_context(|mut gl_context, device| {
        let err = Texture::builder()
            .set_mipmaps(true)
            .set_context(&gl_context)
            .new_depth_map(1 << 20, 512, &mut gl_context)
            .err().unwrap();
        assert_eq!(err, Error::DepthMapTexture { cause: DeviceFailure::from_code(INVALID_VALUE) });
        assert_eq!(err.message(), "failed to depth map texture");
        assert_eq!(
            err.report(),
            "failed to depth map texture: OpenGL error: invalid value (0x501)"
        );
        assert_eq!(
            device.calls_since(10),
            strings(&[
                "TexImage2D(0xde1, 0, 0x8cac, 1048576, 512, 0, 0x1902, 0x1406, None)",
                "GetError()",
                "BindTexture(0xde1, 0)",
                "DeleteTextures(1)",
            ])
        );
        assert_eq!(device.calls()[4], "TexParameteri(0xde1, 0x2801, 0x2703)");
    })
}

/// An exhausted device refuses every name.
#[test]
fn exhausted_device_refuses_objects() {
    with_opengl_context(|mut gl_context, device| {
        device.0.borrow_mut().exhausted = true;
        let cause = || DeviceFailure::from_code(OUT_OF_MEMORY);
        let builder = Texture::builder().set_context(&gl_context);

        let err = builder.new_depth_map(1, 1, &mut gl_context).err().unwrap();
        assert_eq!(err, Error::CreateTexture { cause: cause() });
        assert_eq!(err.message(), "failed to generate OpenGL texture ID");
        assert_eq!(
            err.report(),
            "failed to generate OpenGL texture ID: OpenGL error: out of memory (0x505)"
        );
        assert_eq!(device.calls(), strings(&["GenTextures()", "GetError()"]));

        let err = VertexBuffer::<_, u16>::from_indices(
            &[0, 1, 2],
            VertexBufferUsage::StaticDraw,
            &mut gl_context,
        )
        .err().unwrap();
        assert_eq!(err, Error::CreateVertexBuffer { cause: cause() });
        assert_eq!(err.message(), "failed to create vertex buffer");
        assert_eq!(device.calls_since(2), strings(&["GenBuffers()", "GetError()"]));

        device.0.borrow_mut().exhausted = false;
        let depth_map = builder.new_depth_map(1, 1, &mut gl_context).unwrap();
        let buffer = VertexBuffer::<_, u16>::from_indices(
            &[0, 1, 2],
            VertexBufferUsage::StaticDraw,
            &mut gl_context,
        )
        .unwrap();
        device.0.borrow_mut().exhausted = true;

        let err = Framebuffer::with_depth_map(&depth_map, &mut gl_context).err().unwrap();
        assert_eq!(err, Error::CreateFramebuffer { cause: cause() });
        assert_eq!(err.message(), "failed to create framebuffer object");

        let err = VertexArray::with_attribs(&buffer, &[], &[], &mut gl_context).err().unwrap();
        assert_eq!(err, Error::CreateVertexArray { cause: cause() });
        assert_eq!(err.message(), "failed to create vertex array");
        assert_eq!(
            err.report(),
            "failed to create vertex array: OpenGL error: out of memory (0x505)"
        );
    })
}

/// A framebuffer with a depth map is complete while it is bound, and
/// the status is queried before it is unbound.
#[test]
fn framebuffer_protocol() {
    with_opengl_context(|mut gl_context, device| {
        let depth_map = Texture::builder()
            .set_context(&gl_context)
            .new_depth_map(512, 512, &mut gl_context)
            .unwrap();
        let before = device.count();
        let framebuffer = Framebuffer::with_depth_map(&depth_map, &mut gl_context).unwrap();
        assert_eq!(
            device.calls_since(before),
            strings(&[
                "GenFramebuffers()",
                "GetError()",
                "BindFramebuffer(0x8d40, 2)",
                "FramebufferTexture2D(0x8d40, 0x8d00, 0xde1, 1, 0)",
                "DrawBuffer(0x0)",
                "ReadBuffer(0x0)",
                "CheckFramebufferStatus(0x8d40)",
                "BindFramebuffer(0x8d40, 0)",
            ])
        );

        let before = device.count();
        let () = framebuffer.bind(&mut gl_context);
        assert!(gl_context.check_framebuffer_status().check_complete());
        let () = framebuffer.unbind(&mut gl_context);
        let () = framebuffer.release(&mut gl_context);
        assert_eq!(
            device.calls_since(before),
            strings(&[
                "BindFramebuffer(0x8d40, 2)",
                "CheckFramebufferStatus(0x8d40)",
                "BindFramebuffer(0x8d40, 0)",
                "DeleteFramebuffers(2)",
            ])
        );
    })
}

/// A framebuffer without any depth attachment is reported as
/// incomplete.
#[test]
fn framebuffer_without_attachment_is_incomplete() {
    with_opengl_context(|mut gl_context, _device| {
        let fbo = gl_context.create_framebuffer().unwrap();
        let () = gl_context.bind_framebuffer(Some(&fbo));
        let status = gl_context.check_framebuffer_status();
        assert!(!status.check_complete());
        assert_ne!(status, FramebufferStatus::complete());
        assert_eq!(status.to_code(), FRAMEBUFFER_INCOMPLETE_MISSING_ATTACHMENT);
        assert_eq!(status.to_text(), "0x8cd7");
        let () = gl_context.bind_framebuffer(None);
        let () = gl_context.delete_framebuffer(&fbo);

        let err = Error::<DeviceFailure>::IncompleteFramebuffer { status };
        assert_eq!(err.message(), "failed to complete framebuffer: status: 0x8cd7");
    })
}

/// A framebuffer that is not complete is deleted again, and the failure
/// carries the raw status.
#[test]
fn incomplete_framebuffer_is_deleted() {
    with_opengl_context(|mut gl_context, device| {
        // A texture of another device is nothing that this device could
        // attach.
        let mut other = Context::new(Device::default());
        let foreign = Texture::builder()
            .set_context(&other)
            .new_depth_map(512, 512, &mut other)
            .unwrap();

        let err = Framebuffer::with_depth_map(&foreign, &mut gl_context).err().unwrap();
        let status = FramebufferStatus::from_code(FRAMEBUFFER_INCOMPLETE_MISSING_ATTACHMENT);
        assert_eq!(err, Error::IncompleteFramebuffer { status });
        assert_eq!(err.message(), "failed to complete framebuffer: status: 0x8cd7");
        assert_eq!(
            device.calls(),
            strings(&[
                "GenFramebuffers()",
                "GetError()",
                "BindFramebuffer(0x8d40, 1)",
                "FramebufferTexture2D(0x8d40, 0x8d00, 0xde1, 1, 0)",
                "DrawBuffer(0x0)",
                "ReadBuffer(0x0)",
                "CheckFramebufferStatus(0x8d40)",
                "BindFramebuffer(0x8d40, 0)",
                "DeleteFramebuffers(1)",
            ])
        );
    })
}

/// A 2D texture is populated from pixels, with mipmaps if asked for.
#[test]
fn image_protocol() {
    with_opengl_context(|mut gl_context, device| {
        let info = TextureInfo {
            width: 2,
            height: 1,
            intern_format: TextureInternalFormat::SRGBA8,
            pixel_format: TexturePixelFormat::RGBA,
            color_format: Type::UnsignedByte,
        };
        let texture = Texture::builder()
            .set_mipmaps(true)
            .set_context(&gl_context)
            .from_image(&[0; 8], &info, &mut gl_context)
            .unwrap();
        assert_eq!(texture.target(), TextureTarget::Texture2D);
        assert_eq!(
            device.calls_since(8),
            strings(&[
                "TexImage2D(0xde1, 0, 0x8c43, 2, 1, 0, 0x1908, 0x1401, Some(8))",
                "GetError()",
                "GenerateMipmap(0xde1)",
                "BindTexture(0xde1, 0)",
            ])
        );

        let before = device.count();
        let () = texture.bind(&mut gl_context);
        let () = texture.unbind(&mut gl_context);
        assert_eq!(
            device.calls_since(before),
            strings(&["BindTexture(0xde1, 1)", "BindTexture(0xde1, 0)"])
        );

        let before = device.count();
        let info = TextureInfo { width: 1 << 20, ..info };
        let err = Texture::builder()
            .set_mipmaps(true)
            .set_context(&gl_context)
            .from_image(&[0; 8], &info, &mut gl_context)
            .err().unwrap();
        assert_eq!(err, Error::PopulateTexture { cause: DeviceFailure::from_code(INVALID_VALUE) });
        assert_eq!(err.message(), "failed to populate texture");
        assert_eq!(
            device.calls_since(before + 10),
            strings(&["BindTexture(0xde1, 0)", "DeleteTextures(2)"])
        );
    })
}

fn layer(width: u32, height: u32, bytes: usize) -> Result<(Vec<u8>, TextureInfo), String> {
    let info = TextureInfo {
        width,
        height,
        intern_format: TextureInternalFormat::RGB8,
        pixel_format: TexturePixelFormat::RGB,
        color_format: Type::UnsignedByte,
    };
    Ok((vec![0; bytes], info))
}

/// An array texture allocates storage for as many layers as there are
/// images and hands the images over one by one.
#[test]
fn images_protocol() {
    with_opengl_context(|mut gl_context, device| {
        let images = [layer(4, 4, 48), layer(2, 4, 24), layer(4, 1, 12)];
        let texture = Texture::builder()
            .set_context(&gl_context)
            .from_images(4, 4, &images, &mut gl_context)
            .unwrap();
        assert_eq!(texture.target(), TextureTarget::Texture2DArray);
        assert_eq!(
            device.calls(),
            strings(&[
                "GenTextures()",
                "GetError()",
                "BindTexture(0x8c1a, 1)",
                "TexParameteri(0x8c1a, 0x2800, 0x2601)",
                "TexParameteri(0x8c1a, 0x2801, 0x2601)",
                "TexParameteri(0x8c1a, 0x2802, 0x812f)",
                "TexParameteri(0x8c1a, 0x2803, 0x812f)",
                "PixelStorei(0xcf5, 1)",
                "TexImage3D(0x8c1a, 0, 0x8051, 4, 4, 3, 0, 0x1907, 0x1401, None)",
                "GetError()",
                "TexSubImage3D(0x8c1a, 0, 0, 0, 0, 4, 4, 1, 0x1907, 0x1401, 48 bytes)",
                "GetError()",
                "TexSubImage3D(0x8c1a, 0, 0, 0, 1, 2, 4, 1, 0x1907, 0x1401, 24 bytes)",
                "GetError()",
                "TexSubImage3D(0x8c1a, 0, 0, 0, 2, 4, 1, 1, 0x1907, 0x1401, 12 bytes)",
                "GetError()",
                "BindTexture(0x8c1a, 0)",
            ])
        );
    })
}

/// An array texture can be built one image at a time: an image that
/// exceeds the bounds is not handed over, and the caller decides how
/// the construction ends.
#[test]
fn images_one_at_a_time() {
    with_opengl_context(|mut gl_context, device| {
        let builder = Texture::builder().set_mipmaps(true).set_context(&gl_context);
        let (pixels, info) = layer(4, 4, 48).unwrap();
        let (large, large_info) = layer(5, 4, 60).unwrap();

        let texture = builder.begin_images(4, 4, 2, &info, &mut gl_context).unwrap();
        assert_eq!(texture.target(), TextureTarget::Texture2DArray);
        assert_eq!(
            device.calls_since(8),
            strings(&[
                "TexImage3D(0x8c1a, 0, 0x8051, 4, 4, 2, 0, 0x1907, 0x1401, None)",
                "GetError()",
            ])
        );
        assert_eq!(builder.add_image(&texture, 4, 4, 0, &pixels, &info, &mut gl_context), Ok(()));
        let before = device.count();
        assert_eq!(
            builder.add_image(&texture, 4, 4, 1, &large, &large_info, &mut gl_context),
            Err(Error::ImageTooLarge { index: 1 })
        );
        assert_eq!(device.count(), before);
        assert!(builder.end_images(texture, false, &mut gl_context).is_none());
        assert_eq!(
            device.calls_since(before),
            strings(&["BindTexture(0x8c1a, 0)", "DeleteTextures(1)"])
        );

        let texture = builder.begin_images(4, 4, 2, &info, &mut gl_context).unwrap();
        let before = device.count();
        assert_eq!(builder.add_image(&texture, 4, 4, 0, &pixels, &info, &mut gl_context), Ok(()));
        assert_eq!(
            builder.add_image(&texture, 4, 4, 1, &[], &info, &mut gl_context),
            Err(Error::PopulateTexture3d {
                index: 1,
                cause: DeviceFailure::from_code(INVALID_VALUE)
            })
        );
        assert_eq!(builder.add_image(&texture, 4, 4, 1, &pixels, &info, &mut gl_context), Ok(()));
        let texture = builder.end_images(texture, true, &mut gl_context).unwrap();
        assert_eq!(texture.handle().to_id(), 2);
        assert_eq!(
            device.calls_since(before),
            strings(&[
                "TexSubImage3D(0x8c1a, 0, 0, 0, 0, 4, 4, 1, 0x1907, 0x1401, 48 bytes)",
                "GetError()",
                "TexSubImage3D(0x8c1a, 0, 0, 0, 1, 4, 4, 1, 0x1907, 0x1401, 0 bytes)",
                "GetError()",
                "TexSubImage3D(0x8c1a, 0, 0, 0, 1, 4, 4, 1, 0x1907, 0x1401, 48 bytes)",
                "GetError()",
                "GenerateMipmap(0x8c1a)",
                "BindTexture(0x8c1a, 0)",
            ])
        );

        let before = device.count();
        let err = builder.begin_images(1 << 30, 4, 1, &info, &mut gl_context).err().unwrap();
        assert_eq!(err, Error::InitTexture3d { cause: DeviceFailure::from_code(INVALID_VALUE) });
        assert_eq!(
            device.calls_since(before + 10),
            strings(&["BindTexture(0x8c1a, 0)", "DeleteTextures(3)"])
        );
    })
}

/// An image that exceeds the bounds stops the construction of an array
/// texture, which is then deleted.
#[test]
fn image_larger_than_bounds() {
    with_opengl_context(|mut gl_context, device| {
        let images = [layer(4, 4, 48), layer(5, 4, 60), layer(4, 4, 48)];
        let err = Texture::builder()
            .set_mipmaps(true)
            .set_context(&gl_context)
            .from_images(4, 4, &images, &mut gl_context)
            .err().unwrap();
        assert_eq!(err, Error::ImageTooLarge { index: 1 });
        assert_eq!(err.message(), "image 1 is larger than maximum bounds provided");
        assert_eq!(
            device.calls_since(10),
            strings(&[
                "TexSubImage3D(0x8c1a, 0, 0, 0, 0, 4, 4, 1, 0x1907, 0x1401, 48 bytes)",
                "GetError()",
                "BindTexture(0x8c1a, 0)",
                "DeleteTextures(1)",
            ])
        );

        let images = [layer(4, 5, 60)];
        let err = Texture::builder()
            .set_context(&gl_context)
            .from_images(4, 4, &images, &mut gl_context)
            .err().unwrap();
        assert_eq!(err, Error::ImageTooLarge { index: 0 });
        assert_eq!(err.message(), "image 0 is larger than maximum bounds provided");
        let err = Error::<DeviceFailure>::ImageTooLarge { index: 1234567890 };
        assert_eq!(err.message(), "image 1234567890 is larger than maximum bounds provided");
    })
}

/// An image that the caller could not supply stops the construction of
/// an array texture; nothing is issued if it is the first one.
#[test]
fn image_that_was_not_supplied() {
    with_opengl_context(|mut gl_context, device| {
        let images = [Err("no such file".to_string()), layer(4, 4, 48)];
        let err = Texture::builder()
            .set_context(&gl_context)
            .from_images(4, 4, &images, &mut gl_context)
            .err().unwrap();
        assert_eq!(err, Error::Image { index: 0, message: "no such file".to_string() });
        assert_eq!(err.message(), "no such file");
        assert_eq!(device.count(), 0);

        let images = [layer(4, 4, 48), layer(4, 4, 48), Err("truncated".to_string())];
        let err = Texture::builder()
            .set_context(&gl_context)
            .from_images(4, 4, &images, &mut gl_context)
            .err().unwrap();
        assert_eq!(err, Error::Image { index: 2, message: "truncated".to_string() });
        assert_eq!(err.report(), "truncated");
        assert_eq!(
            device.calls_since(14),
            strings(&["BindTexture(0x8c1a, 0)", "DeleteTextures(1)"])
        );
    })
}

/// A refusal of the device stops the construction of an array texture.
#[test]
fn image_that_the_device_refuses() {
    with_opengl_context(|mut gl_context, device| {
        let cause = || DeviceFailure::from_code(INVALID_VALUE);
        let images = [layer(4, 4, 48), layer(4, 4, 0), layer(4, 4, 48)];
        let err = Texture::builder()
            .set_context(&gl_context)
            .from_images(4, 4, &images, &mut gl_context)
            .err().unwrap();
        assert_eq!(err, Error::PopulateTexture3d { index: 1, cause: cause() });
        assert_eq!(err.message(), "failed to initialize 3D texture (index = 1)");
        assert_eq!(
            err.report(),
            "failed to initialize 3D texture (index = 1): OpenGL error: invalid value (0x501)"
        );
        assert_eq!(
            device.calls_since(12),
            strings(&[
                "TexSubImage3D(0x8c1a, 0, 0, 0, 1, 4, 4, 1, 0x1907, 0x1401, 0 bytes)",
                "GetError()",
                "BindTexture(0x8c1a, 0)",
                "DeleteTextures(1)",
            ])
        );

        let before = device.count();
        let images = [layer(4, 4, 48)];
        let err = Texture::builder()
            .set_context(&gl_context)
            .from_images(1 << 30, 4, &images, &mut gl_context)
            .err().unwrap();
        assert_eq!(err, Error::InitTexture3d { cause: cause() });
        assert_eq!(err.message(), "failed to initialize 3D texture");
        assert_eq!(
            err.report(),
            "failed to initialize 3D texture: OpenGL error: invalid value (0x501)"
        );
        assert_eq!(
            device.calls_since(before + 8),
            strings(&[
                "TexImage3D(0x8c1a, 0, 0x8051, 1073741824, 4, 1, 0, 0x1907, 0x1401, None)",
                "GetError()",
                "BindTexture(0x8c1a, 0)",
                "DeleteTextures(2)",
            ])
        );
    })
}

/// A vertex with a position and a normal, each of three 32 bit wide
/// components.
struct PositionNormal;

impl Attribs for PositionNormal {
    fn attribs() -> Vec<(AttribType, Attrib)> {
        vec![
            (
                AttribType::Position,
                Attrib { size: 3, type_: Type::Float, normalize: false, stride: 24, offset: 0 },
            ),
            (
                AttribType::Normal,
                Attrib { size: 3, type_: Type::Float, normalize: true, stride: 24, offset: 12 },
            ),
        ]
    }
}

/// A vertex buffer binds, takes its data and unbinds; it knows how many
/// items it holds.
#[test]
fn vertex_buffer_protocol() {
    with_opengl_context(|mut gl_context, device| {
        let vertices = [[0u32; 6]; 4];
        let buffer = VertexBuffer::<_, [u32; 6]>::from_vertices(
            &vertices,
            VertexBufferUsage::DynamicDraw,
            &mut gl_context,
        )
        .unwrap();
        assert_eq!(buffer.item_count(), 4);
        assert_eq!(buffer.handle().to_id(), 1);
        let indices = VertexBuffer::<_, u16>::from_indices(
            &[0, 1, 2, 2, 1, 3],
            VertexBufferUsage::StaticDraw,
            &mut gl_context,
        )
        .unwrap();
        assert_eq!(indices.item_count(), 6);
        assert_eq!(
            device.calls(),
            strings(&[
                "GenBuffers()",
                "GetError()",
                "BindBuffer(0x8892, 1)",
                "BufferData(0x8892, 96 bytes, 0x88e8)",
                "BindBuffer(0x8892, 0)",
                "GenBuffers()",
                "GetError()",
                "BindBuffer(0x8893, 2)",
                "BufferData(0x8893, 12 bytes, 0x88e4)",
                "BindBuffer(0x8893, 0)",
            ])
        );

        let before = device.count();
        let () = indices.bind(&mut gl_context);
        let () =
            gl_context.set_vertex_buffer_sub_data(VertexBufferTarget::ElementArray, &[3u16], 4);
        let () = gl_context.set_vertex_buffer_data(
            VertexBufferTarget::ElementArray,
            VertexBufferUsage::StreamDraw,
            &[3u16],
        );
        let () = indices.unbind(&mut gl_context);
        let () = indices.release(&mut gl_context);
        let () = buffer.release(&mut gl_context);
        assert_eq!(
            device.calls_since(before),
            strings(&[
                "BindBuffer(0x8893, 2)",
                "BufferSubData(0x8893, 4, 2 bytes)",
                "BufferData(0x8893, 2 bytes, 0x88e0)",
                "BindBuffer(0x8893, 0)",
                "DeleteBuffers(2)",
                "DeleteBuffers(1)",
            ])
        );
    })
}

/// A vertex array enables and describes each attribute under the first
/// index given for its role.
#[test]
fn vertex_array_protocol() {
    with_opengl_context(|mut gl_context, device| {
        let buffer = VertexBuffer::<_, PositionNormal>::from_vertices(
            &[],
            VertexBufferUsage::StaticDraw,
            &mut gl_context,
        )
        .unwrap();
        let before = device.count();
        let indices = [
            (4, AttribType::Normal),
            (7, AttribType::Position),
            (9, AttribType::Normal),
            (2, AttribType::Color),
        ];
        let array = VertexArray::new(&buffer, &indices, &mut gl_context).unwrap();
        assert_eq!(
            device.calls_since(before),
            strings(&[
                "GenVertexArrays()",
                "GetError()",
                "BindVertexArray(2)",
                "BindBuffer(0x8892, 1)",
                "EnableVertexAttribArray(7)",
                "VertexAttribPointer(7, 3, 0x1406, 0, 24, 0)",
                "EnableVertexAttribArray(4)",
                "VertexAttribPointer(4, 3, 0x1406, 1, 24, 12)",
                "BindBuffer(0x8892, 0)",
                "BindVertexArray(0)",
            ])
        );

        let before = device.count();
        let () = array.bind(&mut gl_context);
        let () = array.release(&mut gl_context);
        assert_eq!(
            device.calls_since(before),
            strings(&["BindVertexArray(2)", "DeleteVertexArrays(2)"])
        );
    })
}

/// A vertex array for which an index is missing is unbound and deleted
/// again.
#[test]
fn vertex_array_with_missing_index() {
    with_opengl_context(|mut gl_context, device| {
        let buffer = VertexBuffer::<_, PositionNormal>::from_vertices(
            &[],
            VertexBufferUsage::StaticDraw,
            &mut gl_context,
        )
        .unwrap();
        let before = device.count();
        let indices = [(0, AttribType::Position), (1, AttribType::Texture)];
        let err = VertexArray::new(&buffer, &indices, &mut gl_context).err().unwrap();
        assert_eq!(err, Error::MissingAttrib { ty: AttribType::Normal });
        assert_eq!(err.message(), "failed to find normal vertex attribute index");
        assert_eq!(
            device.calls_since(before),
            strings(&[
                "GenVertexArrays()",
                "GetError()",
                "BindVertexArray(2)",
                "BindBuffer(0x8892, 1)",
                "EnableVertexAttribArray(0)",
                "VertexAttribPointer(0, 3, 0x1406, 0, 24, 0)",
                "BindBuffer(0x8892, 0)",
                "BindVertexArray(0)",
                "DeleteVertexArrays(2)",
            ])
        );

        let names: Vec<&str> = [
            AttribType::Position,
            AttribType::Normal,
            AttribType::Texture,
            AttribType::Color,
        ]
        .iter()
        .map(AttribType::as_str)
        .collect();
        assert_eq!(names, ["position", "normal", "texture", "color"]);
    })
}

/// Whatever was created on the way to a failure is deleted again, and
/// what was constructed is deleted once when it is released.
#[test]
fn nothing_is_left_behind() {
    with_opengl_context(|mut gl_context, device| {
        let builder = Texture::builder().set_mipmaps(true).set_context(&gl_context);
        assert!(Shader::new(ShaderType::Vertex, "nonsense", &mut gl_context).is_err());
        assert!(builder.new_depth_map(1 << 20, 1, &mut gl_context).is_err());
        assert!(builder.from_images(4, 4, &[layer(4, 4, 0)], &mut gl_context).is_err());
        assert!(builder.from_images(4, 4, &[layer(8, 8, 1)], &mut gl_context).is_err());
        let vertex =
            Shader::new(ShaderType::Vertex, &vertex_shader_code(), &mut gl_context).unwrap();
        let shaders = [vertex];
        assert!(Program::new(&shaders, &mut gl_context).is_err());
        let buffer = VertexBuffer::<_, PositionNormal>::from_vertices(
            &[],
            VertexBufferUsage::StaticDraw,
            &mut gl_context,
        )
        .unwrap();
        assert!(VertexArray::new(&buffer, &[], &mut gl_context).is_err());

        let count = |prefixes: &[&str]| {
            device
                .calls()
                .iter()
                .filter(|call| prefixes.iter().any(|prefix| call.starts_with(prefix)))
                .count()
        };
        let created = || count(&["Gen", "CreateShader", "CreateProgram"]);
        let deleted = || count(&["Delete"]);
        assert_eq!(created(), 8);
        assert_eq!(deleted(), 6);

        let [vertex] = shaders;
        let () = vertex.release(&mut gl_context);
        let () = buffer.release(&mut gl_context);
        assert_eq!(created(), 8);
        assert_eq!(deleted(), 8);
        let state = device.0.borrow();
        assert!(state.shaders.is_empty());
        assert!(state.programs.is_empty());
        assert!(state.textures.is_empty());
        assert!(state.framebuffers.is_empty());
    })
}

/// Every state setter and draw call hands the codes of its arguments to
/// the one entry point it stands for.
#[test]
fn fixed_function_state() {
    with_opengl_context(|mut gl_context, device| {
        let () = gl_context.enable(Capability::Blend);
        let () = gl_context.enable(Capability::FramebufferSRGB);
        let () = gl_context.disable(Capability::Multisample);
        let () = gl_context.enable(Capability::DepthTest);
        let () = gl_context.enable(Capability::CullFace);
        let () = gl_context.disable(Capability::ScissorTest);
        let () = gl_context.set_depth_func(Func::LessOrEqual);
        let () = gl_context.set_blend_func(Factor::SrcAlpha, Factor::OneMinusSrcAlpha);
        let () = gl_context.set_front_face(FrontFace::ClockWise);
        let () = gl_context.set_cull_face(CullFace::Back);
        let () = gl_context.set_viewport(0, -1, 640, 480);
        let () = gl_context.set_pixel_unpack_alignment(4);
        let () = gl_context.clear(ClearMask::color_buffer() | ClearMask::depth_buffer());
        let () = gl_context.draw_arrays(Primitive::Triangles, 3);
        let () = gl_context.draw_arrays_instanced(Primitive::TriangleStrip, 4, 10);
        let () = gl_context.draw_elements::<u16>(Primitive::TriangleFan, 6);
        let () = gl_context.draw_arrays(Primitive::Lines, 2);
        let () = gl_context.set_active_texture_unit(3);
        assert_eq!(gl_context.error(), Ok(()));
        assert_eq!(
            device.calls(),
            strings(&[
                "Enable(0xbe2)",
                "Enable(0x8db9)",
                "Disable(0x809d)",
                "Enable(0xb71)",
                "Enable(0xb44)",
                "Disable(0xc11)",
                "DepthFunc(0x203)",
                "BlendFunc(0x302, 0x303)",
                "FrontFace(0x900)",
                "CullFace(0x405)",
                "Viewport(0, -1, 640, 480)",
                "PixelStorei(0xcf5, 4)",
                "Clear(0x4100)",
                "DrawArrays(0x4, 0, 3)",
                "DrawArraysInstanced(0x5, 0, 4, 10)",
                "DrawElements(0x6, 6, 0x1403)",
                "DrawArrays(0x1, 0, 2)",
                "ActiveTexture(0x84c3)",
                "GetError()",
            ])
        );

        device.0.borrow_mut().errors.push_back(0x0502);
        let err = gl_context.error().err().unwrap();
        assert_eq!(err.to_code(), 0x0502);
        assert_eq!(err.describe(), "OpenGL error: invalid operation (0x502)");
        assert_eq!(
            DeviceFailure::from_code(0x0500).describe(),
            "OpenGL error: invalid enum (0x500)"
        );
        assert_eq!(
            DeviceFailure::from_code(0x0506).describe(),
            "OpenGL error: invalid framebuffer operation (0x506)"
        );
        assert_eq!(DeviceFailure::from_code(0).describe(), "OpenGL error: 0x0");
        assert_eq!(DeviceFailure::from_code(u32::MAX).describe(), "OpenGL error: 0xffffffff");
    })
}

/// Unsigned sizes reach the device as the signed integers with the same
/// bits.
#[test]
fn sizes_keep_their_bits() {
    assert_eq!(glctx::sys::convert::signed(0), 0);
    assert_eq!(glctx::sys::convert::signed(0x7fff_ffff), i32::MAX);
    assert_eq!(glctx::sys::convert::signed(0x8000_0000), i32::MIN);
    assert_eq!(glctx::sys::convert::signed(u32::MAX), -1);
    with_opengl_context(|mut gl_context, device| {
        let () = gl_context.set_pixel_unpack_alignment(u32::MAX);
        assert_eq!(device.calls(), strings(&["PixelStorei(0xcf5, -1)"]));
        // The context hands the very driver back that it was created on.
        let driver = gl_context.into_driver();
        assert!(Rc::ptr_eq(&driver.0, &device.0));
    })
}

/// Integer uniforms are handed to the location they are set for.
#[test]
fn integer_uniforms() {
    with_opengl_context(|mut gl_context, device| {
        let location = glctx::sys::opengl::context::uniform_index_of(5).unwrap();
        let () = gl_context.set_uniform_1i(&location, -3);
        let () = gl_context.set_uniform_1ui(&location, 3);
        let () = gl_context.set_uniform_1iv(&location, &[1, 2, 3]);
        assert_eq!(
            device.calls(),
            strings(&["Uniform1i(5, -3)", "Uniform1ui(5, 3)", "Uniform1iv(5, [1, 2, 3])"])
        );
    })
}
