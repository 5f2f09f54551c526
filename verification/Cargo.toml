[package]
name = "glctx"
version = "0.1.0"
edition = "2021"
publish = false

[dependencies]
anyhow = "1"
wasm-bindgen = "0.2"
web-sys = { version = "0.3", features = ["WebGl2RenderingContext", "WebGlBuffer", "WebGlFramebuffer", "WebGlProgram", "WebGlShader", "WebGlTexture", "WebGlUniformLocation", "WebGlVertexArrayObject"] }
