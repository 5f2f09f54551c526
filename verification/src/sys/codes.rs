//! The numeric codes that both device interfaces share.

use vstd::prelude::*;

verus! {

pub const NO_ERROR: u32 = 0;

pub const INVALID_ENUM: u32 = 0x0500;

pub const INVALID_VALUE: u32 = 0x0501;

pub const INVALID_OPERATION: u32 = 0x0502;

pub const OUT_OF_MEMORY: u32 = 0x0505;

pub const INVALID_FRAMEBUFFER_OPERATION: u32 = 0x0506;

pub const NONE: u32 = 0;

pub const FLOAT: u32 = 0x1406;

pub const SHORT: u32 = 0x1402;

pub const UNSIGNED_BYTE: u32 = 0x1401;

pub const UNSIGNED_SHORT: u32 = 0x1403;

pub const BLEND: u32 = 0x0BE2;

pub const CULL_FACE: u32 = 0x0B44;

pub const DEPTH_TEST: u32 = 0x0B71;

pub const SCISSOR_TEST: u32 = 0x0C11;

pub const LEQUAL: u32 = 0x0203;

pub const GREATER: u32 = 0x0204;

pub const SRC_ALPHA: u32 = 0x0302;

pub const ONE_MINUS_SRC_ALPHA: u32 = 0x0303;

pub const CW: u32 = 0x0900;

pub const BACK: u32 = 0x0405;

pub const LINES: u32 = 0x0001;

pub const TRIANGLES: u32 = 0x0004;

pub const TRIANGLE_FAN: u32 = 0x0006;

pub const TRIANGLE_STRIP: u32 = 0x0005;

pub const COLOR_BUFFER_BIT: u32 = 0x0000_4000;

pub const DEPTH_BUFFER_BIT: u32 = 0x0000_0100;

pub const FRAMEBUFFER: u32 = 0x8D40;

pub const FRAMEBUFFER_COMPLETE: u32 = 0x8CD5;

pub const DEPTH_ATTACHMENT: u32 = 0x8D00;

pub const FRAGMENT_SHADER: u32 = 0x8B30;

pub const VERTEX_SHADER: u32 = 0x8B31;

pub const COMPILE_STATUS: u32 = 0x8B81;

pub const LINK_STATUS: u32 = 0x8B82;

pub const VALIDATE_STATUS: u32 = 0x8B83;

pub const INFO_LOG_LENGTH: u32 = 0x8B84;

pub const ARRAY_BUFFER: u32 = 0x8892;

pub const ELEMENT_ARRAY_BUFFER: u32 = 0x8893;

pub const DYNAMIC_DRAW: u32 = 0x88E8;

pub const STATIC_DRAW: u32 = 0x88E4;

pub const STREAM_DRAW: u32 = 0x88E0;

pub const TEXTURE_2D: u32 = 0x0DE1;

pub const TEXTURE_2D_ARRAY: u32 = 0x8C1A;

pub const TEXTURE0: u32 = 0x84C0;

pub const R8: u32 = 0x8229;

pub const DEPTH_COMPONENT: u32 = 0x1902;

pub const DEPTH_COMPONENT32F: u32 = 0x8CAC;

pub const RGB8: u32 = 0x8051;

pub const SRGB8: u32 = 0x8C41;

pub const RGBA8: u32 = 0x8058;

pub const SRGB8_ALPHA8: u32 = 0x8C43;

pub const RED: u32 = 0x1903;

pub const RGB: u32 = 0x1907;

pub const RGBA: u32 = 0x1908;

pub const COMPARE_REF_TO_TEXTURE: u32 = 0x884E;

pub const TEXTURE_COMPARE_MODE: u32 = 0x884C;

pub const TEXTURE_COMPARE_FUNC: u32 = 0x884D;

pub const CLAMP_TO_EDGE: u32 = 0x812F;

pub const REPEAT: u32 = 0x2901;

pub const TEXTURE_WRAP_S: u32 = 0x2802;

pub const TEXTURE_WRAP_T: u32 = 0x2803;

pub const TEXTURE_MIN_FILTER: u32 = 0x2801;

pub const TEXTURE_MAG_FILTER: u32 = 0x2800;

pub const LINEAR: u32 = 0x2601;

pub const LINEAR_MIPMAP_LINEAR: u32 = 0x2703;

pub const UNPACK_ALIGNMENT: u32 = 0x0CF5;

} // verus!
