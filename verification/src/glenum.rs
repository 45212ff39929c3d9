//! The OpenGL enumerants this device passes to the driver, with the values
//! that the Khronos OpenGL registry assigns to them.

use vstd::prelude::*;

verus! {

pub const FALSE: u8 = 0;
pub const TRUE: u8 = 1;

pub const NO_ERROR: u32 = 0;
pub const INVALID_ENUM: u32 = 0x0500;
pub const INVALID_VALUE: u32 = 0x0501;
pub const INVALID_OPERATION: u32 = 0x0502;
pub const STACK_OVERFLOW: u32 = 0x0503;
pub const STACK_UNDERFLOW: u32 = 0x0504;
pub const OUT_OF_MEMORY: u32 = 0x0505;
pub const INVALID_FRAMEBUFFER_OPERATION: u32 = 0x0506;

pub const ZERO: u32 = 0;
pub const ONE: u32 = 1;
pub const SRC_ALPHA: u32 = 0x0302;
pub const ONE_MINUS_SRC_ALPHA: u32 = 0x0303;
pub const FUNC_ADD: u32 = 0x8006;

pub const LINES: u32 = 0x0001;
pub const TRIANGLES: u32 = 0x0004;

pub const LESS: u32 = 0x0201;
pub const EQUAL: u32 = 0x0202;
pub const ALWAYS: u32 = 0x0207;

pub const KEEP: u32 = 0x1E00;
pub const REPLACE: u32 = 0x1E01;

pub const BLEND: u32 = 0x0BE2;
pub const DEPTH_TEST: u32 = 0x0B71;
pub const STENCIL_TEST: u32 = 0x0B90;

pub const DEPTH_BUFFER_BIT: u32 = 0x0100;
pub const STENCIL_BUFFER_BIT: u32 = 0x0400;
pub const COLOR_BUFFER_BIT: u32 = 0x4000;

pub const BYTE: u32 = 0x1400;
pub const UNSIGNED_BYTE: u32 = 0x1401;
pub const SHORT: u32 = 0x1402;
pub const UNSIGNED_SHORT: u32 = 0x1403;
pub const UNSIGNED_INT: u32 = 0x1405;
pub const FLOAT: u32 = 0x1406;
pub const HALF_FLOAT: u32 = 0x140B;

pub const RED: u32 = 0x1903;
pub const RGBA: u32 = 0x1908;
pub const R8: u32 = 0x8229;
pub const R16F: u32 = 0x822D;

pub const TEXTURE_2D: u32 = 0x0DE1;
pub const TEXTURE0: u32 = 0x84C0;
pub const TEXTURE_MAG_FILTER: u32 = 0x2800;
pub const TEXTURE_MIN_FILTER: u32 = 0x2801;
pub const TEXTURE_WRAP_S: u32 = 0x2802;
pub const TEXTURE_WRAP_T: u32 = 0x2803;
pub const LINEAR: u32 = 0x2601;
pub const CLAMP_TO_EDGE: u32 = 0x812F;

pub const ARRAY_BUFFER: u32 = 0x8892;
pub const ELEMENT_ARRAY_BUFFER: u32 = 0x8893;
pub const STATIC_DRAW: u32 = 0x88E4;
pub const DYNAMIC_DRAW: u32 = 0x88E8;

pub const FRAGMENT_SHADER: u32 = 0x8B30;
pub const VERTEX_SHADER: u32 = 0x8B31;
pub const COMPILE_STATUS: u32 = 0x8B81;
pub const LINK_STATUS: u32 = 0x8B82;
pub const INFO_LOG_LENGTH: u32 = 0x8B84;

pub const FRAMEBUFFER: u32 = 0x8D40;
pub const COLOR_ATTACHMENT0: u32 = 0x8CE0;
pub const FRAMEBUFFER_COMPLETE: u32 = 0x8CD5;

pub const QUERY_RESULT: u32 = 0x8866;
pub const QUERY_RESULT_AVAILABLE: u32 = 0x8867;
pub const TIME_ELAPSED: u32 = 0x88BF;

} // verus!
