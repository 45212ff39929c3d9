//! The OpenGL enumerants that stand for Pathfinder's formats, targets,
//! modes and functions.

use vstd::prelude::*;
use crate::glenum::{
    ARRAY_BUFFER, ELEMENT_ARRAY_BUFFER, STATIC_DRAW, DYNAMIC_DRAW, LESS, ALWAYS, EQUAL, TRIANGLES,
    LINES, R8, R16F, RGBA, RED, UNSIGNED_BYTE, HALF_FLOAT, FLOAT, SHORT, BYTE, UNSIGNED_SHORT,
    VERTEX_SHADER, FRAGMENT_SHADER,
};
use crate::types::{
    BufferTarget, BufferUploadMode, DepthFunc, Primitive, StencilFunc, TextureFormat,
    VertexAttrType, ShaderKind,
};
use crate::device::GLVersion;

verus! {

impl BufferTarget {
    pub open spec fn spec_gl_target(self) -> u32 {
        match self {
            BufferTarget::Vertex => ARRAY_BUFFER,
            BufferTarget::Index => ELEMENT_ARRAY_BUFFER,
        }
    }

    pub fn to_gl_target(self) -> (r: u32)
        ensures
            r == self.spec_gl_target(),
    {
        match self {
            BufferTarget::Vertex => ARRAY_BUFFER,
            BufferTarget::Index => ELEMENT_ARRAY_BUFFER,
        }
    }
}

impl BufferUploadMode {
    pub open spec fn spec_gl_usage(self) -> u32 {
        match self {
            BufferUploadMode::Static => STATIC_DRAW,
            BufferUploadMode::Dynamic => DYNAMIC_DRAW,
        }
    }

    pub fn to_gl_usage(self) -> (r: u32)
        ensures
            r == self.spec_gl_usage(),
    {
        match self {
            BufferUploadMode::Static => STATIC_DRAW,
            BufferUploadMode::Dynamic => DYNAMIC_DRAW,
        }
    }
}

impl DepthFunc {
    pub open spec fn spec_gl_depth_func(self) -> u32 {
        match self {
            DepthFunc::Less => LESS,
            DepthFunc::Always => ALWAYS,
        }
    }

    pub fn to_gl_depth_func(self) -> (r: u32)
        ensures
            r == self.spec_gl_depth_func(),
    {
        match self {
            DepthFunc::Less => LESS,
            DepthFunc::Always => ALWAYS,
        }
    }
}

impl Primitive {
    pub open spec fn spec_gl_primitive(self) -> u32 {
        match self {
            Primitive::Triangles => TRIANGLES,
            Primitive::Lines => LINES,
        }
    }

    pub fn to_gl_primitive(self) -> (r: u32)
        ensures
            r == self.spec_gl_primitive(),
    {
        match self {
            Primitive::Triangles => TRIANGLES,
            Primitive::Lines => LINES,
        }
    }
}

impl StencilFunc {
    pub open spec fn spec_gl_stencil_func(self) -> u32 {
        match self {
            StencilFunc::Always => ALWAYS,
            StencilFunc::Equal => EQUAL,
        }
    }

    pub fn to_gl_stencil_func(self) -> (r: u32)
        ensures
            r == self.spec_gl_stencil_func(),
    {
        match self {
            StencilFunc::Always => ALWAYS,
            StencilFunc::Equal => EQUAL,
        }
    }
}

impl TextureFormat {
    pub open spec fn spec_gl_internal_format(self) -> i32 {
        match self {
            TextureFormat::R8 => R8 as i32,
            TextureFormat::R16F => R16F as i32,
            TextureFormat::RGBA8 => RGBA as i32,
        }
    }

    pub open spec fn spec_gl_format(self) -> u32 {
        match self {
            TextureFormat::R8 | TextureFormat::R16F => RED,
            TextureFormat::RGBA8 => RGBA,
        }
    }

    pub open spec fn spec_gl_type(self) -> u32 {
        match self {
            TextureFormat::R8 | TextureFormat::RGBA8 => UNSIGNED_BYTE,
            TextureFormat::R16F => HALF_FLOAT,
        }
    }

    pub fn gl_internal_format(self) -> (r: i32)
        ensures
            r == self.spec_gl_internal_format(),
    {
        match self {
            TextureFormat::R8 => R8 as i32,
            TextureFormat::R16F => R16F as i32,
            TextureFormat::RGBA8 => RGBA as i32,
        }
    }

    pub fn gl_format(self) -> (r: u32)
        ensures
            r == self.spec_gl_format(),
    {
        match self {
            TextureFormat::R8 | TextureFormat::R16F => RED,
            TextureFormat::RGBA8 => RGBA,
        }
    }

    pub fn gl_type(self) -> (r: u32)
        ensures
            r == self.spec_gl_type(),
    {
        match self {
            TextureFormat::R8 | TextureFormat::RGBA8 => UNSIGNED_BYTE,
            TextureFormat::R16F => HALF_FLOAT,
        }
    }
}

impl VertexAttrType {
    pub open spec fn spec_gl_type(self) -> u32 {
        match self {
            VertexAttrType::F32 => FLOAT,
            VertexAttrType::I16 => SHORT,
            VertexAttrType::I8 => BYTE,
            VertexAttrType::U16 => UNSIGNED_SHORT,
            VertexAttrType::U8 => UNSIGNED_BYTE,
        }
    }

    pub fn to_gl_type(self) -> (r: u32)
        ensures
            r == self.spec_gl_type(),
    {
        match self {
            VertexAttrType::F32 => FLOAT,
            VertexAttrType::I16 => SHORT,
            VertexAttrType::I8 => BYTE,
            VertexAttrType::U16 => UNSIGNED_SHORT,
            VertexAttrType::U8 => UNSIGNED_BYTE,
        }
    }
}

impl ShaderKind {
    pub open spec fn spec_gl_shader_kind(self) -> u32 {
        match self {
            ShaderKind::Vertex => VERTEX_SHADER,
            ShaderKind::Fragment => FRAGMENT_SHADER,
        }
    }

    pub fn to_gl_shader_kind(self) -> (r: u32)
        ensures
            r == self.spec_gl_shader_kind(),
    {
        match self {
            ShaderKind::Vertex => VERTEX_SHADER,
            ShaderKind::Fragment => FRAGMENT_SHADER,
        }
    }
}

impl GLVersion {
    pub open spec fn spec_glsl_version_spec(self) -> Seq<char> {
        match self {
            GLVersion::GL3 => "330"@,
            GLVersion::GLES3 => "300 es"@,
        }
    }

    /// The version line that shaders for this dialect start with.
    pub fn to_glsl_version_spec(&self) -> (r: &'static str)
        ensures
            r@ == self.spec_glsl_version_spec(),
    {
        match *self {
            GLVersion::GL3 => "330",
            GLVersion::GLES3 => "300 es",
        }
    }
}

} // verus!
