//! The plain values that the device reads from Pathfinder's GPU vocabulary:
//! sizes, rectangles, formats and render options. Floating-point payloads
//! (clear colours, clear depths, uniform values) stay with the caller; the
//! types here record only whether such a value is present.

use vstd::prelude::*;

verus! {

/// A 2D integer vector: a texture size, a viewport origin or size.
#[derive(Clone, Copy, Debug, PartialEq, Eq, Structural)]
pub struct Vector2I {
    pub x: i32,
    pub y: i32,
}

impl Vector2I {
    pub fn new(x: i32, y: i32) -> (r: Vector2I)
        ensures
            r.x == x,
            r.y == y,
    {
        Vector2I { x, y }
    }

    pub fn x(&self) -> (r: i32)
        ensures
            r == self.x,
    {
        self.x
    }

    pub fn y(&self) -> (r: i32)
        ensures
            r == self.y,
    {
        self.y
    }
}

/// An integer rectangle given by its origin and its size.
#[derive(Clone, Copy, Debug, PartialEq, Eq, Structural)]
pub struct RectI {
    pub origin: Vector2I,
    pub size: Vector2I,
}

impl RectI {
    pub fn new(origin: Vector2I, size: Vector2I) -> (r: RectI)
        ensures
            r.origin == origin,
            r.size == size,
    {
        RectI { origin, size }
    }

    pub fn origin(&self) -> (r: Vector2I)
        ensures
            r == self.origin,
    {
        self.origin
    }

    pub fn size(&self) -> (r: Vector2I)
        ensures
            r == self.size,
    {
        self.size
    }
}

#[derive(Clone, Copy, Debug, PartialEq, Eq, Structural)]
pub enum TextureFormat {
    R8,
    R16F,
    RGBA8,
}

impl TextureFormat {
    pub open spec fn spec_channels(self) -> usize {
        match self {
            TextureFormat::R8 => 1,
            TextureFormat::R16F => 1,
            TextureFormat::RGBA8 => 4,
        }
    }

    /// The number of colour channels of a texel in this format.
    pub fn channels(self) -> (r: usize)
        ensures
            r == self.spec_channels(),
    {
        match self {
            TextureFormat::R8 => 1,
            TextureFormat::R16F => 1,
            TextureFormat::RGBA8 => 4,
        }
    }
}

#[derive(Clone, Copy, Debug, PartialEq, Eq, Structural)]
pub enum VertexAttrType {
    F32,
    I16,
    I8,
    U16,
    U8,
}

#[derive(Clone, Copy, Debug, PartialEq, Eq, Structural)]
pub enum VertexAttrClass {
    Float,
    FloatNorm,
    Int,
}

#[derive(Clone, Copy, Debug, PartialEq, Eq, Structural)]
pub enum BufferTarget {
    Vertex,
    Index,
}

#[derive(Clone, Copy, Debug, PartialEq, Eq, Structural)]
pub enum BufferUploadMode {
    Static,
    Dynamic,
}

#[derive(Clone, Copy, Debug, PartialEq, Eq, Structural)]
pub enum ShaderKind {
    Vertex,
    Fragment,
}

#[derive(Clone, Copy, Debug, PartialEq, Eq, Structural)]
pub enum Primitive {
    Triangles,
    Lines,
}

#[derive(Clone, Copy, Debug, PartialEq, Eq, Structural)]
pub enum BlendState {
    Off,
    RGBOneAlphaOne,
    RGBOneAlphaOneMinusSrcAlpha,
    RGBSrcAlphaAlphaOneMinusSrcAlpha,
}

#[derive(Clone, Copy, Debug, PartialEq, Eq, Structural)]
pub enum DepthFunc {
    Less,
    Always,
}

#[derive(Clone, Copy, Debug, PartialEq, Eq, Structural)]
pub struct DepthState {
    pub func: DepthFunc,
    pub write: bool,
}

#[derive(Clone, Copy, Debug, PartialEq, Eq, Structural)]
pub enum StencilFunc {
    Always,
    Equal,
}

#[derive(Clone, Copy, Debug, PartialEq, Eq, Structural)]
pub struct StencilState {
    pub func: StencilFunc,
    pub reference: u32,
    pub mask: u32,
    pub write: bool,
}

/// Which buffers a render pass clears first. The clear colour and the clear
/// depth are floating-point values that the caller keeps; here only their
/// presence is recorded. The stencil clear value is an integer and is kept.
#[derive(Clone, Copy, Debug, PartialEq, Eq, Structural)]
pub struct ClearOps {
    pub color: bool,
    pub depth: bool,
    pub stencil: Option<u8>,
}

impl ClearOps {
    pub open spec fn spec_has_ops(self) -> bool {
        self.color || self.depth || self.stencil.is_some()
    }

    /// Whether anything is to be cleared at all.
    pub fn has_ops(&self) -> (r: bool)
        ensures
            r == self.spec_has_ops(),
    {
        self.color || self.depth || self.stencil.is_some()
    }
}

#[derive(Clone, Copy, Debug, PartialEq, Eq, Structural)]
pub struct RenderOptions {
    pub blend: BlendState,
    pub depth: Option<DepthState>,
    pub stencil: Option<StencilState>,
    pub clear_ops: ClearOps,
    pub color_mask: bool,
}

#[derive(Clone, Copy, Debug, PartialEq, Eq, Structural)]
pub struct VertexAttrDescriptor {
    pub size: usize,
    pub class: VertexAttrClass,
    pub attr_type: VertexAttrType,
    pub stride: usize,
    pub offset: usize,
    pub divisor: u32,
    pub buffer_index: u32,
}

/// A uniform value. Integer values are held here; floating-point values
/// stay with the caller, and the variant records only their shape.
#[derive(Clone, Copy, Debug, PartialEq, Eq, Structural)]
pub enum UniformData {
    Float,
    Int(i32),
    Mat2,
    Mat4,
    Vec2,
    Vec4,
    TextureUnit(u32),
}

/// The contents of a buffer to be allocated: a number of uninitialized
/// elements, or elements taken from memory.
pub enum BufferData<'a, T> {
    Uninitialized(usize),
    Memory(&'a [T]),
}

impl<'a, T> BufferData<'a, T> {
    pub open spec fn spec_len(&self) -> nat {
        match self {
            BufferData::Uninitialized(len) => *len as nat,
            BufferData::Memory(data) => data@.len(),
        }
    }

    pub open spec fn spec_from_memory(&self) -> bool {
        self is Memory
    }
}

/// Pixels read back from a render target.
pub enum TextureData {
    U8(Vec<u8>),
    U16(Vec<u16>),
}

} // verus!
