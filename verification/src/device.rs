//! The device itself, the GPU objects it hands out, and the OpenGL calls
//! that bind and release them.

use vstd::prelude::*;
use crate::command::GlCommand;
use crate::glenum::{
    TEXTURE0, TEXTURE_2D, FRAMEBUFFER, TEXTURE_MIN_FILTER, TEXTURE_MAG_FILTER, TEXTURE_WRAP_S,
    TEXTURE_WRAP_T, LINEAR, CLAMP_TO_EDGE,
};
use crate::types::{TextureFormat, Vector2I};

verus! {

/// The version/dialect of OpenGL we should render with.
#[derive(Clone, Copy, Debug, PartialEq, Eq, Structural)]
pub enum GLVersion {
    /// OpenGL 3.0+, core profile.
    GL3,
    /// OpenGL ES 3.0+.
    GLES3,
}

pub struct GLDevice {
    version: GLVersion,
    default_framebuffer: u32,
}

pub struct GLVertexArray {
    pub gl_vertex_array: u32,
}

pub struct GLVertexAttr {
    attr: u32,
}

pub struct GLFramebuffer {
    pub gl_framebuffer: u32,
    pub texture: GLTexture,
}

pub struct GLBuffer {
    pub gl_buffer: u32,
}

#[derive(Debug)]
pub struct GLUniform {
    location: i32,
}

pub struct GLProgram {
    pub gl_program: u32,
    vertex_shader: GLShader,
    fragment_shader: GLShader,
}

pub struct GLShader {
    gl_shader: u32,
}

pub struct GLTexture {
    pub gl_texture: u32,
    pub size: Vector2I,
    pub format: TextureFormat,
}

pub struct GLTimerQuery {
    gl_query: u32,
}

/// The render target of a pass: the device's default framebuffer, or a
/// framebuffer of its own.
pub enum RenderTarget<'a> {
    Default,
    Framebuffer(&'a GLFramebuffer),
}

// ---------------------------------------------------------------------------
// What each small step plans.

/// Making texture unit `unit` active and binding `texture` to it.
pub open spec fn cmds_bind_texture(texture: u32, unit: u32) -> Seq<GlCommand> {
    seq![
        GlCommand::ActiveTexture { texture: (TEXTURE0 + unit) as u32 },
        GlCommand::BindTexture { target: TEXTURE_2D, texture },
    ]
}

/// Making texture unit `unit` active and unbinding its texture.
pub open spec fn cmds_unbind_texture(unit: u32) -> Seq<GlCommand> {
    seq![
        GlCommand::ActiveTexture { texture: (TEXTURE0 + unit) as u32 },
        GlCommand::BindTexture { target: TEXTURE_2D, texture: 0 },
    ]
}

/// Binding `texture` to unit 0 and giving it linear filtering and
/// clamp-to-edge wrapping.
pub open spec fn cmds_set_texture_parameters(texture: u32) -> Seq<GlCommand> {
    cmds_bind_texture(texture, 0) + seq![
        GlCommand::TexParameteri { target: TEXTURE_2D, pname: TEXTURE_MIN_FILTER, param: LINEAR as i32 },
        GlCommand::TexParameteri { target: TEXTURE_2D, pname: TEXTURE_MAG_FILTER, param: LINEAR as i32 },
        GlCommand::TexParameteri { target: TEXTURE_2D, pname: TEXTURE_WRAP_S, param: CLAMP_TO_EDGE as i32 },
        GlCommand::TexParameteri { target: TEXTURE_2D, pname: TEXTURE_WRAP_T, param: CLAMP_TO_EDGE as i32 },
    ]
}

/// Whether texture unit `unit` has an OpenGL enumerant.
pub open spec fn valid_texture_unit(unit: int) -> bool {
    0 <= unit && TEXTURE0 + unit <= u32::MAX
}

impl GLDevice {
    /// The OpenGL dialect this device renders with.
    pub closed spec fn spec_version(&self) -> GLVersion {
        self.version
    }

    /// The framebuffer that the default render target stands for.
    pub closed spec fn spec_default_framebuffer(&self) -> u32 {
        self.default_framebuffer
    }

    /// The framebuffer that binding `target` binds.
    pub open spec fn spec_target_framebuffer(&self, target: &RenderTarget) -> u32 {
        match target {
            RenderTarget::Default => self.spec_default_framebuffer(),
            RenderTarget::Framebuffer(framebuffer) => framebuffer.gl_framebuffer,
        }
    }

    /// Binding the framebuffer of `target`.
    pub open spec fn cmds_bind_render_target(&self, target: &RenderTarget) -> Seq<GlCommand> {
        seq![
            GlCommand::BindFramebuffer {
                target: FRAMEBUFFER,
                framebuffer: self.spec_target_framebuffer(target),
            },
        ]
    }

    pub fn new(version: GLVersion, default_framebuffer: u32) -> (r: GLDevice)
        ensures
            r.spec_version() == version,
            r.spec_default_framebuffer() == default_framebuffer,
    {
        GLDevice { version, default_framebuffer }
    }

    pub fn set_default_framebuffer(&mut self, framebuffer: u32)
        ensures
            final(self).spec_default_framebuffer() == framebuffer,
            final(self).spec_version() == old(self).spec_version(),
    {
        self.default_framebuffer = framebuffer;
    }

    /// The version line of this device's GLSL dialect.
    pub fn glsl_version_spec(&self) -> (r: &'static str)
        ensures
            r@ == self.spec_version().spec_glsl_version_spec(),
    {
        self.version.to_glsl_version_spec()
    }

    pub fn bind_texture(&self, texture: &GLTexture, unit: u32, cmds: &mut Vec<GlCommand>)
        requires
            valid_texture_unit(unit as int),
        ensures
            final(cmds)@ == old(cmds)@ + cmds_bind_texture(texture.gl_texture, unit),
    {
        cmds.push(GlCommand::ActiveTexture { texture: TEXTURE0 + unit });
        cmds.push(GlCommand::BindTexture { target: TEXTURE_2D, texture: texture.gl_texture });
        assert(cmds@ =~= old(cmds)@ + cmds_bind_texture(texture.gl_texture, unit));
    }

    pub fn unbind_texture(&self, unit: u32, cmds: &mut Vec<GlCommand>)
        requires
            valid_texture_unit(unit as int),
        ensures
            final(cmds)@ == old(cmds)@ + cmds_unbind_texture(unit),
    {
        cmds.push(GlCommand::ActiveTexture { texture: TEXTURE0 + unit });
        cmds.push(GlCommand::BindTexture { target: TEXTURE_2D, texture: 0 });
        assert(cmds@ =~= old(cmds)@ + cmds_unbind_texture(unit));
    }

    pub fn set_texture_parameters(&self, texture: &GLTexture, cmds: &mut Vec<GlCommand>)
        ensures
            final(cmds)@ == old(cmds)@ + cmds_set_texture_parameters(texture.gl_texture),
    {
        self.bind_texture(texture, 0, cmds);
        cmds.push(GlCommand::TexParameteri { target: TEXTURE_2D, pname: TEXTURE_MIN_FILTER, param: LINEAR as i32 });
        cmds.push(GlCommand::TexParameteri { target: TEXTURE_2D, pname: TEXTURE_MAG_FILTER, param: LINEAR as i32 });
        cmds.push(GlCommand::TexParameteri { target: TEXTURE_2D, pname: TEXTURE_WRAP_S, param: CLAMP_TO_EDGE as i32 });
        cmds.push(GlCommand::TexParameteri { target: TEXTURE_2D, pname: TEXTURE_WRAP_T, param: CLAMP_TO_EDGE as i32 });
        assert(cmds@ =~= old(cmds)@ + cmds_set_texture_parameters(texture.gl_texture));
    }

    pub fn use_program(&self, program: &GLProgram, cmds: &mut Vec<GlCommand>)
        ensures
            final(cmds)@ == old(cmds)@.push(GlCommand::UseProgram { program: program.spec_gl_program() }),
    {
        cmds.push(GlCommand::UseProgram { program: program.gl_program });
    }

    pub fn unuse_program(&self, cmds: &mut Vec<GlCommand>)
        ensures
            final(cmds)@ == old(cmds)@.push(GlCommand::UseProgram { program: 0 }),
    {
        cmds.push(GlCommand::UseProgram { program: 0 });
    }

    pub fn bind_vertex_array(&self, vertex_array: &GLVertexArray, cmds: &mut Vec<GlCommand>)
        ensures
            final(cmds)@ == old(cmds)@.push(
                GlCommand::BindVertexArray { array: vertex_array.gl_vertex_array },
            ),
    {
        cmds.push(GlCommand::BindVertexArray { array: vertex_array.gl_vertex_array });
    }

    pub fn unbind_vertex_array(&self, cmds: &mut Vec<GlCommand>)
        ensures
            final(cmds)@ == old(cmds)@.push(GlCommand::BindVertexArray { array: 0 }),
    {
        cmds.push(GlCommand::BindVertexArray { array: 0 });
    }

    pub fn bind_default_framebuffer(&self, cmds: &mut Vec<GlCommand>)
        ensures
            final(cmds)@ == old(cmds)@.push(
                GlCommand::BindFramebuffer {
                    target: FRAMEBUFFER,
                    framebuffer: self.spec_default_framebuffer(),
                },
            ),
    {
        cmds.push(
            GlCommand::BindFramebuffer { target: FRAMEBUFFER, framebuffer: self.default_framebuffer },
        );
    }

    pub fn bind_framebuffer(&self, framebuffer: &GLFramebuffer, cmds: &mut Vec<GlCommand>)
        ensures
            final(cmds)@ == old(cmds)@.push(
                GlCommand::BindFramebuffer {
                    target: FRAMEBUFFER,
                    framebuffer: framebuffer.gl_framebuffer,
                },
            ),
    {
        cmds.push(
            GlCommand::BindFramebuffer { target: FRAMEBUFFER, framebuffer: framebuffer.gl_framebuffer },
        );
    }

    pub fn bind_render_target(&self, attachment: &RenderTarget, cmds: &mut Vec<GlCommand>)
        ensures
            final(cmds)@ == old(cmds)@ + self.cmds_bind_render_target(attachment),
    {
        match attachment {
            RenderTarget::Default => self.bind_default_framebuffer(cmds),
            RenderTarget::Framebuffer(framebuffer) => self.bind_framebuffer(framebuffer, cmds),
        }
        assert(cmds@ =~= old(cmds)@ + self.cmds_bind_render_target(attachment));
    }

    /// The pixel format of `render_target`: RGBA8 for the default
    /// framebuffer, else that of the framebuffer's texture.
    pub fn render_target_format(&self, render_target: &RenderTarget) -> (r: TextureFormat)
        ensures
            r == spec_render_target_format(render_target),
    {
        match render_target {
            RenderTarget::Default => TextureFormat::RGBA8,
            RenderTarget::Framebuffer(framebuffer) => self.framebuffer_texture(framebuffer).format,
        }
    }

    pub fn framebuffer_texture<'f>(&self, framebuffer: &'f GLFramebuffer) -> (r: &'f GLTexture)
        ensures
            r == &framebuffer.texture,
    {
        &framebuffer.texture
    }

    pub fn texture_size(&self, texture: &GLTexture) -> (r: Vector2I)
        ensures
            r == texture.size,
    {
        texture.size
    }
}

/// The pixel format of a render target.
pub open spec fn spec_render_target_format(render_target: &RenderTarget) -> TextureFormat {
    match render_target {
        RenderTarget::Default => TextureFormat::RGBA8,
        RenderTarget::Framebuffer(framebuffer) => framebuffer.texture.format,
    }
}

impl GLVertexAttr {
    /// The index of the attribute in its program.
    pub closed spec fn spec_attr(&self) -> u32 {
        self.attr
    }

    /// The attribute at `location` of a program, if the program has one
    /// there: OpenGL reports a missing attribute as a negative location.
    pub fn from_location(location: i32) -> (r: Option<GLVertexAttr>)
        ensures
            location < 0 <==> r is None,
            r is Some ==> r->Some_0.spec_attr() == location as u32,
    {
        if location < 0 {
            None
        } else {
            Some(GLVertexAttr { attr: location as u32 })
        }
    }

    /// Points the attribute at float data (`glVertexAttribPointer`), sets
    /// its divisor and enables it.
    pub fn configure_float(
        &self,
        size: i32,
        gl_type: u32,
        normalized: bool,
        stride: i32,
        offset: usize,
        divisor: u32,
        cmds: &mut Vec<GlCommand>,
    )
        ensures
            final(cmds)@ == old(cmds)@ + seq![
                GlCommand::VertexAttribPointer {
                    index: self.spec_attr(),
                    size,
                    ty: gl_type,
                    normalized: if normalized { crate::glenum::TRUE } else { crate::glenum::FALSE },
                    stride,
                    offset,
                },
                GlCommand::VertexAttribDivisor { index: self.spec_attr(), divisor },
                GlCommand::EnableVertexAttribArray { index: self.spec_attr() },
            ],
    {
        let flag = if normalized { crate::glenum::TRUE } else { crate::glenum::FALSE };
        cmds.push(
            GlCommand::VertexAttribPointer {
                index: self.attr,
                size,
                ty: gl_type,
                normalized: flag,
                stride,
                offset,
            },
        );
        cmds.push(GlCommand::VertexAttribDivisor { index: self.attr, divisor });
        cmds.push(GlCommand::EnableVertexAttribArray { index: self.attr });
        assert(cmds@ =~= old(cmds)@ + seq![
            GlCommand::VertexAttribPointer {
                index: self.spec_attr(),
                size,
                ty: gl_type,
                normalized: flag,
                stride,
                offset,
            },
            GlCommand::VertexAttribDivisor { index: self.spec_attr(), divisor },
            GlCommand::EnableVertexAttribArray { index: self.spec_attr() },
        ]);
    }

    /// Points the attribute at integer data (`glVertexAttribIPointer`), sets
    /// its divisor and enables it.
    pub fn configure_int(
        &self,
        size: i32,
        gl_type: u32,
        stride: i32,
        offset: usize,
        divisor: u32,
        cmds: &mut Vec<GlCommand>,
    )
        ensures
            final(cmds)@ == old(cmds)@ + seq![
                GlCommand::VertexAttribIPointer { index: self.spec_attr(), size, ty: gl_type, stride, offset },
                GlCommand::VertexAttribDivisor { index: self.spec_attr(), divisor },
                GlCommand::EnableVertexAttribArray { index: self.spec_attr() },
            ],
    {
        cmds.push(GlCommand::VertexAttribIPointer { index: self.attr, size, ty: gl_type, stride, offset });
        cmds.push(GlCommand::VertexAttribDivisor { index: self.attr, divisor });
        cmds.push(GlCommand::EnableVertexAttribArray { index: self.attr });
        assert(cmds@ =~= old(cmds)@ + seq![
            GlCommand::VertexAttribIPointer { index: self.spec_attr(), size, ty: gl_type, stride, offset },
            GlCommand::VertexAttribDivisor { index: self.spec_attr(), divisor },
            GlCommand::EnableVertexAttribArray { index: self.spec_attr() },
        ]);
    }
}

impl GLUniform {
    /// The location of the uniform in its program.
    pub closed spec fn spec_location(&self) -> i32 {
        self.location
    }

    pub fn from_location(location: i32) -> (r: GLUniform)
        ensures
            r.spec_location() == location,
    {
        GLUniform { location }
    }

    pub fn location(&self) -> (r: i32)
        ensures
            r == self.spec_location(),
    {
        self.location
    }
}

impl GLShader {
    /// The OpenGL name of the shader.
    pub closed spec fn spec_gl_shader(&self) -> u32 {
        self.gl_shader
    }

    /// The compiled shader object `gl_shader`.
    pub fn from_gl_shader(gl_shader: u32) -> (r: GLShader)
        ensures
            r.spec_gl_shader() == gl_shader,
    {
        GLShader { gl_shader }
    }

    pub fn gl_shader(&self) -> (r: u32)
        ensures
            r == self.spec_gl_shader(),
    {
        self.gl_shader
    }

    /// Deleting the shader.
    pub fn release(&self, cmds: &mut Vec<GlCommand>)
        ensures
            final(cmds)@ == old(cmds)@.push(GlCommand::DeleteShader { shader: self.spec_gl_shader() }),
    {
        cmds.push(GlCommand::DeleteShader { shader: self.gl_shader });
    }
}

impl GLProgram {
    /// The OpenGL name of the program.
    pub closed spec fn spec_gl_program(&self) -> u32 {
        self.gl_program
    }

    pub closed spec fn spec_vertex_shader(&self) -> u32 {
        self.vertex_shader.gl_shader
    }

    pub closed spec fn spec_fragment_shader(&self) -> u32 {
        self.fragment_shader.gl_shader
    }

    /// The linked program object `gl_program`, which keeps its two shaders.
    pub fn from_shaders(gl_program: u32, vertex_shader: GLShader, fragment_shader: GLShader) -> (r:
        GLProgram)
        ensures
            r.spec_gl_program() == gl_program,
            r.spec_vertex_shader() == vertex_shader.spec_gl_shader(),
            r.spec_fragment_shader() == fragment_shader.spec_gl_shader(),
    {
        GLProgram { gl_program, vertex_shader, fragment_shader }
    }

    /// Deleting the program, and then the two shaders it owns.
    pub fn release(&self, cmds: &mut Vec<GlCommand>)
        ensures
            final(cmds)@ == old(cmds)@ + seq![
                GlCommand::DeleteProgram { program: self.spec_gl_program() },
                GlCommand::DeleteShader { shader: self.spec_vertex_shader() },
                GlCommand::DeleteShader { shader: self.spec_fragment_shader() },
            ],
    {
        cmds.push(GlCommand::DeleteProgram { program: self.gl_program });
        self.vertex_shader.release(cmds);
        self.fragment_shader.release(cmds);
        assert(cmds@ =~= old(cmds)@ + seq![
            GlCommand::DeleteProgram { program: self.spec_gl_program() },
            GlCommand::DeleteShader { shader: self.spec_vertex_shader() },
            GlCommand::DeleteShader { shader: self.spec_fragment_shader() },
        ]);
    }
}

impl GLVertexArray {
    /// Deleting the vertex array.
    pub fn release(&self, cmds: &mut Vec<GlCommand>)
        ensures
            final(cmds)@ == old(cmds)@.push(
                GlCommand::DeleteVertexArray { array: self.gl_vertex_array },
            ),
    {
        cmds.push(GlCommand::DeleteVertexArray { array: self.gl_vertex_array });
    }
}

impl GLFramebuffer {
    /// Deleting the framebuffer. Its texture is left alone.
    pub fn release(&self, cmds: &mut Vec<GlCommand>)
        ensures
            final(cmds)@ == old(cmds)@.push(
                GlCommand::DeleteFramebuffer { framebuffer: self.gl_framebuffer },
            ),
    {
        cmds.push(GlCommand::DeleteFramebuffer { framebuffer: self.gl_framebuffer });
    }
}

impl GLBuffer {
    /// Deleting the buffer.
    pub fn release(&self, cmds: &mut Vec<GlCommand>)
        ensures
            final(cmds)@ == old(cmds)@.push(GlCommand::DeleteBuffer { buffer: self.gl_buffer }),
    {
        cmds.push(GlCommand::DeleteBuffer { buffer: self.gl_buffer });
    }
}

impl GLTimerQuery {
    /// The OpenGL name of the query object.
    pub closed spec fn spec_gl_query(&self) -> u32 {
        self.gl_query
    }

    /// The query object `gl_query`.
    pub fn from_gl_query(gl_query: u32) -> (r: GLTimerQuery)
        ensures
            r.spec_gl_query() == gl_query,
    {
        GLTimerQuery { gl_query }
    }

    pub fn gl_query(&self) -> (r: u32)
        ensures
            r == self.spec_gl_query(),
    {
        self.gl_query
    }

    /// Deleting the query object.
    pub fn release(&self, cmds: &mut Vec<GlCommand>)
        ensures
            final(cmds)@ == old(cmds)@.push(GlCommand::DeleteQuery { query: self.spec_gl_query() }),
    {
        cmds.push(GlCommand::DeleteQuery { query: self.gl_query });
    }
}

} // verus!
