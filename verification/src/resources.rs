//! Planning of resource creation and use: textures, framebuffers, buffers,
//! shaders, programs, vertex attributes, uniforms, timer queries and pixel
//! read-back.
//!
//! Where OpenGL has to hand out a name first (`glGenTextures`,
//! `glCreateShader`, ...) or report a status (`glGetShaderiv`, ...), the
//! caller makes that call and passes its result in.

use vstd::prelude::*;
use vstd::string::StringExecFns;
use vstd::layout::size_of;
use vstd::utf8::encode_utf8;
use crate::command::GlCommand;
use crate::device::{
    GLBuffer, GLDevice, GLFramebuffer, GLProgram, GLShader, GLTexture, GLTimerQuery,
    GLVertexArray, GLVertexAttr, RenderTarget, cmds_bind_texture, cmds_set_texture_parameters,
    spec_render_target_format,
};
use crate::glenum::{
    TRUE, FALSE, TEXTURE_2D, FRAMEBUFFER, COLOR_ATTACHMENT0, R8, RED, RGBA, UNSIGNED_BYTE,
    TIME_ELAPSED, ARRAY_BUFFER, ELEMENT_ARRAY_BUFFER, FRAMEBUFFER_COMPLETE,
};
use crate::pixels::{flip_y, flipped_vertically, image_height, image_stride};
use crate::template::{expand_template, template_status};
use crate::types::{
    BufferData, BufferTarget, BufferUploadMode, RectI, ShaderKind, TextureData, TextureFormat,
    Vector2I, VertexAttrClass, VertexAttrDescriptor,
};

verus! {

/// The number of elements of an image of `size` with `channels` elements
/// per pixel, computed as the device computes it, in `usize`.
pub open spec fn image_len(size: Vector2I, channels: usize) -> int {
    (size.x as usize) * (size.y as usize) * channels
}

/// The expanded source of a shader and the kind of OpenGL shader object to
/// compile it into.
pub struct ShaderSource {
    pub source: Vec<u8>,
    pub gl_kind: u32,
}

/// A pending read of pixels: the buffer that `glReadPixels` fills, with the
/// format and size it was made for.
pub struct PixelReadback {
    pub format: TextureFormat,
    pub size: Vector2I,
    pub pixels: TextureData,
}

/// Every element of the buffer is zero.
pub open spec fn zeroed(pixels: &TextureData) -> bool {
    match pixels {
        TextureData::U8(v) => forall|i: int| 0 <= i < v@.len() ==> v@[i] == 0u8,
        TextureData::U16(v) => forall|i: int| 0 <= i < v@.len() ==> v@[i] == 0u16,
    }
}

impl PixelReadback {
    /// The buffer matches the format and the size: bytes for R8 and RGBA8,
    /// 16-bit words for R16F, one element per channel of each pixel.
    pub open spec fn wf(&self) -> bool {
        &&& image_len(self.size, self.format.spec_channels()) <= usize::MAX
        &&& image_stride(self.size, self.format.spec_channels()) <= usize::MAX
        &&& match self.pixels {
            TextureData::U8(v) => self.format != TextureFormat::R16F && v@.len() == image_len(
                self.size,
                self.format.spec_channels(),
            ),
            TextureData::U16(v) => self.format == TextureFormat::R16F && v@.len() == image_len(
                self.size,
                1,
            ),
        }
    }

    /// Turns the pixels that OpenGL read, bottom row first, into texture
    /// data, top row first.
    pub fn finish(self) -> (r: TextureData)
        requires
            self.wf(),
        ensures
            match (self.pixels, r) {
                (TextureData::U8(before), TextureData::U8(after)) => flipped_vertically(
                    after@,
                    before@,
                    self.size,
                    self.format.spec_channels(),
                ),
                (TextureData::U16(before), TextureData::U16(after)) => flipped_vertically(
                    after@,
                    before@,
                    self.size,
                    1,
                ),
                _ => false,
            },
    {
        let size = self.size;
        let channels = self.format.channels();
        match self.pixels {
            TextureData::U8(mut pixels) => {
                proof {
                    lemma_image_len_bounds(size, channels);
                }
                flip_y(pixels.as_mut_slice(), size, channels);
                TextureData::U8(pixels)
            },
            TextureData::U16(mut pixels) => {
                proof {
                    lemma_image_len_bounds(size, 1);
                }
                flip_y(pixels.as_mut_slice(), size, 1);
                TextureData::U16(pixels)
            },
        }
    }
}

/// An image's element count is its rows times its row stride, so a buffer
/// of that many elements holds every row.
proof fn lemma_image_len_bounds(size: Vector2I, channels: usize)
    requires
        image_len(size, channels) <= usize::MAX,
    ensures
        image_height(size) * image_stride(size, channels) == image_len(size, channels),
{
    let x = (size.x as usize) as int;
    let y = (size.y as usize) as int;
    let c = channels as int;
    assert(y * (x * c) == x * y * c) by (nonlinear_arith);
}

/// The path of the shader `name` of `kind` among the resources.
pub open spec fn spec_shader_path(name: Seq<char>, kind: ShaderKind) -> Seq<char> {
    "shaders/gl3/"@ + name + "."@ + (match kind {
        ShaderKind::Vertex => "v"@,
        ShaderKind::Fragment => "f"@,
    }) + "s.glsl"@
}

/// Whether the status that `glGetShaderiv(COMPILE_STATUS)` or
/// `glGetProgramiv(LINK_STATUS)` reported is success.
pub open spec fn status_ok(status: i32) -> bool {
    status == TRUE as i32
}

impl GLDevice {
    /// Binding `texture` to unit 0 and giving it the texel array described
    /// by the remaining arguments.
    pub open spec fn cmds_upload(
        texture: u32,
        internal_format: i32,
        size: Vector2I,
        format: u32,
        ty: u32,
        with_data: bool,
    ) -> Seq<GlCommand> {
        cmds_bind_texture(texture, 0) + seq![
            GlCommand::TexImage2D {
                target: TEXTURE_2D,
                level: 0,
                internal_format,
                width: size.x,
                height: size.y,
                border: 0,
                format,
                ty,
                with_data,
            },
        ] + cmds_set_texture_parameters(texture)
    }

    fn upload(
        &self,
        texture: &GLTexture,
        internal_format: i32,
        size: Vector2I,
        format: u32,
        ty: u32,
        with_data: bool,
        cmds: &mut Vec<GlCommand>,
    )
        ensures
            final(cmds)@ == old(cmds)@ + Self::cmds_upload(
                texture.gl_texture,
                internal_format,
                size,
                format,
                ty,
                with_data,
            ),
    {
        self.bind_texture(texture, 0, cmds);
        cmds.push(
            GlCommand::TexImage2D {
                target: TEXTURE_2D,
                level: 0,
                internal_format,
                width: size.x(),
                height: size.y(),
                border: 0,
                format,
                ty,
                with_data,
            },
        );
        self.set_texture_parameters(texture, cmds);
        assert(cmds@ =~= old(cmds)@ + Self::cmds_upload(
            texture.gl_texture,
            internal_format,
            size,
            format,
            ty,
            with_data,
        ));
    }

    /// A new, uninitialized texture of `format` and `size`, in the texture
    /// object `gl_texture` that `glGenTextures` handed out.
    pub fn create_texture(
        &self,
        gl_texture: u32,
        format: TextureFormat,
        size: Vector2I,
        cmds: &mut Vec<GlCommand>,
    ) -> (r: GLTexture)
        ensures
            r.gl_texture == gl_texture,
            r.size == size,
            r.format == format,
            final(cmds)@ == old(cmds)@ + Self::cmds_upload(
                gl_texture,
                format.spec_gl_internal_format(),
                size,
                format.spec_gl_format(),
                format.spec_gl_type(),
                false,
            ),
    {
        let texture = GLTexture { gl_texture, size, format };
        self.upload(
            &texture,
            format.gl_internal_format(),
            size,
            format.gl_format(),
            format.gl_type(),
            false,
            cmds,
        );
        texture
    }

    /// A new R8 texture of `size` holding `data`, in the texture object
    /// `gl_texture` that `glGenTextures` handed out.
    pub fn create_texture_from_data(
        &self,
        gl_texture: u32,
        size: Vector2I,
        data: &[u8],
        cmds: &mut Vec<GlCommand>,
    ) -> (r: GLTexture)
        requires
            image_len(size, 1) <= usize::MAX,
            data@.len() >= image_len(size, 1),
        ensures
            r.gl_texture == gl_texture,
            r.size == size,
            r.format == TextureFormat::R8,
            final(cmds)@ == old(cmds)@ + Self::cmds_upload(
                gl_texture,
                R8 as i32,
                size,
                RED,
                UNSIGNED_BYTE,
                true,
            ),
    {
        let texture = GLTexture { gl_texture, size, format: TextureFormat::R8 };
        self.upload(&texture, R8 as i32, size, RED, UNSIGNED_BYTE, true, cmds);
        texture
    }

    /// Gives `texture` the RGBA pixels `data` of `size`.
    pub fn upload_to_texture(
        &self,
        texture: &GLTexture,
        size: Vector2I,
        data: &[u8],
        cmds: &mut Vec<GlCommand>,
    )
        requires
            image_len(size, 4) <= usize::MAX,
            data@.len() >= image_len(size, 4),
        ensures
            final(cmds)@ == old(cmds)@ + Self::cmds_upload(
                texture.gl_texture,
                RGBA as i32,
                size,
                RGBA,
                UNSIGNED_BYTE,
                true,
            ),
    {
        self.upload(texture, RGBA as i32, size, RGBA, UNSIGNED_BYTE, true, cmds);
    }

    /// Wraps the existing texture object `texture_id` and gives it this
    /// device's filtering and wrapping.
    pub fn create_texture_from_existing_texture(
        &self,
        texture_id: u32,
        format: TextureFormat,
        size: Vector2I,
        cmds: &mut Vec<GlCommand>,
    ) -> (r: GLTexture)
        ensures
            r.gl_texture == texture_id,
            r.size == size,
            r.format == format,
            final(cmds)@ == old(cmds)@ + cmds_bind_texture(texture_id, 0)
                + cmds_set_texture_parameters(texture_id),
    {
        let texture = GLTexture { gl_texture: texture_id, size, format };
        self.bind_texture(&texture, 0, cmds);
        self.set_texture_parameters(&texture, cmds);
        assert(cmds@ =~= old(cmds)@ + cmds_bind_texture(texture_id, 0) + cmds_set_texture_parameters(
            texture_id,
        ));
        texture
    }

    /// Binding the framebuffer object `gl_framebuffer` and attaching the
    /// texture object `texture` to it as its colour attachment.
    pub open spec fn cmds_create_framebuffer(gl_framebuffer: u32, texture: u32) -> Seq<GlCommand> {
        seq![GlCommand::BindFramebuffer { target: FRAMEBUFFER, framebuffer: gl_framebuffer }]
            + cmds_bind_texture(texture, 0) + seq![
            GlCommand::FramebufferTexture2D {
                target: FRAMEBUFFER,
                attachment: COLOR_ATTACHMENT0,
                textarget: TEXTURE_2D,
                texture,
                level: 0,
            },
        ]
    }

    /// A framebuffer, in the framebuffer object `gl_framebuffer` that
    /// `glGenFramebuffers` handed out, rendering into `texture`. The caller
    /// then checks that `glCheckFramebufferStatus` reports
    /// `FRAMEBUFFER_COMPLETE`.
    pub fn create_framebuffer(
        &self,
        gl_framebuffer: u32,
        texture: GLTexture,
        cmds: &mut Vec<GlCommand>,
    ) -> (r: GLFramebuffer)
        ensures
            r.gl_framebuffer == gl_framebuffer,
            r.texture == texture,
            final(cmds)@ == old(cmds)@ + Self::cmds_create_framebuffer(
                gl_framebuffer,
                texture.gl_texture,
            ),
    {
        cmds.push(GlCommand::BindFramebuffer { target: FRAMEBUFFER, framebuffer: gl_framebuffer });
        self.bind_texture(&texture, 0, cmds);
        cmds.push(
            GlCommand::FramebufferTexture2D {
                target: FRAMEBUFFER,
                attachment: COLOR_ATTACHMENT0,
                textarget: TEXTURE_2D,
                texture: texture.gl_texture,
                level: 0,
            },
        );
        assert(cmds@ =~= old(cmds)@ + Self::cmds_create_framebuffer(gl_framebuffer, texture.gl_texture));
        GLFramebuffer { gl_framebuffer, texture }
    }

    /// Whether `glCheckFramebufferStatus` reported a complete framebuffer.
    pub fn framebuffer_complete(&self, status: u32) -> (r: bool)
        ensures
            r == (status == FRAMEBUFFER_COMPLETE),
    {
        status == FRAMEBUFFER_COMPLETE
    }

    /// The vertex array object `gl_vertex_array` that
    /// `glGenVertexArrays` handed out.
    pub fn create_vertex_array(&self, gl_vertex_array: u32) -> (r: GLVertexArray)
        ensures
            r.gl_vertex_array == gl_vertex_array,
    {
        GLVertexArray { gl_vertex_array }
    }

    /// The buffer object `gl_buffer` that `glGenBuffers` handed out.
    pub fn create_buffer(&self, gl_buffer: u32) -> (r: GLBuffer)
        ensures
            r.gl_buffer == gl_buffer,
    {
        GLBuffer { gl_buffer }
    }

    /// The query object `gl_query` that `glGenQueries` handed out.
    pub fn create_timer_query(&self, gl_query: u32) -> (r: GLTimerQuery)
        ensures
            r.spec_gl_query() == gl_query,
    {
        GLTimerQuery::from_gl_query(gl_query)
    }

    /// Binding `buffer` to `target` and giving it `byte_size` bytes of
    /// storage for `mode`, filled from memory when `with_data`.
    pub open spec fn cmds_allocate_buffer(
        buffer: &GLBuffer,
        byte_size: int,
        with_data: bool,
        target: BufferTarget,
        mode: BufferUploadMode,
    ) -> Seq<GlCommand> {
        seq![
            GlCommand::BindBuffer { target: target.spec_gl_target(), buffer: buffer.gl_buffer },
            GlCommand::BufferData {
                target: target.spec_gl_target(),
                byte_size: byte_size as isize,
                with_data,
                usage: mode.spec_gl_usage(),
            },
        ]
    }

    /// Binding `buffer` to `target` and giving it room for `data`'s
    /// elements, with `data`'s contents when it has some.
    pub fn allocate_buffer<T>(
        &self,
        buffer: &GLBuffer,
        data: &BufferData<T>,
        target: BufferTarget,
        mode: BufferUploadMode,
        cmds: &mut Vec<GlCommand>,
    )
        requires
            data.spec_len() * size_of::<T>() <= usize::MAX,
        ensures
            final(cmds)@ == old(cmds)@ + Self::cmds_allocate_buffer(
                buffer,
                (data.spec_len() * size_of::<T>()) as int,
                data.spec_from_memory(),
                target,
                mode,
            ),
    {
        let target = match target {
            BufferTarget::Vertex => ARRAY_BUFFER,
            BufferTarget::Index => ELEMENT_ARRAY_BUFFER,
        };
        let (with_data, len) = match data {
            BufferData::Uninitialized(len) => (false, *len),
            BufferData::Memory(buffer) => (true, buffer.len()),
        };
        let len = (len * core::mem::size_of::<T>()) as isize;
        let usage = mode.to_gl_usage();
        cmds.push(GlCommand::BindBuffer { target, buffer: buffer.gl_buffer });
        cmds.push(GlCommand::BufferData { target, byte_size: len, with_data, usage });
    }

    /// Binding `buffer` to `target` within `vertex_array`, which is bound
    /// for that and unbound again.
    pub open spec fn cmds_bind_buffer(
        vertex_array: &GLVertexArray,
        buffer: &GLBuffer,
        target: BufferTarget,
    ) -> Seq<GlCommand> {
        seq![
            GlCommand::BindVertexArray { array: vertex_array.gl_vertex_array },
            GlCommand::BindBuffer { target: target.spec_gl_target(), buffer: buffer.gl_buffer },
            GlCommand::BindVertexArray { array: 0 },
        ]
    }

    /// Binding `buffer` to `target` within `vertex_array`.
    pub fn bind_buffer(
        &self,
        vertex_array: &GLVertexArray,
        buffer: &GLBuffer,
        target: BufferTarget,
        cmds: &mut Vec<GlCommand>,
    )
        ensures
            final(cmds)@ == old(cmds)@ + Self::cmds_bind_buffer(vertex_array, buffer, target),
    {
        self.bind_vertex_array(vertex_array, cmds);
        cmds.push(GlCommand::BindBuffer { target: target.to_gl_target(), buffer: buffer.gl_buffer });
        self.unbind_vertex_array(cmds);
        assert(cmds@ =~= old(cmds)@ + Self::cmds_bind_buffer(vertex_array, buffer, target));
    }

    /// Describing where `attr` finds its data within `vertex_array`.
    pub open spec fn cmds_configure_vertex_attr(
        vertex_array: &GLVertexArray,
        attr: &GLVertexAttr,
        descriptor: VertexAttrDescriptor,
    ) -> Seq<GlCommand> {
        let index = attr.spec_attr();
        let ty = descriptor.attr_type.spec_gl_type();
        seq![GlCommand::BindVertexArray { array: vertex_array.gl_vertex_array }] + (
        match descriptor.class {
            VertexAttrClass::Int => seq![
                GlCommand::VertexAttribIPointer {
                    index,
                    size: descriptor.size as i32,
                    ty,
                    stride: descriptor.stride as i32,
                    offset: descriptor.offset,
                },
            ],
            _ => seq![
                GlCommand::VertexAttribPointer {
                    index,
                    size: descriptor.size as i32,
                    ty,
                    normalized: if descriptor.class == VertexAttrClass::FloatNorm {
                        TRUE
                    } else {
                        FALSE
                    },
                    stride: descriptor.stride as i32,
                    offset: descriptor.offset,
                },
            ],
        }) + seq![
            GlCommand::VertexAttribDivisor { index, divisor: descriptor.divisor },
            GlCommand::EnableVertexAttribArray { index },
            GlCommand::BindVertexArray { array: 0 },
        ]
    }

    pub fn configure_vertex_attr(
        &self,
        vertex_array: &GLVertexArray,
        attr: &GLVertexAttr,
        descriptor: &VertexAttrDescriptor,
        cmds: &mut Vec<GlCommand>,
    )
        requires
            descriptor.stride != 0,
        ensures
            final(cmds)@ == old(cmds)@ + Self::cmds_configure_vertex_attr(
                vertex_array,
                attr,
                *descriptor,
            ),
    {
        self.bind_vertex_array(vertex_array, cmds);
        let attr_type = descriptor.attr_type.to_gl_type();
        match descriptor.class {
            VertexAttrClass::Float | VertexAttrClass::FloatNorm => {
                let normalized = descriptor.class == VertexAttrClass::FloatNorm;
                attr.configure_float(
                    descriptor.size as i32,
                    attr_type,
                    normalized,
                    descriptor.stride as i32,
                    descriptor.offset,
                    descriptor.divisor,
                    cmds,
                );
            },
            VertexAttrClass::Int => {
                attr.configure_int(
                    descriptor.size as i32,
                    attr_type,
                    descriptor.stride as i32,
                    descriptor.offset,
                    descriptor.divisor,
                    cmds,
                );
            },
        }
        self.unbind_vertex_array(cmds);
        assert(cmds@ =~= old(cmds)@ + Self::cmds_configure_vertex_attr(
            vertex_array,
            attr,
            *descriptor,
        ));
    }

    /// The name under which a program declares the vertex attribute `name`.
    pub fn vertex_attr_name(&self, name: &str) -> (r: String)
        ensures
            r@ == "a"@ + name@,
    {
        String::from_str("a").concat(name)
    }

    /// The vertex attribute at the location that `glGetAttribLocation`
    /// reported, if there is one.
    pub fn get_vertex_attr(&self, location: i32) -> (r: Option<GLVertexAttr>)
        ensures
            location < 0 <==> r is None,
            r is Some ==> r->Some_0.spec_attr() == location as u32,
    {
        GLVertexAttr::from_location(location)
    }

    /// The name under which a program declares the uniform `name`.
    pub fn uniform_name(&self, name: &str) -> (r: String)
        ensures
            r@ == "u"@ + name@,
    {
        String::from_str("u").concat(name)
    }

    /// The uniform at the location that `glGetUniformLocation` reported.
    pub fn get_uniform(&self, location: i32) -> (r: crate::device::GLUniform)
        ensures
            r.spec_location() == location,
    {
        crate::device::GLUniform::from_location(location)
    }

    /// The resource path of the shader `name` of `kind`.
    pub fn shader_path(&self, name: &str, kind: ShaderKind) -> (r: String)
        ensures
            r@ == spec_shader_path(name@, kind),
    {
        let suffix = match kind {
            ShaderKind::Vertex => "v",
            ShaderKind::Fragment => "f",
        };
        String::from_str("shaders/gl3/").concat(name).concat(".").concat(suffix).concat("s.glsl")
    }

    /// The source of a shader of `kind`: the template `source` expanded with
    /// this device's GLSL version line.
    pub fn create_shader_from_source(&self, source: &[u8], kind: ShaderKind) -> (r: ShaderSource)
        requires
            template_status(source@) is Ok,
        ensures
            r.source@ == expand_template(
                source@,
                encode_utf8(self.spec_version().spec_glsl_version_spec()),
            )->Ok_0,
            r.gl_kind == kind.spec_gl_shader_kind(),
    {
        let glsl_version_spec = self.glsl_version_spec();
        let mut output: Vec<u8> = Vec::new();
        self.preprocess(&mut output, source, glsl_version_spec);
        assert(output@ =~= expand_template(source@, encode_utf8(glsl_version_spec@))->Ok_0);
        ShaderSource { source: output, gl_kind: kind.to_gl_shader_kind() }
    }

    /// Giving the shader object `gl_shader` a source of `length` bytes and
    /// compiling it.
    pub open spec fn cmds_compile_shader(gl_shader: u32, length: int) -> Seq<GlCommand> {
        seq![
            GlCommand::ShaderSource { shader: gl_shader, length: length as i32 },
            GlCommand::CompileShader { shader: gl_shader },
        ]
    }

    /// Attaching two shaders to the program object `gl_program` and linking
    /// it.
    pub open spec fn cmds_link_program(gl_program: u32, vertex_shader: u32, fragment_shader: u32) -> Seq<
        GlCommand,
    > {
        seq![
            GlCommand::AttachShader { program: gl_program, shader: vertex_shader },
            GlCommand::AttachShader { program: gl_program, shader: fragment_shader },
            GlCommand::LinkProgram { program: gl_program },
        ]
    }

    /// Handing the expanded `source` to the shader object `gl_shader` that
    /// `glCreateShader(source.gl_kind)` handed out, and compiling it.
    pub fn compile_shader(&self, gl_shader: u32, source: &ShaderSource, cmds: &mut Vec<GlCommand>)
        ensures
            final(cmds)@ == old(cmds)@ + Self::cmds_compile_shader(
                gl_shader,
                source.source@.len() as int,
            ),
    {
        cmds.push(GlCommand::ShaderSource { shader: gl_shader, length: source.source.len() as i32 });
        cmds.push(GlCommand::CompileShader { shader: gl_shader });
        assert(cmds@ =~= old(cmds)@ + Self::cmds_compile_shader(
            gl_shader,
            source.source@.len() as int,
        ));
    }

    /// The shader object `gl_shader`, if `glGetShaderiv(COMPILE_STATUS)`
    /// reported that it compiled.
    pub fn shader_from_compile_status(&self, gl_shader: u32, compile_status: i32) -> (r: Option<
        GLShader,
    >)
        ensures
            r is Some <==> status_ok(compile_status),
            r is Some ==> r->Some_0.spec_gl_shader() == gl_shader,
    {
        if compile_status != TRUE as i32 {
            None
        } else {
            Some(GLShader::from_gl_shader(gl_shader))
        }
    }

    /// Attaching both shaders to the program object `gl_program` that
    /// `glCreateProgram` handed out, and linking it.
    pub fn link_program(
        &self,
        gl_program: u32,
        vertex_shader: &GLShader,
        fragment_shader: &GLShader,
        cmds: &mut Vec<GlCommand>,
    )
        ensures
            final(cmds)@ == old(cmds)@ + Self::cmds_link_program(
                gl_program,
                vertex_shader.spec_gl_shader(),
                fragment_shader.spec_gl_shader(),
            ),
    {
        cmds.push(GlCommand::AttachShader { program: gl_program, shader: vertex_shader.gl_shader() });
        cmds.push(GlCommand::AttachShader { program: gl_program, shader: fragment_shader.gl_shader() });
        cmds.push(GlCommand::LinkProgram { program: gl_program });
        assert(cmds@ =~= old(cmds)@ + Self::cmds_link_program(
            gl_program,
            vertex_shader.spec_gl_shader(),
            fragment_shader.spec_gl_shader(),
        ));
    }

    /// The program `gl_program` made of the two shaders, if
    /// `glGetProgramiv(LINK_STATUS)` reported that it linked.
    pub fn program_from_link_status(
        &self,
        gl_program: u32,
        link_status: i32,
        vertex_shader: GLShader,
        fragment_shader: GLShader,
    ) -> (r: Option<GLProgram>)
        ensures
            r is Some <==> status_ok(link_status),
            r is Some ==> r->Some_0.spec_gl_program() == gl_program
                && r->Some_0.spec_vertex_shader() == vertex_shader.spec_gl_shader()
                && r->Some_0.spec_fragment_shader() == fragment_shader.spec_gl_shader(),
    {
        if link_status != TRUE as i32 {
            None
        } else {
            Some(GLProgram::from_shaders(gl_program, vertex_shader, fragment_shader))
        }
    }

    /// Starting to time the commands that follow.
    pub fn begin_timer_query(&self, query: &GLTimerQuery, cmds: &mut Vec<GlCommand>)
        ensures
            final(cmds)@ == old(cmds)@.push(
                GlCommand::BeginQuery { target: TIME_ELAPSED, id: query.spec_gl_query() },
            ),
    {
        cmds.push(GlCommand::BeginQuery { target: TIME_ELAPSED, id: query.gl_query() });
    }

    /// Ending the running timer query.
    pub fn end_timer_query(&self, _query: &GLTimerQuery, cmds: &mut Vec<GlCommand>)
        ensures
            final(cmds)@ == old(cmds)@.push(GlCommand::EndQuery { target: TIME_ELAPSED }),
    {
        cmds.push(GlCommand::EndQuery { target: TIME_ELAPSED });
    }

    /// Whether the result of a timer query can be read yet, from what
    /// `glGetQueryObjectiv(QUERY_RESULT_AVAILABLE)` reported.
    pub fn timer_query_available(&self, available: i32) -> (r: bool)
        ensures
            r == (available != FALSE as i32),
    {
        available != FALSE as i32
    }

    /// Flushing the commands of a frame to the driver.
    pub fn end_commands(&self, cmds: &mut Vec<GlCommand>)
        ensures
            final(cmds)@ == old(cmds)@.push(GlCommand::Flush),
    {
        cmds.push(GlCommand::Flush);
    }

    /// Binding `render_target` and reading the pixels of `viewport` in its
    /// pixel format.
    pub open spec fn cmds_read_pixels(&self, render_target: &RenderTarget, viewport: RectI) -> Seq<
        GlCommand,
    > {
        self.cmds_bind_render_target(render_target) + seq![
            GlCommand::ReadPixels {
                x: viewport.origin.x,
                y: viewport.origin.y,
                width: viewport.size.x,
                height: viewport.size.y,
                format: spec_render_target_format(render_target).spec_gl_format(),
                ty: spec_render_target_format(render_target).spec_gl_type(),
            },
        ]
    }

    /// Reading the pixels of `viewport` of `render_target`: binds the
    /// target and plans the read, and returns the buffer the read fills.
    pub fn read_pixels(
        &self,
        render_target: &RenderTarget,
        viewport: RectI,
        cmds: &mut Vec<GlCommand>,
    ) -> (r: PixelReadback)
        requires
            image_len(viewport.size, spec_render_target_format(render_target).spec_channels())
                <= usize::MAX,
            image_stride(viewport.size, spec_render_target_format(render_target).spec_channels())
                <= usize::MAX,
        ensures
            r.wf(),
            zeroed(&r.pixels),
            r.format == spec_render_target_format(render_target),
            r.size == viewport.size,
            final(cmds)@ == old(cmds)@ + self.cmds_read_pixels(render_target, viewport),
    {
        let origin = viewport.origin();
        let size = viewport.size();
        let format = self.render_target_format(render_target);
        self.bind_render_target(render_target, cmds);
        cmds.push(
            GlCommand::ReadPixels {
                x: origin.x(),
                y: origin.y(),
                width: size.x(),
                height: size.y(),
                format: format.gl_format(),
                ty: format.gl_type(),
            },
        );
        let channels = format.channels();
        let pixels = match format {
            TextureFormat::R8 | TextureFormat::RGBA8 => {
                TextureData::U8(vec![0u8; size.x() as usize * size.y() as usize * channels])
            },
            TextureFormat::R16F => {
                TextureData::U16(vec![0u16; size.x() as usize * size.y() as usize])
            },
        };
        PixelReadback { format, size, pixels }
    }
}

} // verus!
