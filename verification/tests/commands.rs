use pathfinder_gl::command::GlCommand;
use pathfinder_gl::device::{GLDevice, GLTexture, GLUniform, GLVersion, GLVertexAttr, RenderTarget};
use pathfinder_gl::glenum::{
    ALWAYS, ARRAY_BUFFER, BLEND, BYTE, CLAMP_TO_EDGE, COLOR_ATTACHMENT0, COLOR_BUFFER_BIT, DEPTH_BUFFER_BIT, DEPTH_TEST, DYNAMIC_DRAW, ELEMENT_ARRAY_BUFFER, EQUAL, FLOAT, FRAGMENT_SHADER, FRAMEBUFFER, FRAMEBUFFER_COMPLETE, FUNC_ADD, HALF_FLOAT, KEEP, LESS, LINEAR, LINES, ONE, ONE_MINUS_SRC_ALPHA, R16F, R8, RED, REPLACE, RGBA, SHORT, SRC_ALPHA, STATIC_DRAW, STENCIL_BUFFER_BIT, STENCIL_TEST, TEXTURE0, TEXTURE_2D, TEXTURE_MAG_FILTER, TEXTURE_MIN_FILTER, TEXTURE_WRAP_S, TEXTURE_WRAP_T, TIME_ELAPSED, TRIANGLES, UNSIGNED_BYTE, UNSIGNED_INT, UNSIGNED_SHORT, VERTEX_SHADER,
};
use pathfinder_gl::render::RenderState;
use pathfinder_gl::types::{
    BlendState, BufferData, BufferTarget, BufferUploadMode, ClearOps, DepthFunc, DepthState,
    Primitive, RectI, RenderOptions, ShaderKind, StencilFunc, StencilState, TextureData,
    TextureFormat, UniformData, Vector2I, VertexAttrClass, VertexAttrDescriptor, VertexAttrType,
};

fn device() -> GLDevice {
    GLDevice::new(GLVersion::GL3, 7)
}

fn no_clear() -> ClearOps {
    ClearOps { color: false, depth: false, stencil: None }
}

fn plain_options() -> RenderOptions {
    RenderOptions {
        blend: BlendState::Off,
        depth: None,
        stencil: None,
        clear_ops: no_clear(),
        color_mask: true,
    }
}

#[test]
fn plain_render_options() {
    let mut cmds = Vec::new();
    device().set_render_options(&plain_options(), &mut cmds);
    assert_eq!(cmds, vec![
        GlCommand::Disable { cap: BLEND },
        GlCommand::Disable { cap: DEPTH_TEST },
        GlCommand::Disable { cap: STENCIL_TEST },
        GlCommand::ColorMask { red: 1, green: 1, blue: 1, alpha: 1 },
    ]);
}

#[test]
fn full_render_options() {
    let options = RenderOptions {
        blend: BlendState::RGBSrcAlphaAlphaOneMinusSrcAlpha,
        depth: Some(DepthState { func: DepthFunc::Less, write: true }),
        stencil: Some(StencilState { func: StencilFunc::Equal, reference: 3, mask: 0xff, write: false }),
        clear_ops: no_clear(),
        color_mask: false,
    };
    let mut cmds = Vec::new();
    device().set_render_options(&options, &mut cmds);
    assert_eq!(cmds, vec![
        GlCommand::BlendEquation { mode: FUNC_ADD },
        GlCommand::BlendFuncSeparate { src_rgb: SRC_ALPHA, dst_rgb: ONE_MINUS_SRC_ALPHA, src_alpha: ONE, dst_alpha: ONE },
        GlCommand::Enable { cap: BLEND },
        GlCommand::DepthFunc { func: LESS },
        GlCommand::DepthMask { flag: 1 },
        GlCommand::Enable { cap: DEPTH_TEST },
        GlCommand::StencilFunc { func: EQUAL, reference: 3, mask: 0xff },
        GlCommand::StencilOp { sfail: KEEP, dpfail: KEEP, dppass: KEEP },
        GlCommand::StencilMask { mask: 0 },
        GlCommand::Enable { cap: STENCIL_TEST },
        GlCommand::ColorMask { red: 0, green: 0, blue: 0, alpha: 0 },
    ]);

    let mut reset = Vec::new();
    device().reset_render_options(&options, &mut reset);
    assert_eq!(reset, vec![
        GlCommand::Disable { cap: BLEND },
        GlCommand::Disable { cap: DEPTH_TEST },
        GlCommand::StencilMask { mask: u32::MAX },
        GlCommand::Disable { cap: STENCIL_TEST },
        GlCommand::ColorMask { red: 1, green: 1, blue: 1, alpha: 1 },
    ]);
}

#[test]
fn blend_modes() {
    let mut cmds = Vec::new();
    let options = RenderOptions { blend: BlendState::RGBOneAlphaOne, ..plain_options() };
    device().set_render_options(&options, &mut cmds);
    assert_eq!(&cmds[..3], &[
        GlCommand::BlendEquation { mode: FUNC_ADD },
        GlCommand::BlendFunc { sfactor: ONE, dfactor: ONE },
        GlCommand::Enable { cap: BLEND },
    ]);
    let mut cmds = Vec::new();
    let options = RenderOptions { blend: BlendState::RGBOneAlphaOneMinusSrcAlpha, ..plain_options() };
    device().set_render_options(&options, &mut cmds);
    assert_eq!(cmds[1], GlCommand::BlendFuncSeparate { src_rgb: ONE, dst_rgb: ONE_MINUS_SRC_ALPHA, src_alpha: ONE, dst_alpha: ONE });
}

#[test]
fn writing_stencil_replaces() {
    let mut cmds = Vec::new();
    let options = RenderOptions {
        stencil: Some(StencilState { func: StencilFunc::Always, reference: 1, mask: 0x0f, write: true }),
        ..plain_options()
    };
    device().set_render_options(&options, &mut cmds);
    assert_eq!(&cmds[2..6], &[
        GlCommand::StencilFunc { func: ALWAYS, reference: 1, mask: 0x0f },
        GlCommand::StencilOp { sfail: KEEP, dpfail: KEEP, dppass: REPLACE },
        GlCommand::StencilMask { mask: 0x0f },
        GlCommand::Enable { cap: STENCIL_TEST },
    ]);
}

#[test]
fn reset_of_plain_options_only_restores_color_mask() {
    let mut cmds = Vec::new();
    device().reset_render_options(&plain_options(), &mut cmds);
    assert_eq!(cmds, vec![GlCommand::ColorMask { red: 1, green: 1, blue: 1, alpha: 1 }]);
}

#[test]
fn clear_all_buffers() {
    let mut cmds = Vec::new();
    device().clear(&ClearOps { color: true, depth: true, stencil: Some(5) }, &mut cmds);
    assert_eq!(cmds, vec![
        GlCommand::ColorMask { red: 1, green: 1, blue: 1, alpha: 1 },
        GlCommand::ClearColor,
        GlCommand::DepthMask { flag: 1 },
        GlCommand::ClearDepth,
        GlCommand::StencilMask { mask: u32::MAX },
        GlCommand::ClearStencil { s: 5 },
        GlCommand::Clear { mask: COLOR_BUFFER_BIT | DEPTH_BUFFER_BIT | STENCIL_BUFFER_BIT },
    ]);
}

#[test]
fn clear_depth_only() {
    let mut cmds = Vec::new();
    device().clear(&ClearOps { color: false, depth: true, stencil: None }, &mut cmds);
    assert_eq!(cmds, vec![
        GlCommand::DepthMask { flag: 1 },
        GlCommand::ClearDepth,
        GlCommand::Clear { mask: 0x0100 },
    ]);
}

#[test]
fn clear_nothing() {
    let mut cmds = Vec::new();
    device().clear(&no_clear(), &mut cmds);
    assert!(cmds.is_empty());
    assert!(!no_clear().has_ops());
}

#[test]
fn draw_arrays_sets_up_and_tears_down() {
    let dev = device();
    let mut cmds = Vec::new();
    let texture = dev.create_texture(40, TextureFormat::RGBA8, Vector2I::new(4, 4), &mut cmds);
    let fb = dev.create_framebuffer(9, texture, &mut cmds);
    let program_vs = dev.shader_from_compile_status(1, 1).unwrap();
    let program_fs = dev.shader_from_compile_status(2, 1).unwrap();
    let program = dev.program_from_link_status(3, 1, program_vs, program_fs).unwrap();
    let vertex_array = dev.create_vertex_array(11);
    let t0 = dev.create_texture_from_existing_texture(21, TextureFormat::R8, Vector2I::new(1, 1), &mut cmds);
    let t1 = dev.create_texture_from_existing_texture(22, TextureFormat::R8, Vector2I::new(1, 1), &mut cmds);
    let u0 = dev.get_uniform(5);
    let target = RenderTarget::Framebuffer(&fb);
    let textures = [&t0, &t1];
    let uniforms = [(&u0, UniformData::TextureUnit(2)), (&u0, UniformData::Vec4)];
    let state = RenderState {
        target: &target,
        program: &program,
        vertex_array: &vertex_array,
        primitive: Primitive::Lines,
        uniforms: &uniforms,
        textures: &textures,
        viewport: RectI::new(Vector2I::new(1, 2), Vector2I::new(30, 40)),
        options: RenderOptions { clear_ops: ClearOps { color: true, depth: false, stencil: None }, ..plain_options() },
    };
    let mut cmds = Vec::new();
    dev.draw_arrays(6, &state, &mut cmds);
    assert_eq!(cmds, vec![
        GlCommand::BindFramebuffer { target: FRAMEBUFFER, framebuffer: 9 },
        GlCommand::Viewport { x: 1, y: 2, width: 30, height: 40 },
        GlCommand::ColorMask { red: 1, green: 1, blue: 1, alpha: 1 },
        GlCommand::ClearColor,
        GlCommand::Clear { mask: COLOR_BUFFER_BIT },
        GlCommand::UseProgram { program: 3 },
        GlCommand::BindVertexArray { array: 11 },
        GlCommand::ActiveTexture { texture: TEXTURE0 },
        GlCommand::BindTexture { target: TEXTURE_2D, texture: 21 },
        GlCommand::ActiveTexture { texture: TEXTURE0 + 1 },
        GlCommand::BindTexture { target: TEXTURE_2D, texture: 22 },
        GlCommand::Uniform1i { location: 5, value: 2 },
        GlCommand::Uniform4f { location: 5, value_index: 1 },
        GlCommand::Disable { cap: BLEND },
        GlCommand::Disable { cap: DEPTH_TEST },
        GlCommand::Disable { cap: STENCIL_TEST },
        GlCommand::ColorMask { red: 1, green: 1, blue: 1, alpha: 1 },
        GlCommand::DrawArrays { mode: LINES, first: 0, count: 6 },
        GlCommand::ColorMask { red: 1, green: 1, blue: 1, alpha: 1 },
        GlCommand::ActiveTexture { texture: TEXTURE0 },
        GlCommand::BindTexture { target: TEXTURE_2D, texture: 0 },
        GlCommand::ActiveTexture { texture: TEXTURE0 + 1 },
        GlCommand::BindTexture { target: TEXTURE_2D, texture: 0 },
        GlCommand::UseProgram { program: 0 },
        GlCommand::BindVertexArray { array: 0 },
    ]);

    let default_target = RenderTarget::Default;
    let state = RenderState { target: &default_target, textures: &[], uniforms: &[], primitive: Primitive::Triangles, ..state };
    let mut cmds = Vec::new();
    dev.draw_elements(3, &state, &mut cmds);
    assert_eq!(cmds[0], GlCommand::BindFramebuffer { target: FRAMEBUFFER, framebuffer: 7 });
    assert!(cmds.contains(&GlCommand::DrawElements { mode: TRIANGLES, count: 3, ty: UNSIGNED_INT }));
    let mut cmds = Vec::new();
    dev.draw_elements_instanced(3, 8, &state, &mut cmds);
    assert!(cmds.contains(&GlCommand::DrawElementsInstanced { mode: TRIANGLES, count: 3, ty: UNSIGNED_INT, instance_count: 8 }));
    assert_eq!(cmds.last(), Some(&GlCommand::BindVertexArray { array: 0 }));
}

#[test]
fn texture_creation() {
    let dev = device();
    let mut cmds = Vec::new();
    let texture = dev.create_texture(4, TextureFormat::R16F, Vector2I::new(8, 2), &mut cmds);
    assert_eq!(texture.gl_texture, 4);
    assert_eq!(dev.texture_size(&texture), Vector2I::new(8, 2));
    let params = vec![
        GlCommand::ActiveTexture { texture: TEXTURE0 },
        GlCommand::BindTexture { target: TEXTURE_2D, texture: 4 },
        GlCommand::TexParameteri { target: TEXTURE_2D, pname: TEXTURE_MIN_FILTER, param: LINEAR as i32 },
        GlCommand::TexParameteri { target: TEXTURE_2D, pname: TEXTURE_MAG_FILTER, param: LINEAR as i32 },
        GlCommand::TexParameteri { target: TEXTURE_2D, pname: TEXTURE_WRAP_S, param: CLAMP_TO_EDGE as i32 },
        GlCommand::TexParameteri { target: TEXTURE_2D, pname: TEXTURE_WRAP_T, param: CLAMP_TO_EDGE as i32 },
    ];
    let mut expected = vec![
        GlCommand::ActiveTexture { texture: TEXTURE0 },
        GlCommand::BindTexture { target: TEXTURE_2D, texture: 4 },
        GlCommand::TexImage2D {
            target: TEXTURE_2D, level: 0, internal_format: R16F as i32, width: 8, height: 2,
            border: 0, format: RED, ty: HALF_FLOAT, with_data: false,
        },
    ];
    expected.extend(params.iter().cloned());
    assert_eq!(cmds, expected);

    let mut cmds = Vec::new();
    let data = [0u8; 16];
    let texture = dev.create_texture_from_data(5, Vector2I::new(4, 4), &data, &mut cmds);
    assert_eq!(texture.format, TextureFormat::R8);
    assert_eq!(cmds[2], GlCommand::TexImage2D {
        target: TEXTURE_2D, level: 0, internal_format: R8 as i32, width: 4, height: 4,
        border: 0, format: RED, ty: UNSIGNED_BYTE, with_data: true,
    });

    let mut cmds = Vec::new();
    let rgba = [0u8; 64];
    dev.upload_to_texture(&texture, Vector2I::new(4, 4), &rgba, &mut cmds);
    assert_eq!(cmds[2], GlCommand::TexImage2D {
        target: TEXTURE_2D, level: 0, internal_format: RGBA as i32, width: 4, height: 4,
        border: 0, format: RGBA, ty: UNSIGNED_BYTE, with_data: true,
    });
    assert_eq!(cmds.len(), 9);
}

#[test]
fn framebuffer_creation() {
    let dev = device();
    let mut cmds = Vec::new();
    let texture = GLTexture { gl_texture: 12, size: Vector2I::new(2, 2), format: TextureFormat::RGBA8 };
    let fb = dev.create_framebuffer(3, texture, &mut cmds);
    assert_eq!(fb.gl_framebuffer, 3);
    assert_eq!(dev.framebuffer_texture(&fb).gl_texture, 12);
    assert_eq!(cmds, vec![
        GlCommand::BindFramebuffer { target: FRAMEBUFFER, framebuffer: 3 },
        GlCommand::ActiveTexture { texture: TEXTURE0 },
        GlCommand::BindTexture { target: TEXTURE_2D, texture: 12 },
        GlCommand::FramebufferTexture2D { target: FRAMEBUFFER, attachment: COLOR_ATTACHMENT0, textarget: TEXTURE_2D, texture: 12, level: 0 },
    ]);
    assert!(dev.framebuffer_complete(FRAMEBUFFER_COMPLETE));
    assert!(!dev.framebuffer_complete(0));
    let target = RenderTarget::Framebuffer(&fb);
    assert_eq!(dev.render_target_format(&target), TextureFormat::RGBA8);
    assert_eq!(dev.render_target_format(&RenderTarget::Default), TextureFormat::RGBA8);
}

#[test]
fn buffer_allocation() {
    let dev = device();
    let buffer = dev.create_buffer(8);
    let data = [1u32, 2, 3];
    let mut cmds = Vec::new();
    dev.allocate_buffer(&buffer, &BufferData::Memory(&data), BufferTarget::Vertex, BufferUploadMode::Static, &mut cmds);
    assert_eq!(cmds, vec![
        GlCommand::BindBuffer { target: ARRAY_BUFFER, buffer: 8 },
        GlCommand::BufferData { target: ARRAY_BUFFER, byte_size: 12, with_data: true, usage: STATIC_DRAW },
    ]);
    let mut cmds = Vec::new();
    dev.allocate_buffer::<u16>(&buffer, &BufferData::Uninitialized(10), BufferTarget::Index, BufferUploadMode::Dynamic, &mut cmds);
    assert_eq!(cmds[1], GlCommand::BufferData { target: ELEMENT_ARRAY_BUFFER, byte_size: 20, with_data: false, usage: DYNAMIC_DRAW });

    let vertex_array = dev.create_vertex_array(2);
    let mut cmds = Vec::new();
    dev.bind_buffer(&vertex_array, &buffer, BufferTarget::Index, &mut cmds);
    assert_eq!(cmds, vec![
        GlCommand::BindVertexArray { array: 2 },
        GlCommand::BindBuffer { target: ELEMENT_ARRAY_BUFFER, buffer: 8 },
        GlCommand::BindVertexArray { array: 0 },
    ]);
}

#[test]
fn vertex_attributes() {
    let dev = device();
    assert!(dev.get_vertex_attr(-1).is_none());
    let attr = dev.get_vertex_attr(3).unwrap();
    let vertex_array = dev.create_vertex_array(2);
    let descriptor = VertexAttrDescriptor {
        size: 2, class: VertexAttrClass::FloatNorm, attr_type: VertexAttrType::U16,
        stride: 8, offset: 4, divisor: 1, buffer_index: 0,
    };
    let mut cmds = Vec::new();
    dev.configure_vertex_attr(&vertex_array, &attr, &descriptor, &mut cmds);
    assert_eq!(cmds, vec![
        GlCommand::BindVertexArray { array: 2 },
        GlCommand::VertexAttribPointer { index: 3, size: 2, ty: UNSIGNED_SHORT, normalized: 1, stride: 8, offset: 4 },
        GlCommand::VertexAttribDivisor { index: 3, divisor: 1 },
        GlCommand::EnableVertexAttribArray { index: 3 },
        GlCommand::BindVertexArray { array: 0 },
    ]);
    let descriptor = VertexAttrDescriptor { class: VertexAttrClass::Int, attr_type: VertexAttrType::I8, ..descriptor };
    let mut cmds = Vec::new();
    dev.configure_vertex_attr(&vertex_array, &attr, &descriptor, &mut cmds);
    assert_eq!(cmds[1], GlCommand::VertexAttribIPointer { index: 3, size: 2, ty: BYTE, stride: 8, offset: 4 });
    let descriptor = VertexAttrDescriptor { class: VertexAttrClass::Float, attr_type: VertexAttrType::F32, ..descriptor };
    let mut cmds = Vec::new();
    dev.configure_vertex_attr(&vertex_array, &attr, &descriptor, &mut cmds);
    assert_eq!(cmds[1], GlCommand::VertexAttribPointer { index: 3, size: 2, ty: FLOAT, normalized: 0, stride: 8, offset: 4 });

    let direct = GLVertexAttr::from_location(7).unwrap();
    let mut cmds = Vec::new();
    direct.configure_int(4, SHORT, 16, 0, 0, &mut cmds);
    assert_eq!(cmds, vec![
        GlCommand::VertexAttribIPointer { index: 7, size: 4, ty: SHORT, stride: 16, offset: 0 },
        GlCommand::VertexAttribDivisor { index: 7, divisor: 0 },
        GlCommand::EnableVertexAttribArray { index: 7 },
    ]);
    let mut cmds = Vec::new();
    direct.configure_float(1, FLOAT, true, 4, 12, 2, &mut cmds);
    assert_eq!(cmds[0], GlCommand::VertexAttribPointer { index: 7, size: 1, ty: FLOAT, normalized: 1, stride: 4, offset: 12 });
}

#[test]
fn names_and_paths() {
    let dev = device();
    assert_eq!(dev.vertex_attr_name("Position"), "aPosition");
    assert_eq!(dev.uniform_name("Framebuffer"), "uFramebuffer");
    assert_eq!(dev.shader_path("fill", ShaderKind::Vertex), "shaders/gl3/fill.vs.glsl");
    assert_eq!(dev.shader_path("fill", ShaderKind::Fragment), "shaders/gl3/fill.fs.glsl");
    assert_eq!(GLUniform::from_location(9).location(), 9);
}

#[test]
fn shaders_and_programs() {
    let dev = GLDevice::new(GLVersion::GLES3, 0);
    let source = dev.create_shader_from_source(b"#version {{version}}\n", ShaderKind::Fragment);
    assert_eq!(source.source, b"#version 300 es\n".to_vec());
    assert_eq!(source.gl_kind, FRAGMENT_SHADER);
    let source = device().create_shader_from_source(b"{{version}}", ShaderKind::Vertex);
    assert_eq!(source.source, b"330".to_vec());
    assert_eq!(source.gl_kind, VERTEX_SHADER);

    let mut cmds = Vec::new();
    dev.compile_shader(4, &source, &mut cmds);
    assert_eq!(cmds, vec![
        GlCommand::ShaderSource { shader: 4, length: 3 },
        GlCommand::CompileShader { shader: 4 },
    ]);
    assert!(dev.shader_from_compile_status(4, 0).is_none());
    let vs = dev.shader_from_compile_status(4, 1).unwrap();
    let fs = dev.shader_from_compile_status(5, 1).unwrap();
    assert_eq!(vs.gl_shader(), 4);
    let mut cmds = Vec::new();
    dev.link_program(6, &vs, &fs, &mut cmds);
    assert_eq!(cmds, vec![
        GlCommand::AttachShader { program: 6, shader: 4 },
        GlCommand::AttachShader { program: 6, shader: 5 },
        GlCommand::LinkProgram { program: 6 },
    ]);
    assert!(dev.program_from_link_status(6, 0, vs, fs).is_none());
    let vs = dev.shader_from_compile_status(4, 1).unwrap();
    let fs = dev.shader_from_compile_status(5, 1).unwrap();
    let program = dev.program_from_link_status(6, 1, vs, fs).unwrap();
    assert_eq!(program.gl_program, 6);
    let mut cmds = Vec::new();
    program.release(&mut cmds);
    assert_eq!(cmds, vec![
        GlCommand::DeleteProgram { program: 6 },
        GlCommand::DeleteShader { shader: 4 },
        GlCommand::DeleteShader { shader: 5 },
    ]);
}

#[test]
fn timer_queries() {
    let dev = device();
    let query = dev.create_timer_query(13);
    let mut cmds = Vec::new();
    dev.begin_timer_query(&query, &mut cmds);
    dev.end_timer_query(&query, &mut cmds);
    dev.end_commands(&mut cmds);
    assert_eq!(cmds, vec![
        GlCommand::BeginQuery { target: TIME_ELAPSED, id: 13 },
        GlCommand::EndQuery { target: TIME_ELAPSED },
        GlCommand::Flush,
    ]);
    assert!(!dev.timer_query_available(0));
    assert!(dev.timer_query_available(1));
}

#[test]
fn read_pixels_flips_rows() {
    let dev = device();
    let mut cmds = Vec::new();
    let viewport = RectI::new(Vector2I::new(0, 0), Vector2I::new(1, 2));
    let mut readback = dev.read_pixels(&RenderTarget::Default, viewport, &mut cmds);
    assert_eq!(cmds, vec![
        GlCommand::BindFramebuffer { target: FRAMEBUFFER, framebuffer: 7 },
        GlCommand::ReadPixels { x: 0, y: 0, width: 1, height: 2, format: RGBA, ty: UNSIGNED_BYTE },
    ]);
    match &mut readback.pixels {
        TextureData::U8(pixels) => {
            assert_eq!(pixels.len(), 8);
            pixels.copy_from_slice(&[1, 2, 3, 4, 5, 6, 7, 8]);
        }
        TextureData::U16(_) => panic!("expected bytes"),
    }
    match readback.finish() {
        TextureData::U8(pixels) => assert_eq!(pixels, vec![5, 6, 7, 8, 1, 2, 3, 4]),
        TextureData::U16(_) => panic!("expected bytes"),
    }

    let texture = GLTexture { gl_texture: 1, size: Vector2I::new(2, 2), format: TextureFormat::R16F };
    let fb = dev.create_framebuffer(3, texture, &mut cmds);
    let target = RenderTarget::Framebuffer(&fb);
    let mut cmds = Vec::new();
    let readback = dev.read_pixels(&target, RectI::new(Vector2I::new(0, 0), Vector2I::new(3, 2)), &mut cmds);
    assert_eq!(cmds[1], GlCommand::ReadPixels { x: 0, y: 0, width: 3, height: 2, format: RED, ty: HALF_FLOAT });
    match readback.pixels {
        TextureData::U16(ref pixels) => assert_eq!(pixels.len(), 6),
        TextureData::U8(_) => panic!("expected half floats"),
    }
}

#[test]
fn enum_conversions() {
    assert_eq!(BufferTarget::Vertex.to_gl_target(), ARRAY_BUFFER);
    assert_eq!(BufferTarget::Index.to_gl_target(), ELEMENT_ARRAY_BUFFER);
    assert_eq!(BufferUploadMode::Static.to_gl_usage(), STATIC_DRAW);
    assert_eq!(BufferUploadMode::Dynamic.to_gl_usage(), DYNAMIC_DRAW);
    assert_eq!(DepthFunc::Less.to_gl_depth_func(), LESS);
    assert_eq!(DepthFunc::Always.to_gl_depth_func(), ALWAYS);
    assert_eq!(Primitive::Triangles.to_gl_primitive(), TRIANGLES);
    assert_eq!(Primitive::Lines.to_gl_primitive(), LINES);
    assert_eq!(StencilFunc::Always.to_gl_stencil_func(), ALWAYS);
    assert_eq!(StencilFunc::Equal.to_gl_stencil_func(), EQUAL);
    assert_eq!(TextureFormat::R8.gl_internal_format(), R8 as i32);
    assert_eq!(TextureFormat::R16F.gl_internal_format(), R16F as i32);
    assert_eq!(TextureFormat::RGBA8.gl_internal_format(), RGBA as i32);
    assert_eq!(TextureFormat::R8.gl_format(), RED);
    assert_eq!(TextureFormat::RGBA8.gl_format(), RGBA);
    assert_eq!(TextureFormat::R16F.gl_type(), HALF_FLOAT);
    assert_eq!(TextureFormat::RGBA8.gl_type(), UNSIGNED_BYTE);
    assert_eq!(TextureFormat::RGBA8.channels(), 4);
    assert_eq!(TextureFormat::R16F.channels(), 1);
    assert_eq!(VertexAttrType::F32.to_gl_type(), FLOAT);
    assert_eq!(VertexAttrType::I16.to_gl_type(), SHORT);
    assert_eq!(VertexAttrType::I8.to_gl_type(), BYTE);
    assert_eq!(VertexAttrType::U16.to_gl_type(), UNSIGNED_SHORT);
    assert_eq!(VertexAttrType::U8.to_gl_type(), UNSIGNED_BYTE);
    assert_eq!(ShaderKind::Vertex.to_gl_shader_kind(), VERTEX_SHADER);
    assert_eq!(GLVersion::GL3.to_glsl_version_spec(), "330");
    assert_eq!(GLVersion::GLES3.to_glsl_version_spec(), "300 es");
}

#[test]
fn device_framebuffer_setting() {
    let mut dev = device();
    let mut cmds = Vec::new();
    dev.bind_default_framebuffer(&mut cmds);
    dev.set_default_framebuffer(42);
    dev.bind_default_framebuffer(&mut cmds);
    assert_eq!(cmds, vec![
        GlCommand::BindFramebuffer { target: FRAMEBUFFER, framebuffer: 7 },
        GlCommand::BindFramebuffer { target: FRAMEBUFFER, framebuffer: 42 },
    ]);
    assert_eq!(dev.glsl_version_spec(), "330");
}

#[test]
fn releasing_objects() {
    let dev = device();
    let mut cmds = Vec::new();
    dev.create_vertex_array(1).release(&mut cmds);
    dev.create_buffer(2).release(&mut cmds);
    dev.create_timer_query(3).release(&mut cmds);
    dev.shader_from_compile_status(4, 1).unwrap().release(&mut cmds);
    let texture = GLTexture { gl_texture: 6, size: Vector2I::new(1, 1), format: TextureFormat::R8 };
    let mut ignored = Vec::new();
    dev.create_framebuffer(5, texture, &mut ignored).release(&mut cmds);
    assert_eq!(cmds, vec![
        GlCommand::DeleteVertexArray { array: 1 },
        GlCommand::DeleteBuffer { buffer: 2 },
        GlCommand::DeleteQuery { query: 3 },
        GlCommand::DeleteShader { shader: 4 },
        GlCommand::DeleteFramebuffer { framebuffer: 5 },
    ]);
}

#[test]
fn uniform_commands() {
    let dev = device();
    let uniform = GLUniform::from_location(4);
    let cases = [
        (UniformData::Float, GlCommand::Uniform1f { location: 4, value_index: 3 }),
        (UniformData::Int(-7), GlCommand::Uniform1i { location: 4, value: -7 }),
        (UniformData::Mat2, GlCommand::UniformMatrix2fv { location: 4, value_index: 3 }),
        (UniformData::Mat4, GlCommand::UniformMatrix4fv { location: 4, value_index: 3 }),
        (UniformData::Vec2, GlCommand::Uniform2f { location: 4, value_index: 3 }),
        (UniformData::Vec4, GlCommand::Uniform4f { location: 4, value_index: 3 }),
        (UniformData::TextureUnit(1), GlCommand::Uniform1i { location: 4, value: 1 }),
    ];
    for (data, expected) in cases {
        let mut cmds = Vec::new();
        dev.set_uniform(&uniform, &data, 3, &mut cmds);
        assert_eq!(cmds, vec![expected]);
    }
}
