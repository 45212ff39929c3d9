//! Planning of render passes: render options, clears, render state, draws.

use vstd::prelude::*;
use crate::command::GlCommand;
use crate::device::{
    GLDevice, GLProgram, GLTexture, GLUniform, GLVertexArray, RenderTarget, cmds_bind_texture,
    cmds_unbind_texture,
};
use crate::glenum::{
    TRUE, FALSE, BLEND, DEPTH_TEST, STENCIL_TEST, FUNC_ADD, ONE, SRC_ALPHA, ONE_MINUS_SRC_ALPHA,
    KEEP, REPLACE, COLOR_BUFFER_BIT, DEPTH_BUFFER_BIT, STENCIL_BUFFER_BIT, TEXTURE0, UNSIGNED_INT,
};
use crate::types::{
    BlendState, ClearOps, DepthState, Primitive, RectI, RenderOptions, StencilState, UniformData,
};

verus! {

/// Everything a draw call needs: where to draw, with which program, vertex
/// array, textures and uniforms, into which viewport, with which options.
/// Floating-point uniform values stay with the caller: the one of entry `i`
/// of `uniforms` is the caller's value `i`.
pub struct RenderState<'a> {
    pub target: &'a RenderTarget<'a>,
    pub program: &'a GLProgram,
    pub vertex_array: &'a GLVertexArray,
    pub primitive: Primitive,
    pub uniforms: &'a [(&'a GLUniform, UniformData)],
    pub textures: &'a [&'a GLTexture],
    pub viewport: RectI,
    pub options: RenderOptions,
}

impl<'a> RenderState<'a> {
    /// Every texture of the state has a texture unit with an OpenGL
    /// enumerant.
    pub open spec fn wf(&self) -> bool {
        self.textures@.len() + TEXTURE0 <= u32::MAX
    }
}

/// The OpenGL boolean for `b`.
pub open spec fn gl_bool(b: bool) -> u8 {
    if b {
        TRUE
    } else {
        FALSE
    }
}

/// Setting up blending.
pub open spec fn cmds_blend(blend: BlendState) -> Seq<GlCommand> {
    match blend {
        BlendState::Off => seq![GlCommand::Disable { cap: BLEND }],
        BlendState::RGBOneAlphaOne => seq![
            GlCommand::BlendEquation { mode: FUNC_ADD },
            GlCommand::BlendFunc { sfactor: ONE, dfactor: ONE },
            GlCommand::Enable { cap: BLEND },
        ],
        BlendState::RGBOneAlphaOneMinusSrcAlpha => seq![
            GlCommand::BlendEquation { mode: FUNC_ADD },
            GlCommand::BlendFuncSeparate {
                src_rgb: ONE,
                dst_rgb: ONE_MINUS_SRC_ALPHA,
                src_alpha: ONE,
                dst_alpha: ONE,
            },
            GlCommand::Enable { cap: BLEND },
        ],
        BlendState::RGBSrcAlphaAlphaOneMinusSrcAlpha => seq![
            GlCommand::BlendEquation { mode: FUNC_ADD },
            GlCommand::BlendFuncSeparate {
                src_rgb: SRC_ALPHA,
                dst_rgb: ONE_MINUS_SRC_ALPHA,
                src_alpha: ONE,
                dst_alpha: ONE,
            },
            GlCommand::Enable { cap: BLEND },
        ],
    }
}

/// Setting up the depth test.
pub open spec fn cmds_depth(depth: Option<DepthState>) -> Seq<GlCommand> {
    match depth {
        None => seq![GlCommand::Disable { cap: DEPTH_TEST }],
        Some(state) => seq![
            GlCommand::DepthFunc { func: state.func.spec_gl_depth_func() },
            GlCommand::DepthMask { flag: gl_bool(state.write) },
            GlCommand::Enable { cap: DEPTH_TEST },
        ],
    }
}

/// Setting up the stencil test. A stencil state that does not write keeps
/// the stencil buffer and masks out all writes to it.
pub open spec fn cmds_stencil(stencil: Option<StencilState>) -> Seq<GlCommand> {
    match stencil {
        None => seq![GlCommand::Disable { cap: STENCIL_TEST }],
        Some(state) => seq![
            GlCommand::StencilFunc {
                func: state.func.spec_gl_stencil_func(),
                reference: state.reference as i32,
                mask: state.mask,
            },
            GlCommand::StencilOp {
                sfail: KEEP,
                dpfail: KEEP,
                dppass: if state.write { REPLACE } else { KEEP },
            },
            GlCommand::StencilMask { mask: if state.write { state.mask } else { 0 } },
            GlCommand::Enable { cap: STENCIL_TEST },
        ],
    }
}

/// Setting up all render options.
pub open spec fn cmds_set_render_options(options: RenderOptions) -> Seq<GlCommand> {
    let m = gl_bool(options.color_mask);
    cmds_blend(options.blend) + cmds_depth(options.depth) + cmds_stencil(options.stencil) + seq![
        GlCommand::ColorMask { red: m, green: m, blue: m, alpha: m },
    ]
}

/// Undoing the render options that a pass set up.
pub open spec fn cmds_reset_render_options(options: RenderOptions) -> Seq<GlCommand> {
    (if options.blend != BlendState::Off {
        seq![GlCommand::Disable { cap: BLEND }]
    } else {
        seq![]
    }) + (if options.depth is Some {
        seq![GlCommand::Disable { cap: DEPTH_TEST }]
    } else {
        seq![]
    }) + (if options.stencil is Some {
        seq![GlCommand::StencilMask { mask: u32::MAX }, GlCommand::Disable { cap: STENCIL_TEST }]
    } else {
        seq![]
    }) + seq![GlCommand::ColorMask { red: TRUE, green: TRUE, blue: TRUE, alpha: TRUE }]
}

/// The buffer bits that `ops` clears.
pub open spec fn clear_mask(ops: ClearOps) -> u32 {
    (if ops.color {
        COLOR_BUFFER_BIT
    } else {
        0u32
    }) | (if ops.depth {
        DEPTH_BUFFER_BIT
    } else {
        0u32
    }) | (if ops.stencil is Some {
        STENCIL_BUFFER_BIT
    } else {
        0u32
    })
}

/// Clearing the buffers that `ops` names, each with all its bits writable.
pub open spec fn cmds_clear(ops: ClearOps) -> Seq<GlCommand> {
    (if ops.color {
        seq![
            GlCommand::ColorMask { red: TRUE, green: TRUE, blue: TRUE, alpha: TRUE },
            GlCommand::ClearColor,
        ]
    } else {
        seq![]
    }) + (if ops.depth {
        seq![GlCommand::DepthMask { flag: TRUE }, GlCommand::ClearDepth]
    } else {
        seq![]
    }) + (match ops.stencil {
        Some(s) => seq![
            GlCommand::StencilMask { mask: u32::MAX },
            GlCommand::ClearStencil { s: s as i32 },
        ],
        None => seq![],
    }) + (if ops.spec_has_ops() {
        seq![GlCommand::Clear { mask: clear_mask(ops) }]
    } else {
        seq![]
    })
}

/// Binding the first `n` textures to units `0..n`.
pub open spec fn cmds_bind_textures(textures: Seq<&GLTexture>, n: nat) -> Seq<GlCommand>
    decreases n,
{
    if n == 0 {
        seq![]
    } else {
        cmds_bind_textures(textures, (n - 1) as nat) + cmds_bind_texture(
            textures[n - 1].gl_texture,
            (n - 1) as u32,
        )
    }
}

/// Unbinding texture units `0..n`.
pub open spec fn cmds_unbind_textures(n: nat) -> Seq<GlCommand>
    decreases n,
{
    if n == 0 {
        seq![]
    } else {
        cmds_unbind_textures((n - 1) as nat) + cmds_unbind_texture((n - 1) as u32)
    }
}

/// Setting the uniform at `location` to `data`, whose floating-point value,
/// if it has one, is the caller's value `value_index`.
pub open spec fn cmd_set_uniform(location: i32, data: UniformData, value_index: usize) -> GlCommand {
    match data {
        UniformData::Float => GlCommand::Uniform1f { location, value_index },
        UniformData::Int(value) => GlCommand::Uniform1i { location, value },
        UniformData::Mat2 => GlCommand::UniformMatrix2fv { location, value_index },
        UniformData::Mat4 => GlCommand::UniformMatrix4fv { location, value_index },
        UniformData::Vec2 => GlCommand::Uniform2f { location, value_index },
        UniformData::Vec4 => GlCommand::Uniform4f { location, value_index },
        UniformData::TextureUnit(unit) => GlCommand::Uniform1i { location, value: unit as i32 },
    }
}

/// Setting the first `n` uniforms.
pub open spec fn cmds_set_uniforms(uniforms: Seq<(&GLUniform, UniformData)>, n: nat) -> Seq<
    GlCommand,
>
    decreases n,
{
    if n == 0 {
        seq![]
    } else {
        cmds_set_uniforms(uniforms, (n - 1) as nat) + seq![
            cmd_set_uniform(uniforms[n - 1].0.spec_location(), uniforms[n - 1].1, (n - 1) as usize),
        ]
    }
}

impl GLDevice {
    /// Setting up a whole render state.
    pub open spec fn cmds_set_render_state(&self, state: &RenderState) -> Seq<GlCommand> {
        self.cmds_bind_render_target(state.target) + seq![
            GlCommand::Viewport {
                x: state.viewport.origin.x,
                y: state.viewport.origin.y,
                width: state.viewport.size.x,
                height: state.viewport.size.y,
            },
        ] + (if state.options.clear_ops.spec_has_ops() {
            cmds_clear(state.options.clear_ops)
        } else {
            seq![]
        }) + seq![
            GlCommand::UseProgram { program: state.program.spec_gl_program() },
            GlCommand::BindVertexArray { array: state.vertex_array.gl_vertex_array },
        ] + cmds_bind_textures(state.textures@, state.textures@.len()) + cmds_set_uniforms(
            state.uniforms@,
            state.uniforms@.len(),
        ) + cmds_set_render_options(state.options)
    }

    /// Undoing a render state after drawing with it.
    pub open spec fn cmds_reset_render_state(&self, state: &RenderState) -> Seq<GlCommand> {
        cmds_reset_render_options(state.options) + cmds_unbind_textures(state.textures@.len())
            + seq![GlCommand::UseProgram { program: 0 }, GlCommand::BindVertexArray { array: 0 }]
    }

    /// Setting `uniform` to `data`, whose floating-point value, if it has
    /// one, is the caller's value `value_index`.
    pub fn set_uniform(
        &self,
        uniform: &GLUniform,
        data: &UniformData,
        value_index: usize,
        cmds: &mut Vec<GlCommand>,
    )
        ensures
            final(cmds)@ == old(cmds)@.push(
                cmd_set_uniform(uniform.spec_location(), *data, value_index),
            ),
    {
        let location = uniform.location();
        match *data {
            UniformData::Float => {
                cmds.push(GlCommand::Uniform1f { location, value_index });
            },
            UniformData::Int(value) => {
                cmds.push(GlCommand::Uniform1i { location, value });
            },
            UniformData::Mat2 => {
                cmds.push(GlCommand::UniformMatrix2fv { location, value_index });
            },
            UniformData::Mat4 => {
                cmds.push(GlCommand::UniformMatrix4fv { location, value_index });
            },
            UniformData::Vec2 => {
                cmds.push(GlCommand::Uniform2f { location, value_index });
            },
            UniformData::Vec4 => {
                cmds.push(GlCommand::Uniform4f { location, value_index });
            },
            UniformData::TextureUnit(unit) => {
                cmds.push(GlCommand::Uniform1i { location, value: unit as i32 });
            },
        }
    }

    fn set_blend_state(&self, blend: BlendState, cmds: &mut Vec<GlCommand>)
        ensures
            final(cmds)@ == old(cmds)@ + cmds_blend(blend),
    {
        match blend {
            BlendState::Off => {
                cmds.push(GlCommand::Disable { cap: BLEND });
            },
            BlendState::RGBOneAlphaOne => {
                cmds.push(GlCommand::BlendEquation { mode: FUNC_ADD });
                cmds.push(GlCommand::BlendFunc { sfactor: ONE, dfactor: ONE });
                cmds.push(GlCommand::Enable { cap: BLEND });
            },
            BlendState::RGBOneAlphaOneMinusSrcAlpha => {
                cmds.push(GlCommand::BlendEquation { mode: FUNC_ADD });
                cmds.push(
                    GlCommand::BlendFuncSeparate {
                        src_rgb: ONE,
                        dst_rgb: ONE_MINUS_SRC_ALPHA,
                        src_alpha: ONE,
                        dst_alpha: ONE,
                    },
                );
                cmds.push(GlCommand::Enable { cap: BLEND });
            },
            BlendState::RGBSrcAlphaAlphaOneMinusSrcAlpha => {
                cmds.push(GlCommand::BlendEquation { mode: FUNC_ADD });
                cmds.push(
                    GlCommand::BlendFuncSeparate {
                        src_rgb: SRC_ALPHA,
                        dst_rgb: ONE_MINUS_SRC_ALPHA,
                        src_alpha: ONE,
                        dst_alpha: ONE,
                    },
                );
                cmds.push(GlCommand::Enable { cap: BLEND });
            },
        }
        assert(cmds@ =~= old(cmds)@ + cmds_blend(blend));
    }

    fn set_depth_state(&self, depth: Option<DepthState>, cmds: &mut Vec<GlCommand>)
        ensures
            final(cmds)@ == old(cmds)@ + cmds_depth(depth),
    {
        match depth {
            None => {
                cmds.push(GlCommand::Disable { cap: DEPTH_TEST });
            },
            Some(state) => {
                cmds.push(GlCommand::DepthFunc { func: state.func.to_gl_depth_func() });
                cmds.push(GlCommand::DepthMask { flag: if state.write { TRUE } else { FALSE } });
                cmds.push(GlCommand::Enable { cap: DEPTH_TEST });
            },
        }
        assert(cmds@ =~= old(cmds)@ + cmds_depth(depth));
    }

    fn set_stencil_state(&self, stencil: Option<StencilState>, cmds: &mut Vec<GlCommand>)
        ensures
            final(cmds)@ == old(cmds)@ + cmds_stencil(stencil),
    {
        match stencil {
            None => {
                cmds.push(GlCommand::Disable { cap: STENCIL_TEST });
            },
            Some(state) => {
                cmds.push(
                    GlCommand::StencilFunc {
                        func: state.func.to_gl_stencil_func(),
                        reference: state.reference as i32,
                        mask: state.mask,
                    },
                );
                let (pass_action, write_mask) = if state.write {
                    (REPLACE, state.mask)
                } else {
                    (KEEP, 0)
                };
                cmds.push(GlCommand::StencilOp { sfail: KEEP, dpfail: KEEP, dppass: pass_action });
                cmds.push(GlCommand::StencilMask { mask: write_mask });
                cmds.push(GlCommand::Enable { cap: STENCIL_TEST });
            },
        }
        assert(cmds@ =~= old(cmds)@ + cmds_stencil(stencil));
    }

    pub fn set_render_options(&self, render_options: &RenderOptions, cmds: &mut Vec<GlCommand>)
        ensures
            final(cmds)@ == old(cmds)@ + cmds_set_render_options(*render_options),
    {
        self.set_blend_state(render_options.blend, cmds);
        self.set_depth_state(render_options.depth, cmds);
        self.set_stencil_state(render_options.stencil, cmds);
        let color_mask = if render_options.color_mask { TRUE } else { FALSE };
        cmds.push(
            GlCommand::ColorMask { red: color_mask, green: color_mask, blue: color_mask, alpha: color_mask },
        );
        assert(cmds@ =~= old(cmds)@ + cmds_set_render_options(*render_options));
    }

    pub fn reset_render_options(&self, render_options: &RenderOptions, cmds: &mut Vec<GlCommand>)
        ensures
            final(cmds)@ == old(cmds)@ + cmds_reset_render_options(*render_options),
    {
        match render_options.blend {
            BlendState::Off => {},
            BlendState::RGBOneAlphaOneMinusSrcAlpha
            | BlendState::RGBOneAlphaOne
            | BlendState::RGBSrcAlphaAlphaOneMinusSrcAlpha => {
                cmds.push(GlCommand::Disable { cap: BLEND });
            },
        }
        let ghost a = cmds@;
        if render_options.depth.is_some() {
            cmds.push(GlCommand::Disable { cap: DEPTH_TEST });
        }
        let ghost b = cmds@;
        if render_options.stencil.is_some() {
            cmds.push(GlCommand::StencilMask { mask: u32::MAX });
            cmds.push(GlCommand::Disable { cap: STENCIL_TEST });
        }
        let ghost c = cmds@;
        cmds.push(GlCommand::ColorMask { red: TRUE, green: TRUE, blue: TRUE, alpha: TRUE });
        proof {
            let p1: Seq<GlCommand> = if render_options.blend != BlendState::Off {
                seq![GlCommand::Disable { cap: BLEND }]
            } else {
                seq![]
            };
            let p2: Seq<GlCommand> = if render_options.depth is Some {
                seq![GlCommand::Disable { cap: DEPTH_TEST }]
            } else {
                seq![]
            };
            let p3: Seq<GlCommand> = if render_options.stencil is Some {
                seq![GlCommand::StencilMask { mask: u32::MAX }, GlCommand::Disable { cap: STENCIL_TEST }]
            } else {
                seq![]
            };
            assert(a =~= old(cmds)@ + p1);
            assert(b =~= a + p2);
            assert(c =~= b + p3);
            assert(cmds@ =~= old(cmds)@ + cmds_reset_render_options(*render_options));
        }
    }

    pub fn clear(&self, ops: &ClearOps, cmds: &mut Vec<GlCommand>)
        ensures
            final(cmds)@ == old(cmds)@ + cmds_clear(*ops),
    {
        let mut flags: u32 = 0;
        if ops.color {
            cmds.push(GlCommand::ColorMask { red: TRUE, green: TRUE, blue: TRUE, alpha: TRUE });
            cmds.push(GlCommand::ClearColor);
            flags = flags | COLOR_BUFFER_BIT;
        }
        let ghost a = cmds@;
        let ghost fa = flags;
        if ops.depth {
            cmds.push(GlCommand::DepthMask { flag: TRUE });
            cmds.push(GlCommand::ClearDepth);
            flags = flags | DEPTH_BUFFER_BIT;
        }
        let ghost b = cmds@;
        let ghost fb = flags;
        if let Some(stencil) = ops.stencil {
            cmds.push(GlCommand::StencilMask { mask: u32::MAX });
            cmds.push(GlCommand::ClearStencil { s: stencil as i32 });
            flags = flags | STENCIL_BUFFER_BIT;
        }
        let ghost c = cmds@;
        proof {
            let cb: u32 = if ops.color { COLOR_BUFFER_BIT } else { 0u32 };
            let db: u32 = if ops.depth { DEPTH_BUFFER_BIT } else { 0u32 };
            let sb: u32 = if ops.stencil is Some { STENCIL_BUFFER_BIT } else { 0u32 };
            lemma_clear_bits(cb, db, sb);
            assert(fa == cb);
            assert(fb == cb | db);
            assert(flags == clear_mask(*ops));
            assert(flags != 0 <==> ops.spec_has_ops());
        }
        if flags != 0 {
            cmds.push(GlCommand::Clear { mask: flags });
        }
        proof {
            let p1: Seq<GlCommand> = if ops.color {
                seq![
                    GlCommand::ColorMask { red: TRUE, green: TRUE, blue: TRUE, alpha: TRUE },
                    GlCommand::ClearColor,
                ]
            } else {
                seq![]
            };
            let p2: Seq<GlCommand> = if ops.depth {
                seq![GlCommand::DepthMask { flag: TRUE }, GlCommand::ClearDepth]
            } else {
                seq![]
            };
            let p3: Seq<GlCommand> = match ops.stencil {
                Some(s) => seq![
                    GlCommand::StencilMask { mask: u32::MAX },
                    GlCommand::ClearStencil { s: s as i32 },
                ],
                None => seq![],
            };
            assert(a =~= old(cmds)@ + p1);
            assert(b =~= a + p2);
            assert(c =~= b + p3);
            assert(cmds@ =~= old(cmds)@ + cmds_clear(*ops));
        }
    }

    pub fn set_render_state(&self, render_state: &RenderState, cmds: &mut Vec<GlCommand>)
        requires
            render_state.wf(),
        ensures
            final(cmds)@ == old(cmds)@ + self.cmds_set_render_state(render_state),
    {
        self.bind_render_target(render_state.target, cmds);

        let origin = render_state.viewport.origin();
        let size = render_state.viewport.size();
        cmds.push(GlCommand::Viewport { x: origin.x(), y: origin.y(), width: size.x(), height: size.y() });

        let ghost before_clear = cmds@;
        if render_state.options.clear_ops.has_ops() {
            self.clear(&render_state.options.clear_ops, cmds);
        }
        let ghost after_clear = cmds@;

        self.use_program(render_state.program, cmds);
        self.bind_vertex_array(render_state.vertex_array, cmds);

        let ghost before_textures = cmds@;
        let textures = render_state.textures;
        let mut texture_unit: usize = 0;
        while texture_unit < textures.len()
            invariant
                textures@ == render_state.textures@,
                textures@.len() + TEXTURE0 <= u32::MAX,
                texture_unit <= textures@.len(),
                cmds@ == before_textures + cmds_bind_textures(textures@, texture_unit as nat),
            decreases textures@.len() - texture_unit,
        {
            self.bind_texture(textures[texture_unit], texture_unit as u32, cmds);
            proof {
                assert(cmds_bind_textures(textures@, (texture_unit + 1) as nat) == cmds_bind_textures(
                    textures@,
                    texture_unit as nat,
                ) + cmds_bind_texture(textures@[texture_unit as int].gl_texture, texture_unit as u32));
                assert(cmds@ =~= before_textures + cmds_bind_textures(textures@, (texture_unit + 1) as nat));
            }
            texture_unit += 1;
        }

        let ghost before_uniforms = cmds@;
        let uniforms = render_state.uniforms;
        let mut index: usize = 0;
        while index < uniforms.len()
            invariant
                uniforms@ == render_state.uniforms@,
                index <= uniforms@.len(),
                cmds@ == before_uniforms + cmds_set_uniforms(uniforms@, index as nat),
            decreases uniforms@.len() - index,
        {
            let (uniform, data) = uniforms[index];
            self.set_uniform(uniform, &data, index, cmds);
            proof {
                assert(cmds@ =~= before_uniforms + cmds_set_uniforms(uniforms@, (index + 1) as nat));
            }
            index += 1;
        }

        let ghost before_options = cmds@;
        self.set_render_options(&render_state.options, cmds);
        proof {
            let clear_part: Seq<GlCommand> = if render_state.options.clear_ops.spec_has_ops() {
                cmds_clear(render_state.options.clear_ops)
            } else {
                seq![]
            };
            assert(after_clear =~= before_clear + clear_part);
            assert(cmds@ =~= old(cmds)@ + self.cmds_set_render_state(render_state));
        }
    }

    pub fn reset_render_state(&self, render_state: &RenderState, cmds: &mut Vec<GlCommand>)
        requires
            render_state.wf(),
        ensures
            final(cmds)@ == old(cmds)@ + self.cmds_reset_render_state(render_state),
    {
        self.reset_render_options(&render_state.options, cmds);
        let ghost before_textures = cmds@;
        let count = render_state.textures.len() as u32;
        let mut texture_unit: u32 = 0;
        while texture_unit < count
            invariant
                count == render_state.textures@.len(),
                count + TEXTURE0 <= u32::MAX,
                texture_unit <= count,
                cmds@ == before_textures + cmds_unbind_textures(texture_unit as nat),
            decreases count - texture_unit,
        {
            self.unbind_texture(texture_unit, cmds);
            proof {
                assert(cmds@ =~= before_textures + cmds_unbind_textures((texture_unit + 1) as nat));
            }
            texture_unit += 1;
        }
        self.unuse_program(cmds);
        self.unbind_vertex_array(cmds);
        assert(cmds@ =~= old(cmds)@ + self.cmds_reset_render_state(render_state));
    }

    /// Drawing `index_count` vertices as the render state's primitive.
    pub open spec fn cmds_draw_arrays(&self, index_count: u32, state: &RenderState) -> Seq<GlCommand> {
        self.cmds_set_render_state(state) + seq![
            GlCommand::DrawArrays {
                mode: state.primitive.spec_gl_primitive(),
                first: 0,
                count: index_count as i32,
            },
        ] + self.cmds_reset_render_state(state)
    }

    /// Drawing `index_count` indexed vertices as the render state's
    /// primitive.
    pub open spec fn cmds_draw_elements(&self, index_count: u32, state: &RenderState) -> Seq<
        GlCommand,
    > {
        self.cmds_set_render_state(state) + seq![
            GlCommand::DrawElements {
                mode: state.primitive.spec_gl_primitive(),
                count: index_count as i32,
                ty: UNSIGNED_INT,
            },
        ] + self.cmds_reset_render_state(state)
    }

    /// Drawing `instance_count` instances of `index_count` indexed vertices.
    pub open spec fn cmds_draw_elements_instanced(
        &self,
        index_count: u32,
        instance_count: u32,
        state: &RenderState,
    ) -> Seq<GlCommand> {
        self.cmds_set_render_state(state) + seq![
            GlCommand::DrawElementsInstanced {
                mode: state.primitive.spec_gl_primitive(),
                count: index_count as i32,
                ty: UNSIGNED_INT,
                instance_count: instance_count as i32,
            },
        ] + self.cmds_reset_render_state(state)
    }

    pub fn draw_arrays(&self, index_count: u32, render_state: &RenderState, cmds: &mut Vec<GlCommand>)
        requires
            render_state.wf(),
        ensures
            final(cmds)@ == old(cmds)@ + self.cmds_draw_arrays(index_count, render_state),
    {
        self.set_render_state(render_state, cmds);
        cmds.push(
            GlCommand::DrawArrays {
                mode: render_state.primitive.to_gl_primitive(),
                first: 0,
                count: index_count as i32,
            },
        );
        self.reset_render_state(render_state, cmds);
        assert(cmds@ =~= old(cmds)@ + self.cmds_draw_arrays(index_count, render_state));
    }

    pub fn draw_elements(&self, index_count: u32, render_state: &RenderState, cmds: &mut Vec<GlCommand>)
        requires
            render_state.wf(),
        ensures
            final(cmds)@ == old(cmds)@ + self.cmds_draw_elements(index_count, render_state),
    {
        self.set_render_state(render_state, cmds);
        cmds.push(
            GlCommand::DrawElements {
                mode: render_state.primitive.to_gl_primitive(),
                count: index_count as i32,
                ty: UNSIGNED_INT,
            },
        );
        self.reset_render_state(render_state, cmds);
        assert(cmds@ =~= old(cmds)@ + self.cmds_draw_elements(index_count, render_state));
    }

    pub fn draw_elements_instanced(
        &self,
        index_count: u32,
        instance_count: u32,
        render_state: &RenderState,
        cmds: &mut Vec<GlCommand>,
    )
        requires
            render_state.wf(),
        ensures
            final(cmds)@ == old(cmds)@ + self.cmds_draw_elements_instanced(
                index_count,
                instance_count,
                render_state,
            ),
    {
        self.set_render_state(render_state, cmds);
        cmds.push(
            GlCommand::DrawElementsInstanced {
                mode: render_state.primitive.to_gl_primitive(),
                count: index_count as i32,
                ty: UNSIGNED_INT,
                instance_count: instance_count as i32,
            },
        );
        self.reset_render_state(render_state, cmds);
        assert(cmds@ =~= old(cmds)@ + self.cmds_draw_elements_instanced(
            index_count,
            instance_count,
            render_state,
        ));
    }
}

/// How the three clear bits combine: an absent buffer adds nothing, and the
/// mask is zero exactly when no buffer is cleared.
proof fn lemma_clear_bits(cb: u32, db: u32, sb: u32)
    requires
        cb == 0 || cb == 0x4000,
        db == 0 || db == 0x0100,
        sb == 0 || sb == 0x0400,
    ensures
        0u32 | cb == cb,
        cb | 0u32 == cb,
        (cb | db) | 0u32 == cb | db,
        ((cb | db) | sb) != 0 <==> (cb != 0 || db != 0 || sb != 0),
{
    assert(0u32 | cb == cb) by (bit_vector);
    assert(cb | 0u32 == cb) by (bit_vector);
    assert((cb | db) | 0u32 == cb | db) by (bit_vector);
    assert(((cb | db) | sb) != 0 <==> (cb != 0 || db != 0 || sb != 0)) by (bit_vector)
        requires
            cb == 0 || cb == 0x4000,
            db == 0 || db == 0x0100,
            sb == 0 || sb == 0x0400,
    ;
}

} // verus!
