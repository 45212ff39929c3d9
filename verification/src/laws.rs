//! What the device's plans achieve, stated over the commands they plan and
//! the OpenGL state in which each of those commands runs.

use vstd::prelude::*;
use crate::command::GlCommand;
use crate::device::{
    GLBuffer, GLDevice, GLTexture, GLUniform, GLVertexArray, GLVertexAttr, RenderTarget,
    cmds_bind_texture, cmds_set_texture_parameters,
};
use crate::glenum::{
    TRUE, FALSE, TEXTURE0, TEXTURE_2D, ARRAY_BUFFER, ELEMENT_ARRAY_BUFFER, BLEND, DEPTH_TEST,
    STENCIL_TEST, FUNC_ADD, ONE, SRC_ALPHA, ONE_MINUS_SRC_ALPHA, LESS, ALWAYS, EQUAL, KEEP,
    REPLACE, TRIANGLES, LINES, UNSIGNED_INT, TEXTURE_MIN_FILTER, TEXTURE_MAG_FILTER,
    TEXTURE_WRAP_S, TEXTURE_WRAP_T, LINEAR, CLAMP_TO_EDGE, STATIC_DRAW, DYNAMIC_DRAW, RED, RGBA,
    UNSIGNED_BYTE, HALF_FLOAT,
};
use crate::render::{
    RenderState, clear_mask, cmds_clear, cmds_blend, cmds_depth, cmds_stencil,
    cmds_set_render_options, cmds_bind_textures, cmds_set_uniforms,
};
use crate::state::{GlState, run_commands, lemma_run_append, lemma_run_push};
use crate::types::{
    BlendState, BufferTarget, BufferUploadMode, ClearOps, DepthFunc, DepthState, RenderOptions, StencilFunc,
    StencilState, TextureFormat, RectI, UniformData, Vector2I, VertexAttrDescriptor,
};

verus! {

/// `c` is the command at position `k` of `cmds`.
pub open spec fn planned_at(cmds: Seq<GlCommand>, k: int, c: GlCommand) -> bool {
    0 <= k < cmds.len() && cmds[k] == c
}

/// The state in which the command at position `k` of `cmds` runs, when
/// `cmds` start in `s`.
pub open spec fn state_before(s: GlState, cmds: Seq<GlCommand>, k: int) -> GlState {
    run_commands(s, cmds.take(k))
}

/// The framebuffer that rendering into `target` draws into.
pub open spec fn target_framebuffer(device: &GLDevice, target: &RenderTarget) -> u32 {
    match target {
        RenderTarget::Default => device.spec_default_framebuffer(),
        RenderTarget::Framebuffer(framebuffer) => framebuffer.gl_framebuffer,
    }
}

/// A `glClear` mask that holds the stencil bit exactly when `ops` gives a
/// stencil value, the depth bit exactly when `ops` clears depth and the
/// colour bit exactly when `ops` clears colour.
pub open spec fn mask_names(mask: u32, ops: ClearOps) -> bool {
    &&& (mask & 0x0400u32 != 0) == (ops.stencil is Some)
    &&& (mask & 0x0100u32 != 0) == ops.depth
    &&& (mask & 0x4000u32 != 0) == ops.color
}

/// Each buffer that `ops` names is wholly writable in `t`: every stencil
/// bit, with the stencil clear value that `ops` gives; the depth buffer;
/// every colour channel.
pub open spec fn ready_to_clear(t: GlState, ops: ClearOps) -> bool {
    &&& (ops.stencil matches Some(v) ==> t.stencil_write_mask == u32::MAX && t.clear_stencil
        == v as i32)
    &&& (ops.depth ==> t.depth_mask == TRUE)
    &&& (ops.color ==> t.color_mask == (TRUE, TRUE, TRUE, TRUE))
}

/// The bits of a clear mask: each buffer's bit is there exactly when the
/// buffer is cleared.
proof fn lemma_clear_mask_names(ops: ClearOps)
    ensures
        mask_names(clear_mask(ops), ops),
{
    let cb: u32 = if ops.color { 0x4000u32 } else { 0u32 };
    let db: u32 = if ops.depth { 0x0100u32 } else { 0u32 };
    let sb: u32 = if ops.stencil is Some { 0x0400u32 } else { 0u32 };
    assert(clear_mask(ops) == (cb | db) | sb);
    assert({
        let m = (cb | db) | sb;
        &&& (m & 0x0400u32 != 0) == (sb != 0)
        &&& (m & 0x0100u32 != 0) == (db != 0)
        &&& (m & 0x4000u32 != 0) == (cb != 0)
    }) by (bit_vector)
        requires
            cb == 0 || cb == 0x4000,
            db == 0 || db == 0x0100,
            sb == 0 || sb == 0x0400,
    ;
}

/// A render pass whose clear ops name any buffer clears exactly those
/// buffers, into its own render target, before it draws: the set-up of its
/// render state holds a `glClear` whose mask names the buffers that the
/// clear ops name and no other, and when that command runs, the target's
/// framebuffer is bound and each named buffer is wholly writable, the
/// stencil buffer with the clear value given.
pub proof fn law_render_state_clears_named_buffers(
    device: &GLDevice,
    state: &RenderState,
    s: GlState,
)
    requires
        state.options.clear_ops.color || state.options.clear_ops.depth
            || state.options.clear_ops.stencil is Some,
    ensures
        exists|k: int, mask: u32|
            {
                &&& #[trigger] planned_at(
                    device.cmds_set_render_state(state),
                    k,
                    GlCommand::Clear { mask },
                )
                &&& mask_names(mask, state.options.clear_ops)
                &&& state_before(s, device.cmds_set_render_state(state), k).framebuffer
                    == target_framebuffer(device, state.target)
                &&& ready_to_clear(
                    state_before(s, device.cmds_set_render_state(state), k),
                    state.options.clear_ops,
                )
            },
{
    let ops = state.options.clear_ops;
    let set = device.cmds_set_render_state(state);
    let a = device.cmds_bind_render_target(state.target) + seq![
        GlCommand::Viewport {
            x: state.viewport.origin.x,
            y: state.viewport.origin.y,
            width: state.viewport.size.x,
            height: state.viewport.size.y,
        },
    ];
    let p1: Seq<GlCommand> = if ops.color {
        seq![GlCommand::ColorMask { red: TRUE, green: TRUE, blue: TRUE, alpha: TRUE }, GlCommand::ClearColor]
    } else {
        seq![]
    };
    let p2: Seq<GlCommand> = if ops.depth {
        seq![GlCommand::DepthMask { flag: TRUE }, GlCommand::ClearDepth]
    } else {
        seq![]
    };
    let p3: Seq<GlCommand> = match ops.stencil {
        Some(v) => seq![GlCommand::StencilMask { mask: u32::MAX }, GlCommand::ClearStencil { s: v as i32 }],
        None => seq![],
    };
    let clear = GlCommand::Clear { mask: clear_mask(ops) };
    assert(cmds_clear(ops) == p1 + p2 + p3 + seq![clear]);
    let rest = set.subrange((a + cmds_clear(ops)).len() as int, set.len() as int);
    assert(set =~= a + p1 + p2 + p3 + seq![clear] + rest);
    let pre = a + p1 + p2 + p3;
    let k = pre.len() as int;
    assert(set.take(k) =~= pre);
    assert(planned_at(set, k, clear));

    reveal_with_fuel(run_commands, 3);
    lemma_run_append(s, a, p1);
    lemma_run_append(s, a + p1, p2);
    lemma_run_append(s, a + p1 + p2, p3);
    let t0 = run_commands(s, a);
    assert(t0.framebuffer == target_framebuffer(device, state.target));
    lemma_clear_mask_names(ops);
}

/// `c` is the command at position `k` of `cmds` and runs while the vertex
/// array `vertex_array` is bound.
pub open spec fn planned_in_vertex_array(
    s: GlState,
    cmds: Seq<GlCommand>,
    k: int,
    c: GlCommand,
    vertex_array: u32,
) -> bool {
    planned_at(cmds, k, c) && state_before(s, cmds, k).vertex_array == vertex_array
}

/// Configuring a vertex attribute does all its work with the vertex array
/// bound: it points the attribute at its data as its class says (integer
/// data through `glVertexAttribIPointer`; float data through
/// `glVertexAttribPointer`, normalized exactly for `FloatNorm`) with the
/// descriptor's size, type, stride and offset; it gives the attribute the
/// descriptor's divisor, whatever its class; and it enables the attribute.
pub proof fn law_configure_vertex_attr(
    vertex_array: &GLVertexArray,
    attr: &GLVertexAttr,
    descriptor: VertexAttrDescriptor,
    s: GlState,
)
    ensures
        exists|k: int|
            #[trigger] planned_in_vertex_array(
                s,
                GLDevice::cmds_configure_vertex_attr(vertex_array, attr, descriptor),
                k,
                GlCommand::VertexAttribDivisor {
                    index: attr.spec_attr(),
                    divisor: descriptor.divisor,
                },
                vertex_array.gl_vertex_array,
            ),
        exists|k: int|
            #[trigger] planned_in_vertex_array(
                s,
                GLDevice::cmds_configure_vertex_attr(vertex_array, attr, descriptor),
                k,
                GlCommand::EnableVertexAttribArray { index: attr.spec_attr() },
                vertex_array.gl_vertex_array,
            ),
        descriptor.class is Int ==> exists|k: int|
            #[trigger] planned_in_vertex_array(
                s,
                GLDevice::cmds_configure_vertex_attr(vertex_array, attr, descriptor),
                k,
                GlCommand::VertexAttribIPointer {
                    index: attr.spec_attr(),
                    size: descriptor.size as i32,
                    ty: descriptor.attr_type.spec_gl_type(),
                    stride: descriptor.stride as i32,
                    offset: descriptor.offset,
                },
                vertex_array.gl_vertex_array,
            ),
        descriptor.class is Float ==> exists|k: int|
            #[trigger] planned_in_vertex_array(
                s,
                GLDevice::cmds_configure_vertex_attr(vertex_array, attr, descriptor),
                k,
                GlCommand::VertexAttribPointer {
                    index: attr.spec_attr(),
                    size: descriptor.size as i32,
                    ty: descriptor.attr_type.spec_gl_type(),
                    normalized: FALSE,
                    stride: descriptor.stride as i32,
                    offset: descriptor.offset,
                },
                vertex_array.gl_vertex_array,
            ),
        descriptor.class is FloatNorm ==> exists|k: int|
            #[trigger] planned_in_vertex_array(
                s,
                GLDevice::cmds_configure_vertex_attr(vertex_array, attr, descriptor),
                k,
                GlCommand::VertexAttribPointer {
                    index: attr.spec_attr(),
                    size: descriptor.size as i32,
                    ty: descriptor.attr_type.spec_gl_type(),
                    normalized: TRUE,
                    stride: descriptor.stride as i32,
                    offset: descriptor.offset,
                },
                vertex_array.gl_vertex_array,
            ),
{
    let cmds = GLDevice::cmds_configure_vertex_attr(vertex_array, attr, descriptor);
    let bind = seq![GlCommand::BindVertexArray { array: vertex_array.gl_vertex_array }];
    reveal_with_fuel(run_commands, 4);
    assert(cmds.take(1) =~= bind);
    assert(cmds.take(2) =~= bind + seq![cmds[1]]);
    assert(cmds.take(3) =~= bind + seq![cmds[1], cmds[2]]);
    assert(planned_in_vertex_array(s, cmds, 1, cmds[1], vertex_array.gl_vertex_array));
    assert(planned_in_vertex_array(s, cmds, 2, cmds[2], vertex_array.gl_vertex_array));
    assert(planned_in_vertex_array(s, cmds, 3, cmds[3], vertex_array.gl_vertex_array)) by {
        assert(cmds.take(3) =~= bind + seq![cmds[1], cmds[2]]);
    }
}

/// Uploading to a texture gives the texture, bound on texture unit 0, a
/// level-0 image of exactly the size passed in, `size.x` texels wide and
/// `size.y` high, in the formats passed in, with or without data.
pub proof fn law_upload_image_size(
    texture: u32,
    internal_format: i32,
    size: Vector2I,
    format: u32,
    ty: u32,
    with_data: bool,
    s: GlState,
)
    ensures
        exists|k: int|
            {
                &&& #[trigger] planned_at(
                    GLDevice::cmds_upload(texture, internal_format, size, format, ty, with_data),
                    k,
                    GlCommand::TexImage2D {
                        target: TEXTURE_2D,
                        level: 0,
                        internal_format,
                        width: size.x,
                        height: size.y,
                        border: 0,
                        format,
                        ty,
                        with_data,
                    },
                )
                &&& state_before(
                    s,
                    GLDevice::cmds_upload(texture, internal_format, size, format, ty, with_data),
                    k,
                ).active_texture == TEXTURE0
                &&& state_before(
                    s,
                    GLDevice::cmds_upload(texture, internal_format, size, format, ty, with_data),
                    k,
                ).texture_2d.dom().contains(TEXTURE0)
                &&& state_before(
                    s,
                    GLDevice::cmds_upload(texture, internal_format, size, format, ty, with_data),
                    k,
                ).texture_2d[TEXTURE0] == texture
            },
{
    let cmds = GLDevice::cmds_upload(texture, internal_format, size, format, ty, with_data);
    reveal_with_fuel(run_commands, 3);
    assert(cmds.take(2) =~= seq![cmds[0], cmds[1]]);
    assert(planned_at(cmds, 2, cmds[2]));
}

/// Binding a buffer within a vertex array binds it, while that vertex
/// array is bound, to `ARRAY_BUFFER` as a vertex buffer and to
/// `ELEMENT_ARRAY_BUFFER` as an index buffer.
pub proof fn law_bind_buffer_target(
    vertex_array: &GLVertexArray,
    buffer: &GLBuffer,
    target: BufferTarget,
    s: GlState,
)
    ensures
        target is Vertex ==> exists|k: int|
            #[trigger] planned_in_vertex_array(
                s,
                GLDevice::cmds_bind_buffer(vertex_array, buffer, target),
                k,
                GlCommand::BindBuffer { target: ARRAY_BUFFER, buffer: buffer.gl_buffer },
                vertex_array.gl_vertex_array,
            ),
        target is Index ==> exists|k: int|
            #[trigger] planned_in_vertex_array(
                s,
                GLDevice::cmds_bind_buffer(vertex_array, buffer, target),
                k,
                GlCommand::BindBuffer { target: ELEMENT_ARRAY_BUFFER, buffer: buffer.gl_buffer },
                vertex_array.gl_vertex_array,
            ),
{
    let cmds = GLDevice::cmds_bind_buffer(vertex_array, buffer, target);
    reveal_with_fuel(run_commands, 2);
    assert(cmds.take(1) =~= seq![cmds[0]]);
    assert(planned_in_vertex_array(s, cmds, 1, cmds[1], vertex_array.gl_vertex_array));
}

/// Blending as `blend` asks for: off, or on with additive blending and the
/// factors that the blend state names (source and destination colour,
/// source and destination alpha).
pub open spec fn blend_in_effect(t: GlState, blend: BlendState) -> bool {
    match blend {
        BlendState::Off => !t.enabled.contains(BLEND),
        BlendState::RGBOneAlphaOne => t.enabled.contains(BLEND) && t.blend_equation == FUNC_ADD
            && t.blend_func == (ONE, ONE, ONE, ONE),
        BlendState::RGBOneAlphaOneMinusSrcAlpha => t.enabled.contains(BLEND) && t.blend_equation
            == FUNC_ADD && t.blend_func == (ONE, ONE_MINUS_SRC_ALPHA, ONE, ONE),
        BlendState::RGBSrcAlphaAlphaOneMinusSrcAlpha => t.enabled.contains(BLEND)
            && t.blend_equation == FUNC_ADD && t.blend_func == (
            SRC_ALPHA,
            ONE_MINUS_SRC_ALPHA,
            ONE,
            ONE,
        ),
    }
}

/// The depth test as `depth` asks for: off, or on with its comparison,
/// writing depth exactly when the depth state writes.
pub open spec fn depth_in_effect(t: GlState, depth: Option<DepthState>) -> bool {
    match depth {
        None => !t.enabled.contains(DEPTH_TEST),
        Some(d) => {
            &&& t.enabled.contains(DEPTH_TEST)
            &&& t.depth_func == (match d.func {
                DepthFunc::Less => LESS,
                DepthFunc::Always => ALWAYS,
            })
            &&& t.depth_mask == (if d.write {
                TRUE
            } else {
                FALSE
            })
        },
    }
}

/// The stencil test as `stencil` asks for: off, or on with its comparison,
/// reference value and mask; a stencil state that writes replaces the
/// stencil value through its mask on a pass, one that does not write keeps
/// the stencil buffer and writes through no bit.
pub open spec fn stencil_in_effect(t: GlState, stencil: Option<StencilState>) -> bool {
    match stencil {
        None => !t.enabled.contains(STENCIL_TEST),
        Some(st) => {
            &&& t.enabled.contains(STENCIL_TEST)
            &&& t.stencil_func == ((match st.func {
                StencilFunc::Always => ALWAYS,
                StencilFunc::Equal => EQUAL,
            }), st.reference as i32, st.mask)
            &&& t.stencil_op == (KEEP, KEEP, if st.write {
                REPLACE
            } else {
                KEEP
            })
            &&& t.stencil_write_mask == (if st.write {
                st.mask
            } else {
                0
            })
        },
    }
}

/// `t` differs from `s` at most in what render options set: enabled
/// capabilities, write masks, depth function, blend equation and factors,
/// stencil function and actions.
pub open spec fn same_outside_options(t: GlState, s: GlState) -> bool {
    t == GlState {
        enabled: t.enabled,
        color_mask: t.color_mask,
        depth_mask: t.depth_mask,
        depth_func: t.depth_func,
        stencil_write_mask: t.stencil_write_mask,
        blend_equation: t.blend_equation,
        blend_func: t.blend_func,
        stencil_func: t.stencil_func,
        stencil_op: t.stencil_op,
        ..s
    }
}

/// `t` differs from `s` at most in the capability `cap` and in what render
/// options set.
pub open spec fn options_frame(t: GlState, s: GlState, cap: u32) -> bool {
    &&& same_outside_options(t, s)
    &&& forall|c: u32| c != cap ==> #[trigger] t.enabled.contains(c) == s.enabled.contains(c)
}

proof fn lemma_blend_part(s: GlState, blend: BlendState)
    ensures
        blend_in_effect(run_commands(s, cmds_blend(blend)), blend),
        options_frame(run_commands(s, cmds_blend(blend)), s, BLEND),
        run_commands(s, cmds_blend(blend)).color_mask == s.color_mask,
        run_commands(s, cmds_blend(blend)).depth_mask == s.depth_mask,
        run_commands(s, cmds_blend(blend)).depth_func == s.depth_func,
        run_commands(s, cmds_blend(blend)).stencil_write_mask == s.stencil_write_mask,
        run_commands(s, cmds_blend(blend)).stencil_func == s.stencil_func,
        run_commands(s, cmds_blend(blend)).stencil_op == s.stencil_op,
{
    reveal_with_fuel(run_commands, 4);
}

proof fn lemma_depth_part(s: GlState, depth: Option<DepthState>)
    ensures
        depth_in_effect(run_commands(s, cmds_depth(depth)), depth),
        options_frame(run_commands(s, cmds_depth(depth)), s, DEPTH_TEST),
        run_commands(s, cmds_depth(depth)).color_mask == s.color_mask,
        run_commands(s, cmds_depth(depth)).blend_equation == s.blend_equation,
        run_commands(s, cmds_depth(depth)).blend_func == s.blend_func,
        run_commands(s, cmds_depth(depth)).stencil_write_mask == s.stencil_write_mask,
        run_commands(s, cmds_depth(depth)).stencil_func == s.stencil_func,
        run_commands(s, cmds_depth(depth)).stencil_op == s.stencil_op,
{
    reveal_with_fuel(run_commands, 4);
}

proof fn lemma_stencil_part(s: GlState, stencil: Option<StencilState>)
    ensures
        stencil_in_effect(run_commands(s, cmds_stencil(stencil)), stencil),
        options_frame(run_commands(s, cmds_stencil(stencil)), s, STENCIL_TEST),
        run_commands(s, cmds_stencil(stencil)).color_mask == s.color_mask,
        run_commands(s, cmds_stencil(stencil)).blend_equation == s.blend_equation,
        run_commands(s, cmds_stencil(stencil)).blend_func == s.blend_func,
        run_commands(s, cmds_stencil(stencil)).depth_mask == s.depth_mask,
        run_commands(s, cmds_stencil(stencil)).depth_func == s.depth_func,
{
    reveal_with_fuel(run_commands, 5);
}

/// Setting up render options puts every one of them in effect: blending
/// with the equation and factors its blend state names, the depth test with
/// its comparison and write mask, the stencil test with its comparison,
/// actions and write mask, and the colour channels all writable or all
/// masked. Nothing else of the state changes.
pub proof fn law_render_options_in_effect(s: GlState, options: RenderOptions)
    ensures
        blend_in_effect(run_commands(s, cmds_set_render_options(options)), options.blend),
        depth_in_effect(run_commands(s, cmds_set_render_options(options)), options.depth),
        stencil_in_effect(run_commands(s, cmds_set_render_options(options)), options.stencil),
        run_commands(s, cmds_set_render_options(options)).color_mask == (if options.color_mask {
            (TRUE, TRUE, TRUE, TRUE)
        } else {
            (FALSE, FALSE, FALSE, FALSE)
        }),
        same_outside_options(run_commands(s, cmds_set_render_options(options)), s),
{
    let m = if options.color_mask { TRUE } else { FALSE };
    let b = cmds_blend(options.blend);
    let d = cmds_depth(options.depth);
    let st = cmds_stencil(options.stencil);
    let c = GlCommand::ColorMask { red: m, green: m, blue: m, alpha: m };
    lemma_run_append(s, b, d);
    lemma_run_append(s, b + d, st);
    lemma_run_push(s, b + d + st, c);
    assert(cmds_set_render_options(options) == (b + d + st).push(c));
    let s1 = run_commands(s, b);
    let s2 = run_commands(s1, d);
    let s3 = run_commands(s2, st);
    lemma_blend_part(s, options.blend);
    lemma_depth_part(s1, options.depth);
    lemma_stencil_part(s2, options.stencil);
    assert(s2.enabled.contains(BLEND) == s1.enabled.contains(BLEND));
    assert(s3.enabled.contains(BLEND) == s2.enabled.contains(BLEND));
    assert(s3.enabled.contains(DEPTH_TEST) == s2.enabled.contains(DEPTH_TEST));
}

/// The 2D texture `texture` is bound on texture unit `unit` in `t`.
pub open spec fn texture_bound(t: GlState, unit: int, texture: u32) -> bool {
    t.texture_2d.dom().contains((TEXTURE0 + unit) as u32) && t.texture_2d[(TEXTURE0 + unit) as u32]
        == texture
}

/// `t` differs from `s` at most in the active texture unit and the 2D
/// texture bindings.
pub open spec fn same_outside_textures(t: GlState, s: GlState) -> bool {
    t == GlState { active_texture: t.active_texture, texture_2d: t.texture_2d, ..s }
}

/// `t` differs from `s` at most in the write masks and the stencil clear
/// value.
pub open spec fn same_outside_masks(t: GlState, s: GlState) -> bool {
    t == GlState {
        color_mask: t.color_mask,
        depth_mask: t.depth_mask,
        stencil_write_mask: t.stencil_write_mask,
        clear_stencil: t.clear_stencil,
        ..s
    }
}

/// Everything that a render state names is in effect in `t`: its render
/// target's framebuffer is bound, its viewport set, its program in use, its
/// vertex array bound, its texture `i` bound on texture unit `i`, and its
/// render options in effect.
pub open spec fn render_state_in_effect(t: GlState, device: &GLDevice, state: &RenderState) -> bool {
    &&& t.framebuffer == target_framebuffer(device, state.target)
    &&& t.viewport == (
        state.viewport.origin.x,
        state.viewport.origin.y,
        state.viewport.size.x,
        state.viewport.size.y,
    )
    &&& t.program == state.program.spec_gl_program()
    &&& t.vertex_array == state.vertex_array.gl_vertex_array
    &&& forall|i: int|
        0 <= i < state.textures@.len() ==> #[trigger] texture_bound(
            t,
            i,
            state.textures@[i].gl_texture,
        )
    &&& blend_in_effect(t, state.options.blend)
    &&& depth_in_effect(t, state.options.depth)
    &&& stencil_in_effect(t, state.options.stencil)
    &&& t.color_mask == (if state.options.color_mask {
        (TRUE, TRUE, TRUE, TRUE)
    } else {
        (FALSE, FALSE, FALSE, FALSE)
    })
}

proof fn lemma_clear_part(s: GlState, ops: ClearOps)
    ensures
        same_outside_masks(run_commands(s, cmds_clear(ops)), s),
{
    let p1: Seq<GlCommand> = if ops.color {
        seq![GlCommand::ColorMask { red: TRUE, green: TRUE, blue: TRUE, alpha: TRUE }, GlCommand::ClearColor]
    } else {
        seq![]
    };
    let p2: Seq<GlCommand> = if ops.depth {
        seq![GlCommand::DepthMask { flag: TRUE }, GlCommand::ClearDepth]
    } else {
        seq![]
    };
    let p3: Seq<GlCommand> = match ops.stencil {
        Some(v) => seq![GlCommand::StencilMask { mask: u32::MAX }, GlCommand::ClearStencil { s: v as i32 }],
        None => seq![],
    };
    let p4: Seq<GlCommand> = if ops.spec_has_ops() {
        seq![GlCommand::Clear { mask: clear_mask(ops) }]
    } else {
        seq![]
    };
    assert(cmds_clear(ops) == p1 + p2 + p3 + p4);
    reveal_with_fuel(run_commands, 3);
    lemma_run_append(s, p1, p2);
    lemma_run_append(s, p1 + p2, p3);
    lemma_run_append(s, p1 + p2 + p3, p4);
}

proof fn lemma_bind_textures_part(s: GlState, textures: Seq<&GLTexture>, n: nat)
    requires
        n <= textures.len(),
        n + TEXTURE0 <= u32::MAX,
    ensures
        forall|i: int|
            0 <= i < n ==> #[trigger] texture_bound(
                run_commands(s, cmds_bind_textures(textures, n)),
                i,
                textures[i].gl_texture,
            ),
        same_outside_textures(run_commands(s, cmds_bind_textures(textures, n)), s),
    decreases n,
{
    if n == 0 {
        assert(cmds_bind_textures(textures, 0) =~= Seq::<GlCommand>::empty());
    } else {
        let k = (n - 1) as nat;
        lemma_bind_textures_part(s, textures, k);
        let u = run_commands(s, cmds_bind_textures(textures, k));
        let b = cmds_bind_texture(textures[k as int].gl_texture, k as u32);
        lemma_run_append(s, cmds_bind_textures(textures, k), b);
        reveal_with_fuel(run_commands, 3);
        let t = run_commands(u, b);
        assert(t.texture_2d == u.texture_2d.insert((TEXTURE0 + k) as u32, textures[k as int].gl_texture));
        assert forall|i: int| 0 <= i < n implies #[trigger] texture_bound(t, i, textures[i].gl_texture) by {
            if i < k {
                assert(texture_bound(u, i, textures[i].gl_texture));
                assert((TEXTURE0 + i) as u32 != (TEXTURE0 + k) as u32);
            }
        }
    }
}

proof fn lemma_set_uniforms_part(s: GlState, uniforms: Seq<(&GLUniform, crate::types::UniformData)>, n: nat)
    ensures
        run_commands(s, cmds_set_uniforms(uniforms, n)) == s,
    decreases n,
{
    if n > 0 {
        let k = (n - 1) as nat;
        lemma_set_uniforms_part(s, uniforms, k);
        let c = crate::render::cmd_set_uniform(uniforms[k as int].0.spec_location(), uniforms[k as int].1, k as usize);
        assert(cmds_set_uniforms(uniforms, n) == cmds_set_uniforms(uniforms, k).push(c));
        lemma_run_push(s, cmds_set_uniforms(uniforms, k), c);
    }
}

/// Once a render state is set up, everything it names is in effect: its
/// render target's framebuffer is bound, its viewport set, its program in
/// use, its vertex array bound, its texture `i` bound on texture unit `i`,
/// and its render options in effect.
pub proof fn law_render_state_in_effect(device: &GLDevice, state: &RenderState, s: GlState)
    requires
        state.wf(),
    ensures
        render_state_in_effect(run_commands(s, device.cmds_set_render_state(state)), device, state),
{
    let ops = state.options.clear_ops;
    let a = device.cmds_bind_render_target(state.target) + seq![
        GlCommand::Viewport {
            x: state.viewport.origin.x,
            y: state.viewport.origin.y,
            width: state.viewport.size.x,
            height: state.viewport.size.y,
        },
    ];
    let c: Seq<GlCommand> = if ops.spec_has_ops() {
        cmds_clear(ops)
    } else {
        seq![]
    };
    let p = seq![
        GlCommand::UseProgram { program: state.program.spec_gl_program() },
        GlCommand::BindVertexArray { array: state.vertex_array.gl_vertex_array },
    ];
    let t = cmds_bind_textures(state.textures@, state.textures@.len());
    let u = cmds_set_uniforms(state.uniforms@, state.uniforms@.len());
    let o = cmds_set_render_options(state.options);
    assert(device.cmds_set_render_state(state) == a + c + p + t + u + o);
    lemma_run_append(s, a, c);
    lemma_run_append(s, a + c, p);
    lemma_run_append(s, a + c + p, t);
    lemma_run_append(s, a + c + p + t, u);
    lemma_run_append(s, a + c + p + t + u, o);
    reveal_with_fuel(run_commands, 3);
    let s0 = run_commands(s, a);
    let s1 = run_commands(s0, c);
    let s2 = run_commands(s1, p);
    let s3 = run_commands(s2, t);
    let s4 = run_commands(s3, u);
    let s5 = run_commands(s4, o);
    assert(s0.framebuffer == target_framebuffer(device, state.target));
    if ops.spec_has_ops() {
        lemma_clear_part(s0, ops);
    }
    assert(same_outside_masks(s1, s0));
    lemma_bind_textures_part(s2, state.textures@, state.textures@.len());
    lemma_set_uniforms_part(s3, state.uniforms@, state.uniforms@.len());
    law_render_options_in_effect(s4, state.options);
    assert forall|i: int| 0 <= i < state.textures@.len() implies #[trigger] texture_bound(
        s5,
        i,
        state.textures@[i].gl_texture,
    ) by {
        assert(texture_bound(s3, i, state.textures@[i].gl_texture));
    }
}

/// `c` is the command at position `k` of `cmds` and runs with everything
/// that `state` names in effect.
pub open spec fn drawn_in_render_state(
    s: GlState,
    device: &GLDevice,
    state: &RenderState,
    cmds: Seq<GlCommand>,
    k: int,
    c: GlCommand,
) -> bool {
    planned_at(cmds, k, c) && render_state_in_effect(state_before(s, cmds, k), device, state)
}

/// Drawing arrays draws `index_count` vertices, from the first, as the render
/// state's primitive (`TRIANGLES` or `LINES`), with everything the render
/// state names in effect.
pub proof fn law_draw_arrays_in_render_state(
    device: &GLDevice,
    index_count: u32,
    state: &RenderState,
    s: GlState,
)
    requires
        state.wf(),
    ensures
        state.primitive is Triangles ==> exists|k: int|
            #[trigger] drawn_in_render_state(
                s,
                device,
                state,
                device.cmds_draw_arrays(index_count, state),
                k,
                GlCommand::DrawArrays { mode: TRIANGLES, first: 0, count: index_count as i32 },
            ),
        state.primitive is Lines ==> exists|k: int|
            #[trigger] drawn_in_render_state(
                s,
                device,
                state,
                device.cmds_draw_arrays(index_count, state),
                k,
                GlCommand::DrawArrays { mode: LINES, first: 0, count: index_count as i32 },
            ),
{
    let set = device.cmds_set_render_state(state);
    let cmds = device.cmds_draw_arrays(index_count, state);
    let k = set.len() as int;
    assert(cmds.take(k) =~= set);
    law_render_state_in_effect(device, state, s);
    assert(drawn_in_render_state(s, device, state, cmds, k, cmds[k]));
}

/// Drawing elements draws `index_count` 32-bit indices as the render
/// state's primitive (`TRIANGLES` or `LINES`), with everything the render
/// state names in effect.
pub proof fn law_draw_elements_in_render_state(
    device: &GLDevice,
    index_count: u32,
    state: &RenderState,
    s: GlState,
)
    requires
        state.wf(),
    ensures
        state.primitive is Triangles ==> exists|k: int|
            #[trigger] drawn_in_render_state(
                s,
                device,
                state,
                device.cmds_draw_elements(index_count, state),
                k,
                GlCommand::DrawElements { mode: TRIANGLES, count: index_count as i32, ty: UNSIGNED_INT },
            ),
        state.primitive is Lines ==> exists|k: int|
            #[trigger] drawn_in_render_state(
                s,
                device,
                state,
                device.cmds_draw_elements(index_count, state),
                k,
                GlCommand::DrawElements { mode: LINES, count: index_count as i32, ty: UNSIGNED_INT },
            ),
{
    let set = device.cmds_set_render_state(state);
    let cmds = device.cmds_draw_elements(index_count, state);
    let k = set.len() as int;
    assert(cmds.take(k) =~= set);
    law_render_state_in_effect(device, state, s);
    assert(drawn_in_render_state(s, device, state, cmds, k, cmds[k]));
}

/// Drawing instanced elements draws `instance_count` instances of
/// `index_count` 32-bit indices as the render state's primitive
/// (`TRIANGLES` or `LINES`), with everything the render state names in
/// effect.
pub proof fn law_draw_elements_instanced_in_render_state(
    device: &GLDevice,
    index_count: u32,
    instance_count: u32,
    state: &RenderState,
    s: GlState,
)
    requires
        state.wf(),
    ensures
        state.primitive is Triangles ==> exists|k: int|
            #[trigger] drawn_in_render_state(
                s,
                device,
                state,
                device.cmds_draw_elements_instanced(index_count, instance_count, state),
                k,
                GlCommand::DrawElementsInstanced {
                    mode: TRIANGLES,
                    count: index_count as i32,
                    ty: UNSIGNED_INT,
                    instance_count: instance_count as i32,
                },
            ),
        state.primitive is Lines ==> exists|k: int|
            #[trigger] drawn_in_render_state(
                s,
                device,
                state,
                device.cmds_draw_elements_instanced(index_count, instance_count, state),
                k,
                GlCommand::DrawElementsInstanced {
                    mode: LINES,
                    count: index_count as i32,
                    ty: UNSIGNED_INT,
                    instance_count: instance_count as i32,
                },
            ),
{
    let set = device.cmds_set_render_state(state);
    let cmds = device.cmds_draw_elements_instanced(index_count, instance_count, state);
    let k = set.len() as int;
    assert(cmds.take(k) =~= set);
    law_render_state_in_effect(device, state, s);
    assert(drawn_in_render_state(s, device, state, cmds, k, cmds[k]));
}

/// The 2D texture `texture` samples linearly, minified and magnified, and
/// clamps to its edges in both directions, in `t`.
pub open spec fn texture_sampling_set(t: GlState, texture: u32) -> bool {
    &&& t.texture_params.dom().contains((texture, TEXTURE_MIN_FILTER))
    &&& t.texture_params[(texture, TEXTURE_MIN_FILTER)] == LINEAR as i32
    &&& t.texture_params.dom().contains((texture, TEXTURE_MAG_FILTER))
    &&& t.texture_params[(texture, TEXTURE_MAG_FILTER)] == LINEAR as i32
    &&& t.texture_params.dom().contains((texture, TEXTURE_WRAP_S))
    &&& t.texture_params[(texture, TEXTURE_WRAP_S)] == CLAMP_TO_EDGE as i32
    &&& t.texture_params.dom().contains((texture, TEXTURE_WRAP_T))
    &&& t.texture_params[(texture, TEXTURE_WRAP_T)] == CLAMP_TO_EDGE as i32
}

proof fn lemma_texture_parameters_part(u: GlState, texture: u32)
    ensures
        texture_sampling_set(run_commands(u, cmds_set_texture_parameters(texture)), texture),
        texture_bound(run_commands(u, cmds_set_texture_parameters(texture)), 0, texture),
{
    let bind = cmds_bind_texture(texture, 0);
    let p = cmds_set_texture_parameters(texture).subrange(2, 6);
    assert(cmds_set_texture_parameters(texture) =~= bind + p);
    lemma_run_append(u, bind, p);
    reveal_with_fuel(run_commands, 3);
    let u0 = run_commands(u, bind);
    assert(texture_bound(u0, 0, texture) && u0.active_texture == TEXTURE0);
    assert(p =~= seq![p[0]].push(p[1]).push(p[2]).push(p[3]));
    crate::state::lemma_run_single(u0, p[0]);
    lemma_run_push(u0, seq![p[0]], p[1]);
    lemma_run_push(u0, seq![p[0]].push(p[1]), p[2]);
    lemma_run_push(u0, seq![p[0]].push(p[1]).push(p[2]), p[3]);
    let u1 = run_commands(u0, seq![p[0]]);
    let u2 = run_commands(u0, seq![p[0]].push(p[1]));
    let u3 = run_commands(u0, seq![p[0]].push(p[1]).push(p[2]));
    let u4 = run_commands(u0, p);
    assert(u1.texture_2d == u0.texture_2d && u1.active_texture == u0.active_texture);
    assert(u2.texture_2d == u0.texture_2d && u2.active_texture == u0.active_texture);
    assert(u3.texture_2d == u0.texture_2d && u3.active_texture == u0.active_texture);
    assert(u4.texture_2d == u0.texture_2d && u4.active_texture == u0.active_texture);
    assert(u4.texture_params == u0.texture_params.insert(
        (texture, TEXTURE_MIN_FILTER),
        LINEAR as i32,
    ).insert((texture, TEXTURE_MAG_FILTER), LINEAR as i32).insert(
        (texture, TEXTURE_WRAP_S),
        CLAMP_TO_EDGE as i32,
    ).insert((texture, TEXTURE_WRAP_T), CLAMP_TO_EDGE as i32));
}

/// An upload leaves the texture bound on texture unit 0, sampling linearly
/// and clamping to its edges.
pub proof fn law_upload_sets_sampling(
    texture: u32,
    internal_format: i32,
    size: Vector2I,
    format: u32,
    ty: u32,
    with_data: bool,
    s: GlState,
)
    ensures
        texture_sampling_set(
            run_commands(
                s,
                GLDevice::cmds_upload(texture, internal_format, size, format, ty, with_data),
            ),
            texture,
        ),
        texture_bound(
            run_commands(
                s,
                GLDevice::cmds_upload(texture, internal_format, size, format, ty, with_data),
            ),
            0,
            texture,
        ),
{
    let cmds = GLDevice::cmds_upload(texture, internal_format, size, format, ty, with_data);
    let head = cmds.take(3);
    assert(cmds =~= head + cmds_set_texture_parameters(texture));
    lemma_run_append(s, head, cmds_set_texture_parameters(texture));
    reveal_with_fuel(run_commands, 4);
    lemma_texture_parameters_part(run_commands(s, head), texture);
}

/// Adopting an existing texture leaves it bound on texture unit 0,
/// sampling linearly and clamping to its edges.
pub proof fn law_existing_texture_sets_sampling(texture: u32, s: GlState)
    ensures
        texture_sampling_set(
            run_commands(s, cmds_bind_texture(texture, 0) + cmds_set_texture_parameters(texture)),
            texture,
        ),
        texture_bound(
            run_commands(s, cmds_bind_texture(texture, 0) + cmds_set_texture_parameters(texture)),
            0,
            texture,
        ),
{
    lemma_run_append(s, cmds_bind_texture(texture, 0), cmds_set_texture_parameters(texture));
    reveal_with_fuel(run_commands, 3);
    lemma_texture_parameters_part(run_commands(s, cmds_bind_texture(texture, 0)), texture);
}

/// Allocating a buffer binds it to `ARRAY_BUFFER` as a vertex buffer and
/// to `ELEMENT_ARRAY_BUFFER` as an index buffer, and gives the buffer bound
/// there `byte_size` bytes, filled from memory exactly when `with_data`,
/// for static drawing (`STATIC_DRAW`) or dynamic drawing (`DYNAMIC_DRAW`)
/// as the upload mode says.
pub proof fn law_allocate_buffer(
    buffer: &GLBuffer,
    byte_size: int,
    with_data: bool,
    target: BufferTarget,
    mode: BufferUploadMode,
)
    ensures
        ({
            let cmds = GLDevice::cmds_allocate_buffer(buffer, byte_size, with_data, target, mode);
            let binding_point: u32 = if target is Vertex {
                ARRAY_BUFFER
            } else {
                ELEMENT_ARRAY_BUFFER
            };
            let usage: u32 = if mode is Static {
                STATIC_DRAW
            } else {
                DYNAMIC_DRAW
            };
            &&& cmds.len() == 2
            &&& cmds[0] == GlCommand::BindBuffer { target: binding_point, buffer: buffer.gl_buffer }
            &&& cmds[1] == GlCommand::BufferData {
                target: binding_point,
                byte_size: byte_size as isize,
                with_data,
                usage,
            }
        }),
{
}

/// Creating a framebuffer leaves it bound with the texture as its colour
/// attachment, so that what is drawn into it lands in the texture.
pub proof fn law_create_framebuffer_attaches_texture(gl_framebuffer: u32, texture: u32, s: GlState)
    ensures
        run_commands(s, GLDevice::cmds_create_framebuffer(gl_framebuffer, texture)).framebuffer
            == gl_framebuffer,
        run_commands(
            s,
            GLDevice::cmds_create_framebuffer(gl_framebuffer, texture),
        ).color_attachments.dom().contains(gl_framebuffer),
        run_commands(
            s,
            GLDevice::cmds_create_framebuffer(gl_framebuffer, texture),
        ).color_attachments[gl_framebuffer] == texture,
{
    reveal_with_fuel(run_commands, 5);
}

/// The pixel format of the render target `target`: RGBA bytes for the
/// default framebuffer, else the format of the framebuffer's texture.
pub open spec fn target_format(target: &RenderTarget) -> TextureFormat {
    match target {
        RenderTarget::Default => TextureFormat::RGBA8,
        RenderTarget::Framebuffer(framebuffer) => framebuffer.texture.format,
    }
}

/// The OpenGL format and type in which pixels of `format` travel: red
/// bytes, red half floats, RGBA bytes.
pub open spec fn pixel_transfer(format: TextureFormat) -> (u32, u32) {
    match format {
        TextureFormat::R8 => (RED, UNSIGNED_BYTE),
        TextureFormat::R16F => (RED, HALF_FLOAT),
        TextureFormat::RGBA8 => (RGBA, UNSIGNED_BYTE),
    }
}

/// Reading pixels reads the viewport's rectangle of the render target, from
/// its origin, as wide and high as its size, with the target's framebuffer
/// bound, in the target's pixel format.
pub proof fn law_read_pixels_reads_target(
    device: &GLDevice,
    target: &RenderTarget,
    viewport: RectI,
    s: GlState,
)
    ensures
        exists|k: int|
            {
                &&& #[trigger] planned_at(
                    device.cmds_read_pixels(target, viewport),
                    k,
                    GlCommand::ReadPixels {
                        x: viewport.origin.x,
                        y: viewport.origin.y,
                        width: viewport.size.x,
                        height: viewport.size.y,
                        format: pixel_transfer(target_format(target)).0,
                        ty: pixel_transfer(target_format(target)).1,
                    },
                )
                &&& state_before(s, device.cmds_read_pixels(target, viewport), k).framebuffer
                    == target_framebuffer(device, target)
            },
{
    let cmds = device.cmds_read_pixels(target, viewport);
    reveal_with_fuel(run_commands, 2);
    assert(cmds.take(1) =~= seq![cmds[0]]);
    assert(planned_at(cmds, 1, cmds[1]));
}

/// The OpenGL call that gives the uniform at `location` the value `data`,
/// the caller's value `index` when it is a floating-point one: `glUniform1i`
/// with the integer itself for an integer or a texture unit, else the call
/// of the value's shape.
pub open spec fn uniform_call(location: i32, data: UniformData, index: usize) -> GlCommand {
    match data {
        UniformData::Int(value) => GlCommand::Uniform1i { location, value },
        UniformData::TextureUnit(unit) => GlCommand::Uniform1i { location, value: unit as i32 },
        UniformData::Float => GlCommand::Uniform1f { location, value_index: index },
        UniformData::Vec2 => GlCommand::Uniform2f { location, value_index: index },
        UniformData::Vec4 => GlCommand::Uniform4f { location, value_index: index },
        UniformData::Mat2 => GlCommand::UniformMatrix2fv { location, value_index: index },
        UniformData::Mat4 => GlCommand::UniformMatrix4fv { location, value_index: index },
    }
}

proof fn lemma_set_uniforms_prefix(
    uniforms: Seq<(&GLUniform, UniformData)>,
    n: nat,
    i: nat,
)
    requires
        i <= n,
    ensures
        cmds_set_uniforms(uniforms, n).len() == n,
        cmds_set_uniforms(uniforms, n).take(i as int) == cmds_set_uniforms(uniforms, i),
        i < n ==> cmds_set_uniforms(uniforms, n)[i as int] == uniform_call(
            uniforms[i as int].0.spec_location(),
            uniforms[i as int].1,
            i as usize,
        ),
    decreases n,
{
    if n == 0 {
        assert(cmds_set_uniforms(uniforms, 0).take(0) =~= cmds_set_uniforms(uniforms, 0));
    } else {
        let k = (n - 1) as nat;
        if i == n {
            lemma_set_uniforms_prefix(uniforms, k, k);
            assert(cmds_set_uniforms(uniforms, n).take(i as int) =~= cmds_set_uniforms(uniforms, n));
        } else {
            lemma_set_uniforms_prefix(uniforms, k, i);
            assert(cmds_set_uniforms(uniforms, n).take(i as int) =~= cmds_set_uniforms(
                uniforms,
                k,
            ).take(i as int));
        }
    }
}

/// Setting up a render state gives each of its uniforms its value, in
/// order, while the render state's program is in use (the program a
/// uniform call acts on): uniform `i` is set by the call that its value
/// asks for, at the uniform's location, the caller's value `i` standing
/// for a floating-point value.
pub proof fn law_render_state_sets_uniforms(
    device: &GLDevice,
    state: &RenderState,
    s: GlState,
    i: int,
)
    requires
        state.wf(),
        0 <= i < state.uniforms@.len(),
    ensures
        exists|k: int|
            {
                &&& #[trigger] planned_at(
                    device.cmds_set_render_state(state),
                    k,
                    uniform_call(state.uniforms@[i].0.spec_location(), state.uniforms@[i].1, i as usize),
                )
                &&& state_before(s, device.cmds_set_render_state(state), k).program
                    == state.program.spec_gl_program()
            },
{
    let ops = state.options.clear_ops;
    let a = device.cmds_bind_render_target(state.target) + seq![
        GlCommand::Viewport {
            x: state.viewport.origin.x,
            y: state.viewport.origin.y,
            width: state.viewport.size.x,
            height: state.viewport.size.y,
        },
    ];
    let c: Seq<GlCommand> = if ops.spec_has_ops() {
        cmds_clear(ops)
    } else {
        seq![]
    };
    let p = seq![
        GlCommand::UseProgram { program: state.program.spec_gl_program() },
        GlCommand::BindVertexArray { array: state.vertex_array.gl_vertex_array },
    ];
    let t = cmds_bind_textures(state.textures@, state.textures@.len());
    let n = state.uniforms@.len();
    let u = cmds_set_uniforms(state.uniforms@, n);
    let o = cmds_set_render_options(state.options);
    let set = device.cmds_set_render_state(state);
    assert(set == a + c + p + t + u + o);
    lemma_set_uniforms_prefix(state.uniforms@, n, i as nat);
    let before = a + c + p + t;
    let k = before.len() + i;
    assert(set.take(k) =~= before + cmds_set_uniforms(state.uniforms@, i as nat));
    assert(planned_at(
        set,
        k,
        uniform_call(state.uniforms@[i].0.spec_location(), state.uniforms@[i].1, i as usize),
    ));
    lemma_run_append(s, a + c, p);
    lemma_run_append(s, a + c + p, t);
    lemma_run_append(s, before, cmds_set_uniforms(state.uniforms@, i as nat));
    reveal_with_fuel(run_commands, 3);
    let s2 = run_commands(s, a + c + p);
    assert(s2.program == state.program.spec_gl_program());
    lemma_bind_textures_part(s2, state.textures@, state.textures@.len());
    lemma_set_uniforms_part(run_commands(s, before), state.uniforms@, i as nat);
}

/// Compiling a shader gives the shader object a source of exactly the
/// length passed in, the whole expanded source, and then compiles it, with
/// that source in place.
pub proof fn law_compile_shader(gl_shader: u32, length: int, s: GlState)
    requires
        0 <= length <= i32::MAX,
    ensures
        exists|k: int|
            {
                &&& #[trigger] planned_at(
                    GLDevice::cmds_compile_shader(gl_shader, length),
                    k,
                    GlCommand::CompileShader { shader: gl_shader },
                )
                &&& state_before(
                    s,
                    GLDevice::cmds_compile_shader(gl_shader, length),
                    k,
                ).shader_sources.dom().contains(gl_shader)
                &&& state_before(
                    s,
                    GLDevice::cmds_compile_shader(gl_shader, length),
                    k,
                ).shader_sources[gl_shader] == length
            },
        run_commands(s, GLDevice::cmds_compile_shader(gl_shader, length)).compiled.contains(
            gl_shader,
        ),
{
    let cmds = GLDevice::cmds_compile_shader(gl_shader, length);
    reveal_with_fuel(run_commands, 3);
    assert(cmds.take(1) =~= seq![cmds[0]]);
    assert(planned_at(cmds, 1, cmds[1]));
}

/// Linking a program links it with both shaders attached: the link comes
/// after the vertex and the fragment shader were attached to that program.
pub proof fn law_link_program(
    gl_program: u32,
    vertex_shader: u32,
    fragment_shader: u32,
    s: GlState,
)
    ensures
        exists|k: int|
            {
                &&& #[trigger] planned_at(
                    GLDevice::cmds_link_program(gl_program, vertex_shader, fragment_shader),
                    k,
                    GlCommand::LinkProgram { program: gl_program },
                )
                &&& state_before(
                    s,
                    GLDevice::cmds_link_program(gl_program, vertex_shader, fragment_shader),
                    k,
                ).attached.contains((gl_program, vertex_shader))
                &&& state_before(
                    s,
                    GLDevice::cmds_link_program(gl_program, vertex_shader, fragment_shader),
                    k,
                ).attached.contains((gl_program, fragment_shader))
            },
        run_commands(
            s,
            GLDevice::cmds_link_program(gl_program, vertex_shader, fragment_shader),
        ).linked.contains(gl_program),
{
    let cmds = GLDevice::cmds_link_program(gl_program, vertex_shader, fragment_shader);
    reveal_with_fuel(run_commands, 4);
    assert(cmds.take(2) =~= seq![cmds[0], cmds[1]]);
    assert(planned_at(cmds, 2, cmds[2]));
}

} // verus!
