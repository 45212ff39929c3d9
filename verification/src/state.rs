//! A model of the OpenGL state that the planned commands change, and what
//! the device's plans leave behind in it.
//!
//! The model follows the OpenGL specification for the pieces of state the
//! device binds and unbinds: enabled capabilities, the colour and stencil
//! write masks, the depth write mask and function, the stencil clear value,
//! the viewport, the blend equation and factors, the stencil function and
//! actions, the current program, vertex array, active texture unit, 2D
//! texture bindings per unit, the integer parameters of 2D textures, the
//! framebuffer binding and each framebuffer's colour attachment, and the
//! sources, compilation, attachment and linking of shaders and programs. Commands that
//! touch none of these leave the model unchanged.

use vstd::prelude::*;
use crate::command::GlCommand;
use crate::device::{GLDevice, GLVertexArray, GLVertexAttr, GLBuffer, cmds_unbind_texture};
use crate::glenum::{
    TEXTURE0, TEXTURE_2D, FRAMEBUFFER, COLOR_ATTACHMENT0, BLEND, DEPTH_TEST, STENCIL_TEST, TRUE, FALSE, LESS, ALWAYS,
};
use crate::render::{
    RenderState, cmds_blend, cmds_depth, cmds_stencil, cmds_set_render_options,
    cmds_reset_render_options, cmds_unbind_textures, gl_bool,
};
use crate::types::{BlendState, DepthFunc, RenderOptions, VertexAttrDescriptor, BufferTarget};

verus! {

pub struct GlState {
    /// The capabilities that `glEnable` turned on.
    pub enabled: Set<u32>,
    /// The colour write mask: red, green, blue, alpha.
    pub color_mask: (u8, u8, u8, u8),
    /// The stencil write mask.
    pub stencil_write_mask: u32,
    /// The current program.
    pub program: u32,
    /// The bound vertex array.
    pub vertex_array: u32,
    /// The active texture unit, as its enumerant `TEXTURE0 + unit`.
    pub active_texture: u32,
    /// The 2D texture bound to each texture unit, by the unit's enumerant.
    pub texture_2d: Map<u32, u32>,
    /// The bound framebuffer.
    pub framebuffer: u32,
    /// The depth write mask.
    pub depth_mask: u8,
    /// The depth comparison function.
    pub depth_func: u32,
    /// The value the stencil buffer is cleared to.
    pub clear_stencil: i32,
    /// The viewport: x, y, width, height.
    pub viewport: (i32, i32, i32, i32),
    /// The blend equation.
    pub blend_equation: u32,
    /// The blend factors: source and destination colour, source and
    /// destination alpha.
    pub blend_func: (u32, u32, u32, u32),
    /// The stencil test: comparison function, reference value, mask.
    pub stencil_func: (u32, i32, u32),
    /// The stencil actions: on stencil fail, on depth fail, on pass.
    pub stencil_op: (u32, u32, u32),
    /// The integer parameters of 2D textures, by texture and parameter name.
    pub texture_params: Map<(u32, u32), i32>,
    /// The texture attached as colour attachment 0, by framebuffer.
    pub color_attachments: Map<u32, u32>,
    /// The length of the source each shader object was given.
    pub shader_sources: Map<u32, i32>,
    /// The shader objects that were compiled.
    pub compiled: Set<u32>,
    /// The shaders attached to programs, as pairs of program and shader.
    pub attached: Set<(u32, u32)>,
    /// The program objects that were linked.
    pub linked: Set<u32>,
}

/// The state after one command.
pub open spec fn apply_command(s: GlState, c: GlCommand) -> GlState {
    match c {
        GlCommand::Enable { cap } => GlState { enabled: s.enabled.insert(cap), ..s },
        GlCommand::Disable { cap } => GlState { enabled: s.enabled.remove(cap), ..s },
        GlCommand::ColorMask { red, green, blue, alpha } => GlState {
            color_mask: (red, green, blue, alpha),
            ..s
        },
        GlCommand::StencilMask { mask } => GlState { stencil_write_mask: mask, ..s },
        GlCommand::DepthMask { flag } => GlState { depth_mask: flag, ..s },
        GlCommand::DepthFunc { func } => GlState { depth_func: func, ..s },
        GlCommand::ClearStencil { s: value } => GlState { clear_stencil: value, ..s },
        GlCommand::Viewport { x, y, width, height } => GlState {
            viewport: (x, y, width, height),
            ..s
        },
        GlCommand::BlendEquation { mode } => GlState { blend_equation: mode, ..s },
        GlCommand::BlendFunc { sfactor, dfactor } => GlState {
            blend_func: (sfactor, dfactor, sfactor, dfactor),
            ..s
        },
        GlCommand::BlendFuncSeparate { src_rgb, dst_rgb, src_alpha, dst_alpha } => GlState {
            blend_func: (src_rgb, dst_rgb, src_alpha, dst_alpha),
            ..s
        },
        GlCommand::StencilFunc { func, reference, mask } => GlState {
            stencil_func: (func, reference, mask),
            ..s
        },
        GlCommand::StencilOp { sfail, dpfail, dppass } => GlState {
            stencil_op: (sfail, dpfail, dppass),
            ..s
        },
        GlCommand::UseProgram { program } => GlState { program, ..s },
        GlCommand::BindVertexArray { array } => GlState { vertex_array: array, ..s },
        GlCommand::ActiveTexture { texture } => GlState { active_texture: texture, ..s },
        GlCommand::BindTexture { target, texture } => if target == TEXTURE_2D {
            GlState { texture_2d: s.texture_2d.insert(s.active_texture, texture), ..s }
        } else {
            s
        },
        GlCommand::TexParameteri { target, pname, param } => if target == TEXTURE_2D
            && s.texture_2d.dom().contains(s.active_texture) {
            GlState {
                texture_params: s.texture_params.insert(
                    (s.texture_2d[s.active_texture], pname),
                    param,
                ),
                ..s
            }
        } else {
            s
        },
        GlCommand::FramebufferTexture2D { target, attachment, textarget, texture, level } => if target
            == FRAMEBUFFER && attachment == COLOR_ATTACHMENT0 && textarget == TEXTURE_2D && level
            == 0 {
            GlState { color_attachments: s.color_attachments.insert(s.framebuffer, texture), ..s }
        } else {
            s
        },
        GlCommand::ShaderSource { shader, length } => GlState {
            shader_sources: s.shader_sources.insert(shader, length),
            ..s
        },
        GlCommand::CompileShader { shader } => GlState { compiled: s.compiled.insert(shader), ..s },
        GlCommand::AttachShader { program, shader } => GlState {
            attached: s.attached.insert((program, shader)),
            ..s
        },
        GlCommand::LinkProgram { program } => GlState { linked: s.linked.insert(program), ..s },
        GlCommand::BindFramebuffer { target, framebuffer } => if target == FRAMEBUFFER {
            GlState { framebuffer, ..s }
        } else {
            s
        },
        _ => s,
    }
}

/// The state after a sequence of commands, performed in order.
pub open spec fn run_commands(s: GlState, cmds: Seq<GlCommand>) -> GlState
    decreases cmds.len(),
{
    if cmds.len() == 0 {
        s
    } else {
        run_commands(apply_command(s, cmds[0]), cmds.drop_first())
    }
}

/// Performing `a` and then `b` is performing `a + b`.
pub proof fn lemma_run_append(s: GlState, a: Seq<GlCommand>, b: Seq<GlCommand>)
    ensures
        run_commands(s, a + b) == run_commands(run_commands(s, a), b),
    decreases a.len(),
{
    if a.len() == 0 {
        assert(a + b =~= b);
    } else {
        assert((a + b).drop_first() =~= a.drop_first() + b);
        lemma_run_append(apply_command(s, a[0]), a.drop_first(), b);
    }
}

/// Performing a single command.
pub proof fn lemma_run_single(s: GlState, c: GlCommand)
    ensures
        run_commands(s, seq![c]) == apply_command(s, c),
{
    reveal_with_fuel(run_commands, 2);
    assert(seq![c].drop_first() =~= Seq::<GlCommand>::empty());
}

/// Performing `a` and then `c`.
pub proof fn lemma_run_push(s: GlState, a: Seq<GlCommand>, c: GlCommand)
    ensures
        run_commands(s, a.push(c)) == apply_command(run_commands(s, a), c),
{
    assert(a.push(c) =~= a + seq![c]);
    lemma_run_append(s, a, seq![c]);
    lemma_run_single(run_commands(s, a), c);
}

/// No texture is bound to texture unit `unit`.
pub open spec fn texture_unit_unbound(s: GlState, unit: int) -> bool {
    s.texture_2d.dom().contains((TEXTURE0 + unit) as u32) && s.texture_2d[(TEXTURE0 + unit) as u32]
        == 0
}

/// The parts of the state that render options decide.
pub open spec fn options_in_effect(s: GlState, options: RenderOptions) -> bool {
    &&& s.enabled.contains(BLEND) == (options.blend != BlendState::Off)
    &&& s.enabled.contains(DEPTH_TEST) == (options.depth is Some)
    &&& s.enabled.contains(STENCIL_TEST) == (options.stencil is Some)
    &&& s.color_mask == (
        gl_bool(options.color_mask),
        gl_bool(options.color_mask),
        gl_bool(options.color_mask),
        gl_bool(options.color_mask),
    )
}

/// The parts of the state that no render pass leaves changed: blending,
/// the depth test and the stencil test off, all colour channels writable.
pub open spec fn options_cleared(s: GlState) -> bool {
    &&& !s.enabled.contains(BLEND)
    &&& !s.enabled.contains(DEPTH_TEST)
    &&& !s.enabled.contains(STENCIL_TEST)
    &&& s.color_mask == (TRUE, TRUE, TRUE, TRUE)
}

/// Whether two states bind the same program, vertex array, textures and
/// framebuffer.
pub open spec fn same_bindings(a: GlState, b: GlState) -> bool {
    &&& a.program == b.program
    &&& a.vertex_array == b.vertex_array
    &&& a.active_texture == b.active_texture
    &&& a.texture_2d == b.texture_2d
    &&& a.framebuffer == b.framebuffer
}

/// Whether `t` differs from `s` at most in whether `cap` is enabled and in
/// state that the model does not follow.
pub open spec fn changes_only_cap(t: GlState, s: GlState, cap: u32) -> bool {
    &&& forall|c: u32| c != cap ==> (#[trigger] t.enabled.contains(c) == s.enabled.contains(c))
    &&& t.color_mask == s.color_mask
    &&& same_bindings(t, s)
}

/// Whether `t` has the depth write mask and depth function of `s`.
pub open spec fn same_depth_state(t: GlState, s: GlState) -> bool {
    t.depth_mask == s.depth_mask && t.depth_func == s.depth_func
}

proof fn lemma_blend_effect(s: GlState, blend: BlendState)
    ensures
        run_commands(s, cmds_blend(blend)).enabled.contains(BLEND) == (blend != BlendState::Off),
        changes_only_cap(run_commands(s, cmds_blend(blend)), s, BLEND),
        same_depth_state(run_commands(s, cmds_blend(blend)), s),
        run_commands(s, cmds_blend(blend)).stencil_write_mask == s.stencil_write_mask,
{
    reveal_with_fuel(run_commands, 4);
}

proof fn lemma_depth_effect(s: GlState, depth: Option<crate::types::DepthState>)
    ensures
        run_commands(s, cmds_depth(depth)).enabled.contains(DEPTH_TEST) == (depth is Some),
        changes_only_cap(run_commands(s, cmds_depth(depth)), s, DEPTH_TEST),
        run_commands(s, cmds_depth(depth)).stencil_write_mask == s.stencil_write_mask,
        depth is None ==> same_depth_state(run_commands(s, cmds_depth(depth)), s),
        depth matches Some(d) ==> run_commands(s, cmds_depth(depth)).depth_mask == (if d.write {
            TRUE
        } else {
            FALSE
        }) && run_commands(s, cmds_depth(depth)).depth_func == (match d.func {
            DepthFunc::Less => LESS,
            DepthFunc::Always => ALWAYS,
        }),
{
    reveal_with_fuel(run_commands, 4);
}

proof fn lemma_stencil_effect(s: GlState, stencil: Option<crate::types::StencilState>)
    ensures
        run_commands(s, cmds_stencil(stencil)).enabled.contains(STENCIL_TEST) == (stencil is Some),
        changes_only_cap(run_commands(s, cmds_stencil(stencil)), s, STENCIL_TEST),
        same_depth_state(run_commands(s, cmds_stencil(stencil)), s),
        stencil is None ==> run_commands(s, cmds_stencil(stencil)).stencil_write_mask
            == s.stencil_write_mask,
        stencil matches Some(st) ==> run_commands(s, cmds_stencil(stencil)).stencil_write_mask
            == (if st.write {
            st.mask
        } else {
            0
        }),
{
    reveal_with_fuel(run_commands, 5);
}

/// Setting up render options puts exactly those options in effect, and
/// binds nothing. A depth state writes depth exactly when it says so and
/// compares with its function; without one the depth write mask and
/// function stay as they were. A stencil state writes through its mask
/// when it writes and through no bit otherwise; without one the stencil
/// write mask stays as it was. The colour channels are all writable or
/// all masked as the options say.
pub proof fn lemma_set_render_options_effect(s: GlState, options: RenderOptions)
    ensures
        options_in_effect(run_commands(s, cmds_set_render_options(options)), options),
        same_bindings(run_commands(s, cmds_set_render_options(options)), s),
        options.depth matches Some(d) ==> {
            &&& d.write ==> run_commands(s, cmds_set_render_options(options)).depth_mask == TRUE
            &&& !d.write ==> run_commands(s, cmds_set_render_options(options)).depth_mask == FALSE
            &&& d.func == DepthFunc::Less ==> run_commands(s, cmds_set_render_options(options)).depth_func == LESS
            &&& d.func == DepthFunc::Always ==> run_commands(s, cmds_set_render_options(options)).depth_func == ALWAYS
        },
        options.depth is None ==> same_depth_state(run_commands(s, cmds_set_render_options(options)), s),
        options.stencil matches Some(st) ==> {
            &&& st.write ==> run_commands(s, cmds_set_render_options(options)).stencil_write_mask == st.mask
            &&& !st.write ==> run_commands(s, cmds_set_render_options(options)).stencil_write_mask == 0
        },
        options.stencil is None ==> run_commands(s, cmds_set_render_options(options)).stencil_write_mask
            == s.stencil_write_mask,
        options.color_mask ==> run_commands(s, cmds_set_render_options(options)).color_mask == (TRUE, TRUE, TRUE, TRUE),
        !options.color_mask ==> run_commands(s, cmds_set_render_options(options)).color_mask == (FALSE, FALSE, FALSE, FALSE),
{
    let m = gl_bool(options.color_mask);
    let b = cmds_blend(options.blend);
    let d = cmds_depth(options.depth);
    let st = cmds_stencil(options.stencil);
    let c = GlCommand::ColorMask { red: m, green: m, blue: m, alpha: m };
    lemma_run_append(s, b, d);
    lemma_run_append(s, b + d, st);
    lemma_run_push(s, b + d + st, c);
    assert(cmds_set_render_options(options) == (b + d + st).push(c));
    let s1 = run_commands(s, b);
    let s2 = run_commands(s1, d);
    let s3 = run_commands(s2, st);
    lemma_blend_effect(s, options.blend);
    lemma_depth_effect(s1, options.depth);
    lemma_stencil_effect(s2, options.stencil);
    assert(s2.enabled.contains(BLEND) == s1.enabled.contains(BLEND));
    assert(s3.enabled.contains(BLEND) == s2.enabled.contains(BLEND));
    assert(s3.enabled.contains(DEPTH_TEST) == s2.enabled.contains(DEPTH_TEST));
}

/// Undoing render options that are in effect turns blending and the depth
/// and stencil tests off and makes every colour channel writable, and
/// binds nothing.
pub proof fn lemma_reset_render_options_effect(s: GlState, options: RenderOptions)
    requires
        options_in_effect(s, options),
    ensures
        options_cleared(run_commands(s, cmds_reset_render_options(options))),
        same_bindings(run_commands(s, cmds_reset_render_options(options)), s),
        options.stencil is Some ==> run_commands(s, cmds_reset_render_options(options)).stencil_write_mask == u32::MAX,
        options.stencil is None ==> run_commands(s, cmds_reset_render_options(options)).stencil_write_mask == s.stencil_write_mask,
{
    let p1: Seq<GlCommand> = if options.blend != BlendState::Off {
        seq![GlCommand::Disable { cap: BLEND }]
    } else {
        seq![]
    };
    let p2: Seq<GlCommand> = if options.depth is Some {
        seq![GlCommand::Disable { cap: DEPTH_TEST }]
    } else {
        seq![]
    };
    let p3: Seq<GlCommand> = if options.stencil is Some {
        seq![GlCommand::StencilMask { mask: u32::MAX }, GlCommand::Disable { cap: STENCIL_TEST }]
    } else {
        seq![]
    };
    let c = GlCommand::ColorMask { red: TRUE, green: TRUE, blue: TRUE, alpha: TRUE };
    reveal_with_fuel(run_commands, 3);
    lemma_run_append(s, p1, p2);
    lemma_run_append(s, p1 + p2, p3);
    lemma_run_push(s, p1 + p2 + p3, c);
    assert(cmds_reset_render_options(options) == (p1 + p2 + p3).push(c));
    let s1 = run_commands(s, p1);
    let s2 = run_commands(s1, p2);
    let s3 = run_commands(s2, p3);
    assert(!s1.enabled.contains(BLEND));
    assert(s1.enabled.contains(DEPTH_TEST) == s.enabled.contains(DEPTH_TEST));
    assert(s1.enabled.contains(STENCIL_TEST) == s.enabled.contains(STENCIL_TEST));
    assert(!s2.enabled.contains(BLEND));
    assert(!s2.enabled.contains(DEPTH_TEST));
    assert(s2.enabled.contains(STENCIL_TEST) == s.enabled.contains(STENCIL_TEST));
    assert(!s3.enabled.contains(BLEND));
    assert(!s3.enabled.contains(DEPTH_TEST));
    assert(!s3.enabled.contains(STENCIL_TEST));
}

/// Setting up render options and then undoing them turns blending and the
/// depth and stencil tests off and makes every colour channel writable,
/// whatever the state before, and binds nothing.
pub proof fn lemma_render_options_set_then_reset(s: GlState, options: RenderOptions)
    ensures
        options_cleared(
            run_commands(s, cmds_set_render_options(options) + cmds_reset_render_options(options)),
        ),
        same_bindings(
            run_commands(s, cmds_set_render_options(options) + cmds_reset_render_options(options)),
            s,
        ),
{
    lemma_run_append(s, cmds_set_render_options(options), cmds_reset_render_options(options));
    lemma_set_render_options_effect(s, options);
    lemma_reset_render_options_effect(run_commands(s, cmds_set_render_options(options)), options);
}

/// Unbinding texture units `0..n` leaves no texture bound to any of them,
/// and changes nothing else but the active unit.
pub proof fn lemma_unbind_textures_effect(s: GlState, n: nat)
    requires
        n + TEXTURE0 <= u32::MAX,
    ensures
        forall|i: int|
            0 <= i < n ==> #[trigger] texture_unit_unbound(run_commands(s, cmds_unbind_textures(n)), i),
        run_commands(s, cmds_unbind_textures(n)).enabled == s.enabled,
        run_commands(s, cmds_unbind_textures(n)).color_mask == s.color_mask,
        run_commands(s, cmds_unbind_textures(n)).stencil_write_mask == s.stencil_write_mask,
        run_commands(s, cmds_unbind_textures(n)).program == s.program,
        run_commands(s, cmds_unbind_textures(n)).vertex_array == s.vertex_array,
        run_commands(s, cmds_unbind_textures(n)).framebuffer == s.framebuffer,
    decreases n,
{
    if n > 0 {
        let k = (n - 1) as nat;
        lemma_unbind_textures_effect(s, k);
        let u = run_commands(s, cmds_unbind_textures(k));
        lemma_run_append(s, cmds_unbind_textures(k), cmds_unbind_texture(k as u32));
        reveal_with_fuel(run_commands, 3);
        let t = run_commands(u, cmds_unbind_texture(k as u32));
        assert(t.active_texture == (TEXTURE0 + k) as u32);
        assert(t.texture_2d == u.texture_2d.insert((TEXTURE0 + k) as u32, 0));
        assert(cmds_unbind_textures(n) == cmds_unbind_textures(k) + cmds_unbind_texture(k as u32));
        assert forall|i: int| 0 <= i < n implies #[trigger] texture_unit_unbound(t, i) by {
            if i < k {
                assert(texture_unit_unbound(u, i));
                assert((TEXTURE0 + i) as u32 != (TEXTURE0 + k) as u32);
            }
        }
    }
}

/// After any draw call, the pipeline that the render state bound is
/// unbound again: no program, no vertex array, no texture on the units the
/// state used; blending and the depth and stencil tests are off and every
/// colour channel is writable.
pub proof fn lemma_draw_arrays_leaves_pipeline_unbound(
    device: &GLDevice,
    index_count: u32,
    state: &RenderState,
    s: GlState,
)
    requires
        state.wf(),
    ensures
        pipeline_unbound(run_commands(s, device.cmds_draw_arrays(index_count, state)), state),
{
    let draw = device.cmds_draw_arrays(index_count, state);
    lemma_draw_leaves_pipeline_unbound(device, state, s, draw[device.cmds_set_render_state(state).len() as int]);
    assert(draw == device.cmds_set_render_state(state) + seq![draw[device.cmds_set_render_state(state).len() as int]] + device.cmds_reset_render_state(state));
}

/// As for `lemma_draw_arrays_leaves_pipeline_unbound`, for indexed draws.
pub proof fn lemma_draw_elements_leaves_pipeline_unbound(
    device: &GLDevice,
    index_count: u32,
    state: &RenderState,
    s: GlState,
)
    requires
        state.wf(),
    ensures
        pipeline_unbound(run_commands(s, device.cmds_draw_elements(index_count, state)), state),
{
    let draw = device.cmds_draw_elements(index_count, state);
    lemma_draw_leaves_pipeline_unbound(device, state, s, draw[device.cmds_set_render_state(state).len() as int]);
    assert(draw == device.cmds_set_render_state(state) + seq![draw[device.cmds_set_render_state(state).len() as int]] + device.cmds_reset_render_state(state));
}

/// As for `lemma_draw_arrays_leaves_pipeline_unbound`, for instanced draws.
pub proof fn lemma_draw_elements_instanced_leaves_pipeline_unbound(
    device: &GLDevice,
    index_count: u32,
    instance_count: u32,
    state: &RenderState,
    s: GlState,
)
    requires
        state.wf(),
    ensures
        pipeline_unbound(
            run_commands(s, device.cmds_draw_elements_instanced(index_count, instance_count, state)),
            state,
        ),
{
    let draw = device.cmds_draw_elements_instanced(index_count, instance_count, state);
    lemma_draw_leaves_pipeline_unbound(device, state, s, draw[device.cmds_set_render_state(state).len() as int]);
    assert(draw == device.cmds_set_render_state(state) + seq![draw[device.cmds_set_render_state(state).len() as int]] + device.cmds_reset_render_state(state));
}

/// Nothing of a render state stays bound: no program, no vertex array, no
/// texture on the units it used; its render options are undone.
pub open spec fn pipeline_unbound(t: GlState, state: &RenderState) -> bool {
    &&& t.program == 0
    &&& t.vertex_array == 0
    &&& forall|i: int| 0 <= i < state.textures@.len() ==> #[trigger] texture_unit_unbound(t, i)
    &&& options_cleared(t)
}

/// Setting up a render state, performing one draw command and undoing the
/// render state leaves the pipeline unbound.
proof fn lemma_draw_leaves_pipeline_unbound(
    device: &GLDevice,
    state: &RenderState,
    s: GlState,
    draw: GlCommand,
)
    requires
        state.wf(),
        !(draw is Enable || draw is Disable || draw is ColorMask || draw is StencilMask
            || draw is UseProgram || draw is BindVertexArray || draw is ActiveTexture
            || draw is BindTexture || draw is BindFramebuffer || draw is DepthMask
            || draw is DepthFunc || draw is ClearStencil || draw is Viewport
            || draw is BlendEquation || draw is BlendFunc || draw is BlendFuncSeparate
            || draw is StencilFunc || draw is StencilOp || draw is TexParameteri
            || draw is FramebufferTexture2D || draw is ShaderSource || draw is CompileShader
            || draw is AttachShader || draw is LinkProgram),
    ensures
        pipeline_unbound(
            run_commands(
                s,
                device.cmds_set_render_state(state) + seq![draw] + device.cmds_reset_render_state(
                    state,
                ),
            ),
            state,
        ),
{
    let set = device.cmds_set_render_state(state);
    let reset = device.cmds_reset_render_state(state);
    let opts = cmds_set_render_options(state.options);
    let prefix = set.subrange(0, set.len() - opts.len());
    assert(set == prefix + opts);
    lemma_run_append(s, prefix, opts);
    lemma_set_render_options_effect(run_commands(s, prefix), state.options);
    let s_set = run_commands(s, set);
    lemma_run_append(s, set, seq![draw]);
    lemma_run_single(s_set, draw);
    let s_drawn = run_commands(s, set + seq![draw]);
    assert(s_drawn == s_set);
    lemma_run_append(s, set + seq![draw], reset);

    let r1 = cmds_reset_render_options(state.options);
    let r2 = cmds_unbind_textures(state.textures@.len());
    let r3 = seq![GlCommand::UseProgram { program: 0 }, GlCommand::BindVertexArray { array: 0 }];
    assert(reset == r1 + r2 + r3);
    lemma_run_append(s_drawn, r1, r2);
    lemma_run_append(s_drawn, r1 + r2, r3);
    lemma_reset_render_options_effect(s_drawn, state.options);
    let t1 = run_commands(s_drawn, r1);
    lemma_unbind_textures_effect(t1, state.textures@.len());
    let t2 = run_commands(t1, r2);
    reveal_with_fuel(run_commands, 3);
    let t3 = run_commands(t2, r3);
    assert(t3.texture_2d == t2.texture_2d);
    assert(t3.enabled == t2.enabled);
    assert forall|i: int| 0 <= i < state.textures@.len() implies #[trigger] texture_unit_unbound(t3, i) by {
        assert(texture_unit_unbound(t2, i));
    }
}

/// Pointing a vertex attribute at its data leaves no vertex array bound.
pub proof fn lemma_configure_vertex_attr_unbinds_vertex_array(
    vertex_array: &GLVertexArray,
    attr: &GLVertexAttr,
    descriptor: VertexAttrDescriptor,
    s: GlState,
)
    ensures
        run_commands(
            s,
            GLDevice::cmds_configure_vertex_attr(vertex_array, attr, descriptor),
        ).vertex_array == 0,
{
    let cmds = GLDevice::cmds_configure_vertex_attr(vertex_array, attr, descriptor);
    let n = cmds.len() as int;
    assert(cmds == cmds.subrange(0, n - 1).push(GlCommand::BindVertexArray { array: 0 }));
    lemma_run_push(s, cmds.subrange(0, n - 1), GlCommand::BindVertexArray { array: 0 });
}

/// Binding a buffer within a vertex array leaves no vertex array bound.
pub proof fn lemma_bind_buffer_unbinds_vertex_array(
    vertex_array: &GLVertexArray,
    buffer: &GLBuffer,
    target: BufferTarget,
    s: GlState,
)
    ensures
        run_commands(s, GLDevice::cmds_bind_buffer(vertex_array, buffer, target)).vertex_array == 0,
{
    reveal_with_fuel(run_commands, 4);
}

} // verus!
