//! The OpenGL calls that the device plans, as values.
//!
//! Each variant is one OpenGL entry point with its arguments. Arguments that
//! point into caller memory (pixel data, buffer contents) or that are
//! floating point (clear colour, clear depth, uniform values) are not held
//! here: the variant says where the caller takes them from.

use vstd::prelude::*;

verus! {

#[derive(Clone, Copy, Debug, PartialEq, Eq, Structural)]
pub enum GlCommand {
    /// `glActiveTexture(texture)`.
    ActiveTexture { texture: u32 },
    /// `glBindTexture(target, texture)`.
    BindTexture { target: u32, texture: u32 },
    /// `glTexParameteri(target, pname, param)`.
    TexParameteri { target: u32, pname: u32, param: i32 },
    /// `glTexImage2D(...)`; `with_data` says whether the pixels come from
    /// the caller's data (`true`) or the texture is left uninitialized
    /// (`false`, a null pointer).
    TexImage2D {
        target: u32,
        level: i32,
        internal_format: i32,
        width: i32,
        height: i32,
        border: i32,
        format: u32,
        ty: u32,
        with_data: bool,
    },
    /// `glViewport(x, y, width, height)`.
    Viewport { x: i32, y: i32, width: i32, height: i32 },
    /// `glUseProgram(program)`.
    UseProgram { program: u32 },
    /// `glShaderSource(shader, 1, [<the planned shader source>], [length])`.
    ShaderSource { shader: u32, length: i32 },
    /// `glCompileShader(shader)`.
    CompileShader { shader: u32 },
    /// `glAttachShader(program, shader)`.
    AttachShader { program: u32, shader: u32 },
    /// `glLinkProgram(program)`.
    LinkProgram { program: u32 },
    /// `glBindVertexArray(array)`.
    BindVertexArray { array: u32 },
    /// `glEnable(cap)`.
    Enable { cap: u32 },
    /// `glDisable(cap)`.
    Disable { cap: u32 },
    /// `glBlendEquation(mode)`.
    BlendEquation { mode: u32 },
    /// `glBlendFunc(sfactor, dfactor)`.
    BlendFunc { sfactor: u32, dfactor: u32 },
    /// `glBlendFuncSeparate(src_rgb, dst_rgb, src_alpha, dst_alpha)`.
    BlendFuncSeparate { src_rgb: u32, dst_rgb: u32, src_alpha: u32, dst_alpha: u32 },
    /// `glDepthFunc(func)`.
    DepthFunc { func: u32 },
    /// `glDepthMask(flag)`.
    DepthMask { flag: u8 },
    /// `glStencilFunc(func, reference, mask)`.
    StencilFunc { func: u32, reference: i32, mask: u32 },
    /// `glStencilOp(sfail, dpfail, dppass)`.
    StencilOp { sfail: u32, dpfail: u32, dppass: u32 },
    /// `glStencilMask(mask)`.
    StencilMask { mask: u32 },
    /// `glColorMask(red, green, blue, alpha)`.
    ColorMask { red: u8, green: u8, blue: u8, alpha: u8 },
    /// `glClearColor` with the clear colour of the caller's clear operations.
    ClearColor,
    /// `glClearDepthf` with the clear depth of the caller's clear operations.
    ClearDepth,
    /// `glClearStencil(s)`.
    ClearStencil { s: i32 },
    /// `glClear(mask)`.
    Clear { mask: u32 },
    /// `glBindFramebuffer(target, framebuffer)`.
    BindFramebuffer { target: u32, framebuffer: u32 },
    /// `glFramebufferTexture2D(target, attachment, textarget, texture, level)`.
    FramebufferTexture2D { target: u32, attachment: u32, textarget: u32, texture: u32, level: i32 },
    /// `glBindBuffer(target, buffer)`.
    BindBuffer { target: u32, buffer: u32 },
    /// `glBufferData(target, size, data, usage)`; `with_data` says whether
    /// the contents come from the caller's memory (`true`) or are left
    /// uninitialized (`false`, a null pointer).
    BufferData { target: u32, byte_size: isize, with_data: bool, usage: u32 },
    /// `glVertexAttribPointer(index, size, ty, normalized, stride, offset)`.
    VertexAttribPointer { index: u32, size: i32, ty: u32, normalized: u8, stride: i32, offset: usize },
    /// `glVertexAttribIPointer(index, size, ty, stride, offset)`.
    VertexAttribIPointer { index: u32, size: i32, ty: u32, stride: i32, offset: usize },
    /// `glVertexAttribDivisor(index, divisor)`.
    VertexAttribDivisor { index: u32, divisor: u32 },
    /// `glEnableVertexAttribArray(index)`.
    EnableVertexAttribArray { index: u32 },
    /// `glUniform1i(location, value)`.
    Uniform1i { location: i32, value: i32 },
    /// `glUniform1f(location, <float value>)`, the value being entry
    /// `value_index` of the caller's uniform values.
    Uniform1f { location: i32, value_index: usize },
    /// `glUniform2f(location, <vec2 value>)`, from entry `value_index`.
    Uniform2f { location: i32, value_index: usize },
    /// `glUniform4f(location, <vec4 value>)`, from entry `value_index`.
    Uniform4f { location: i32, value_index: usize },
    /// `glUniformMatrix2fv(location, 1, FALSE, <mat2 value>)`, from entry
    /// `value_index`.
    UniformMatrix2fv { location: i32, value_index: usize },
    /// `glUniformMatrix4fv(location, 1, FALSE, <mat4 value>)`, from entry
    /// `value_index`.
    UniformMatrix4fv { location: i32, value_index: usize },
    /// `glDrawArrays(mode, first, count)`.
    DrawArrays { mode: u32, first: i32, count: i32 },
    /// `glDrawElements(mode, count, ty, null)`.
    DrawElements { mode: u32, count: i32, ty: u32 },
    /// `glDrawElementsInstanced(mode, count, ty, null, instance_count)`.
    DrawElementsInstanced { mode: u32, count: i32, ty: u32, instance_count: i32 },
    /// `glReadPixels(x, y, width, height, format, ty, <caller's buffer>)`.
    ReadPixels { x: i32, y: i32, width: i32, height: i32, format: u32, ty: u32 },
    /// `glBeginQuery(target, id)`.
    BeginQuery { target: u32, id: u32 },
    /// `glEndQuery(target)`.
    EndQuery { target: u32 },
    /// `glFlush()`.
    Flush,
    /// `glDeleteVertexArrays(1, &array)`.
    DeleteVertexArray { array: u32 },
    /// `glDeleteFramebuffers(1, &framebuffer)`.
    DeleteFramebuffer { framebuffer: u32 },
    /// `glDeleteBuffers(1, &buffer)`.
    DeleteBuffer { buffer: u32 },
    /// `glDeleteProgram(program)`.
    DeleteProgram { program: u32 },
    /// `glDeleteShader(shader)`.
    DeleteShader { shader: u32 },
    /// `glDeleteQueries(1, &query)`.
    DeleteQuery { query: u32 },
}

} // verus!
