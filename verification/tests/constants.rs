use pathfinder_gl::glenum;

#[test]
fn enumerants_match_the_gl_bindings() {
    assert_eq!(glenum::TRUE, gl::TRUE);
    assert_eq!(glenum::FALSE, gl::FALSE);
    let pairs: [(u32, u32); 66] = [
        (glenum::NO_ERROR, gl::NO_ERROR),
        (glenum::INVALID_ENUM, gl::INVALID_ENUM),
        (glenum::INVALID_VALUE, gl::INVALID_VALUE),
        (glenum::INVALID_OPERATION, gl::INVALID_OPERATION),
        (glenum::STACK_OVERFLOW, gl::STACK_OVERFLOW),
        (glenum::STACK_UNDERFLOW, gl::STACK_UNDERFLOW),
        (glenum::OUT_OF_MEMORY, gl::OUT_OF_MEMORY),
        (glenum::INVALID_FRAMEBUFFER_OPERATION, gl::INVALID_FRAMEBUFFER_OPERATION),
        (glenum::ZERO, gl::ZERO),
        (glenum::ONE, gl::ONE),
        (glenum::SRC_ALPHA, gl::SRC_ALPHA),
        (glenum::ONE_MINUS_SRC_ALPHA, gl::ONE_MINUS_SRC_ALPHA),
        (glenum::FUNC_ADD, gl::FUNC_ADD),
        (glenum::LINES, gl::LINES),
        (glenum::TRIANGLES, gl::TRIANGLES),
        (glenum::LESS, gl::LESS),
        (glenum::EQUAL, gl::EQUAL),
        (glenum::ALWAYS, gl::ALWAYS),
        (glenum::KEEP, gl::KEEP),
        (glenum::REPLACE, gl::REPLACE),
        (glenum::BLEND, gl::BLEND),
        (glenum::DEPTH_TEST, gl::DEPTH_TEST),
        (glenum::STENCIL_TEST, gl::STENCIL_TEST),
        (glenum::DEPTH_BUFFER_BIT, gl::DEPTH_BUFFER_BIT),
        (glenum::STENCIL_BUFFER_BIT, gl::STENCIL_BUFFER_BIT),
        (glenum::COLOR_BUFFER_BIT, gl::COLOR_BUFFER_BIT),
        (glenum::BYTE, gl::BYTE),
        (glenum::UNSIGNED_BYTE, gl::UNSIGNED_BYTE),
        (glenum::SHORT, gl::SHORT),
        (glenum::UNSIGNED_SHORT, gl::UNSIGNED_SHORT),
        (glenum::UNSIGNED_INT, gl::UNSIGNED_INT),
        (glenum::FLOAT, gl::FLOAT),
        (glenum::HALF_FLOAT, gl::HALF_FLOAT),
        (glenum::RED, gl::RED),
        (glenum::RGBA, gl::RGBA),
        (glenum::R8, gl::R8),
        (glenum::R16F, gl::R16F),
        (glenum::TEXTURE_2D, gl::TEXTURE_2D),
        (glenum::TEXTURE0, gl::TEXTURE0),
        (glenum::TEXTURE_MAG_FILTER, gl::TEXTURE_MAG_FILTER),
        (glenum::TEXTURE_MIN_FILTER, gl::TEXTURE_MIN_FILTER),
        (glenum::TEXTURE_WRAP_S, gl::TEXTURE_WRAP_S),
        (glenum::TEXTURE_WRAP_T, gl::TEXTURE_WRAP_T),
        (glenum::LINEAR, gl::LINEAR),
        (glenum::CLAMP_TO_EDGE, gl::CLAMP_TO_EDGE),
        (glenum::ARRAY_BUFFER, gl::ARRAY_BUFFER),
        (glenum::ELEMENT_ARRAY_BUFFER, gl::ELEMENT_ARRAY_BUFFER),
        (glenum::STATIC_DRAW, gl::STATIC_DRAW),
        (glenum::DYNAMIC_DRAW, gl::DYNAMIC_DRAW),
        (glenum::FRAGMENT_SHADER, gl::FRAGMENT_SHADER),
        (glenum::VERTEX_SHADER, gl::VERTEX_SHADER),
        (glenum::COMPILE_STATUS, gl::COMPILE_STATUS),
        (glenum::LINK_STATUS, gl::LINK_STATUS),
        (glenum::INFO_LOG_LENGTH, gl::INFO_LOG_LENGTH),
        (glenum::FRAMEBUFFER, gl::FRAMEBUFFER),
        (glenum::COLOR_ATTACHMENT0, gl::COLOR_ATTACHMENT0),
        (glenum::FRAMEBUFFER_COMPLETE, gl::FRAMEBUFFER_COMPLETE),
        (glenum::QUERY_RESULT, gl::QUERY_RESULT),
        (glenum::QUERY_RESULT_AVAILABLE, gl::QUERY_RESULT_AVAILABLE),
        (glenum::TIME_ELAPSED, gl::TIME_ELAPSED),
        (glenum::TEXTURE0 + 1, gl::TEXTURE1),
        (glenum::TEXTURE0 + 2, gl::TEXTURE2),
        (glenum::LINES, gl::LINES),
        (glenum::TRIANGLES, gl::TRIANGLES),
        (glenum::ZERO, gl::NONE),
        (glenum::ONE, gl::TRUE as u32),
    ];
    for (ours, bindings) in pairs {
        assert_eq!(ours, bindings);
    }
}
