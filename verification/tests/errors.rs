use pathfinder_gl::error::{ck, GlError};

#[test]
fn no_error_passes() {
    assert_eq!(ck(0), Ok(()));
}

#[test]
fn errors_are_named() {
    let cases: [(u32, &str); 7] = [
        (0x0500, "INVALID_ENUM"),
        (0x0501, "INVALID_VALUE"),
        (0x0502, "INVALID_OPERATION"),
        (0x0506, "INVALID_FRAMEBUFFER_OPERATION"),
        (0x0505, "OUT_OF_MEMORY"),
        (0x0504, "STACK_UNDERFLOW"),
        (0x0503, "STACK_OVERFLOW"),
    ];
    for (code, name) in cases {
        let err = ck(code).unwrap_err();
        assert_eq!(err, GlError { code });
        assert_eq!(err.name(), name);
    }
}

#[test]
fn unknown_error_code() {
    let err = ck(0x1234).unwrap_err();
    assert_eq!(err.code, 0x1234);
    assert_eq!(err.name(), "Unknown");
}
