//! Classification of the codes that `glGetError` reports.

use vstd::prelude::*;
use crate::glenum::{
    NO_ERROR, INVALID_ENUM, INVALID_VALUE, INVALID_OPERATION, INVALID_FRAMEBUFFER_OPERATION,
    OUT_OF_MEMORY, STACK_UNDERFLOW, STACK_OVERFLOW,
};

verus! {

/// An error that the OpenGL driver reported, by its code.
#[derive(Clone, Copy, Debug, PartialEq, Eq, Structural)]
pub struct GlError {
    pub code: u32,
}

impl GlError {
    /// The name of the error code, or `Unknown` for a code that OpenGL does
    /// not define as an error.
    pub open spec fn spec_name(self) -> Seq<char> {
        if self.code == INVALID_ENUM {
            "INVALID_ENUM"@
        } else if self.code == INVALID_VALUE {
            "INVALID_VALUE"@
        } else if self.code == INVALID_OPERATION {
            "INVALID_OPERATION"@
        } else if self.code == INVALID_FRAMEBUFFER_OPERATION {
            "INVALID_FRAMEBUFFER_OPERATION"@
        } else if self.code == OUT_OF_MEMORY {
            "OUT_OF_MEMORY"@
        } else if self.code == STACK_UNDERFLOW {
            "STACK_UNDERFLOW"@
        } else if self.code == STACK_OVERFLOW {
            "STACK_OVERFLOW"@
        } else {
            "Unknown"@
        }
    }

    pub fn name(&self) -> (r: &'static str)
        ensures
            r@ == self.spec_name(),
    {
        if self.code == INVALID_ENUM {
            "INVALID_ENUM"
        } else if self.code == INVALID_VALUE {
            "INVALID_VALUE"
        } else if self.code == INVALID_OPERATION {
            "INVALID_OPERATION"
        } else if self.code == INVALID_FRAMEBUFFER_OPERATION {
            "INVALID_FRAMEBUFFER_OPERATION"
        } else if self.code == OUT_OF_MEMORY {
            "OUT_OF_MEMORY"
        } else if self.code == STACK_UNDERFLOW {
            "STACK_UNDERFLOW"
        } else if self.code == STACK_OVERFLOW {
            "STACK_OVERFLOW"
        } else {
            "Unknown"
        }
    }
}

/// Checks the code that `glGetError` returned: `Ok` when it is `NO_ERROR`,
/// otherwise the error, which the caller reports as
/// `GL error: 0x<code> (<name>)`.
pub fn ck(err: u32) -> (r: Result<(), GlError>)
    ensures
        r is Ok <==> err == NO_ERROR,
        r is Err ==> r->Err_0 == (GlError { code: err }),
{
    if err != NO_ERROR {
        Err(GlError { code: err })
    } else {
        Ok(())
    }
}

} // verus!
