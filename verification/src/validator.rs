use vstd::prelude::*;
use crate::codes::{FRAMEBUFFER, FRAMEBUFFER_COMPLETE, NO_ERROR};
use crate::error::ErrorKind;
use crate::gpu;
use sparkle::gl::Gl;

verus! {

/// Both answers of the driver indicate success.
pub open spec fn sound(status: u32, error: u32) -> bool {
    status == FRAMEBUFFER_COMPLETE && error == NO_ERROR
}

/// Judges the two answers that the driver gives after a call that changes
/// state: the framebuffer's status and the head of the error queue.
pub fn validate(status: u32, error: u32) -> (r: Result<(), ErrorKind>)
    ensures
        r is Ok <==> sound(status, error),
        r is Err ==> r == Err::<(), ErrorKind>(ErrorKind::Integrity),
{
    if status == FRAMEBUFFER_COMPLETE && error == NO_ERROR {
        Ok(())
    } else {
        Err(ErrorKind::Integrity)
    }
}

/// Asks the driver for the status of the bound framebuffer and for the
/// head of its error queue, and judges the two answers.
pub fn check(gl: &Gl) -> (r: Result<(), ErrorKind>)
    ensures
        r is Err ==> r == Err::<(), ErrorKind>(ErrorKind::Integrity),
{
    let status = gpu::check_framebuffer_status(gl, FRAMEBUFFER);
    let error = gpu::get_error(gl);
    validate(status, error)
}

} // verus!
