use vstd::prelude::*;

verus! {

/// The number of bytes to read of an OpenGL info log whose reported length,
/// `reported`, counts a trailing NUL byte that is not read.
pub fn info_log_len(reported: i32) -> (n: usize)
    requires
        reported >= 1,
    ensures
        n == reported - 1,
{
    (reported - 1) as usize
}

} // verus!
