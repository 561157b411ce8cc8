//! Completion metadata reported by the kernel for one finished request.

use vstd::prelude::*;

verus! {

/// What the kernel reports when one submitted request finishes: a result
/// (a byte count on success, a raw OS error code on failure) and the raw
/// completion flags, handed to the awaiting caller verbatim.
#[derive(Clone, Copy)]
pub struct CompletionMeta {
    /// `Ok(byte_count)` on success, `Err(os_error_code)` on failure.
    pub result: Result<u32, i32>,
    /// Raw completion flags.
    pub flags: u32,
}

/// Decodes the signed result field of a completion entry: a non-negative
/// value is a success count, a negative value is the negated OS error code.
pub fn get_cqe_result(res: i32) -> (r: Result<u32, i32>)
    requires
        res != i32::MIN,
    ensures
        res >= 0 ==> r == Result::<u32, i32>::Ok(res as u32),
        res < 0 ==> r == Result::<u32, i32>::Err(-res as i32),
{
    if res >= 0 {
        Ok(res as u32)
    } else {
        Err(-res)
    }
}

} // verus!
