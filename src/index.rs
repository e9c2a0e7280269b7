use vstd::prelude::*;

verus! {

/// Largest frame number the engine can address: its frame indices are 32-bit signed.
pub const MAX_FRAME_INDEX: usize = 2147483647;

/// Whether `n` can be handed to the engine as a frame number.
pub open spec fn valid_frame_index(n: int) -> bool {
    0 <= n <= MAX_FRAME_INDEX
}

/// Converts a frame number to the engine's 32-bit form.
pub fn engine_frame_index(n: usize) -> (r: i32)
    requires
        valid_frame_index(n as int),
    ensures
        r as int == n as int,
{
    n as i32
}

/// Converts a frame number to the engine's 32-bit form, or `None` where it is out of range.
pub fn checked_frame_index(n: usize) -> (r: Option<i32>)
    ensures
        r is Some <==> valid_frame_index(n as int),
        r matches Some(k) ==> k as int == n as int,
{
    if n <= MAX_FRAME_INDEX {
        Some(engine_frame_index(n))
    } else {
        None
    }
}

/// Converts a frame number reported by the engine back to a `usize`.
pub fn frame_number(n: i32) -> (r: usize)
    requires
        n >= 0,
    ensures
        r as int == n as int,
{
    n as usize
}

} // verus!
