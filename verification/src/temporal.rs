//! The temporal resolver.
//!
//! Converts elapsed wall-clock time, a frame rate and a playback speed
//! into an integer frame index, then applies the looping policy: wrap
//! modulo the animation length when looping, hold the last frame when
//! not. A zero-length animation always resolves to frame 0.

use vstd::prelude::*;
use crate::fx::{Fx, FX_ONE};

verus! {

/// Elapsed time is capped at this many milliseconds (about 35 years),
/// which keeps the frame product inside the intermediate integer width.
pub const MAX_ELAPSED_MS: u64 = 0x10_0000_0000_0000;

/// The raw frame that `elapsed_ms` of playback reaches:
/// `floor(seconds * fps * speed)`, with `speed` in fixed point.
pub open spec fn raw_frame_spec(elapsed_ms: int, fps: int, speed: int) -> int {
    (elapsed_ms * fps * speed) / (1000 * FX_ONE as int)
}

/// The looping policy over a raw frame index.
///
/// Looping wraps modulo the length; otherwise the last frame holds.
/// A zero-length animation resolves to frame 0.
pub open spec fn wrap_frame_spec(raw: int, length: int, looping: bool) -> int {
    if length <= 0 {
        0
    } else if looping {
        raw % length
    } else if raw >= length {
        length - 1
    } else {
        raw
    }
}

/// Apply the looping policy to an explicitly supplied frame.
pub fn wrap_frame(frame: u32, length: u32, looping: bool) -> (r: u32)
    ensures
        r == wrap_frame_spec(frame as int, length as int, looping),
        length > 0 ==> r < length,
{
    if length == 0 {
        0
    } else if looping {
        frame % length
    } else if frame >= length {
        length - 1
    } else {
        frame
    }
}

/// Resolve elapsed time to a frame index under the looping policy.
pub fn resolve_frame(elapsed_ms: u64, fps: u32, speed: Fx, length: u32, looping: bool) -> (r: u32)
    requires
        speed.wf(),
        speed.v() >= 0,
        elapsed_ms <= MAX_ELAPSED_MS,
    ensures
        r == wrap_frame_spec(
            raw_frame_spec(elapsed_ms as int, fps as int, speed.v()),
            length as int,
            looping,
        ),
        length > 0 ==> r < length,
{
    proof {
        assert(elapsed_ms * fps < 0x1_0000_0000_0000_0000_0000_0000
            && elapsed_ms * fps * speed.bits < 0x1_0000_0000_0000_0000_0000_0000_0000_0000)
            by (nonlinear_arith)
            requires
                0 <= elapsed_ms <= MAX_ELAPSED_MS,
                0 <= fps < 0x1_0000_0000,
                0 <= speed.bits <= 0x4000_0000,
        ;
    }
    let raw: u128 = (elapsed_ms as u128) * (fps as u128) * (speed.bits as u128)
        / ((1000 * FX_ONE) as u128);
    if length == 0 {
        0
    } else if looping {
        (raw % (length as u128)) as u32
    } else if raw >= length as u128 {
        length - 1
    } else {
        raw as u32
    }
}

} // verus!
