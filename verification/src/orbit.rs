//! The zoom of the orbit camera.
//!
//! The camera circles the origin at a distance that scrolling changes. The
//! host adds up the new distance in single precision; what the distance may
//! be, how coarse each kind of scroll input is, and when a vector can be
//! scaled to unit length are settled here, on bit patterns.
use crate::binary32::{
    at_most, clamp, clamped, is_finite, is_nan, is_negative, less, magnitude, INFINITY, SIGN_BIT,
    ZERO,
};
use vstd::prelude::*;

verus! {

/// The encoding of `6.5`, the nearest that the camera comes to the origin.
pub const MIN_RADIUS: u32 = 0x40D0_0000;

/// The encoding of `20.0`, the farthest that the camera goes from the origin.
pub const MAX_RADIUS: u32 = 0x41A0_0000;

/// The encoding of `5.0`, the speed of the camera in units per second and per
/// unit of input.
pub const SPEED: u32 = 0x40A0_0000;

/// The encoding of `0.01`, the share of a scroll by lines that becomes zoom.
pub const LINE_SENSITIVITY: u32 = 0x3C23_D70A;

/// The encoding of `0.1`, the share of a scroll by pixels that becomes zoom.
pub const PIXEL_SENSITIVITY: u32 = 0x3DCC_CCCD;

/// The unit that a scroll event counts in.
#[derive(Clone, Copy, Debug, PartialEq, Eq, Structural)]
pub enum ScrollUnit {
    /// Discrete steps of a wheel.
    Line,
    /// Continuous travel, as of a touchpad.
    Pixel,
}

/// Whether a distance lies within the camera's limits.
pub open spec fn within_limits(radius: u32) -> bool {
    at_most(MIN_RADIUS, radius) && at_most(radius, MAX_RADIUS)
}

/// The sensitivity for a unit of scroll input.
pub open spec fn sensitivity_of(unit: ScrollUnit) -> u32 {
    match unit {
        ScrollUnit::Line => LINE_SENSITIVITY,
        ScrollUnit::Pixel => PIXEL_SENSITIVITY,
    }
}

/// The distance that the camera takes when the scroll input asks for
/// `candidate`.
pub open spec fn zoomed(candidate: u32) -> u32 {
    clamped(candidate, MIN_RADIUS, MAX_RADIUS)
}

/// The distances that the camera takes, one after the other, when the scroll
/// input asks for each of `candidates` in turn.
pub open spec fn zoomed_all(candidates: Seq<u32>) -> Seq<u32> {
    Seq::new(candidates.len(), |k: int| zoomed(candidates[k]))
}

/// Whether a length is one that a vector can be divided by: a number above
/// zero, and not infinite.
pub open spec fn is_unit_divisor(length: u32) -> bool {
    !is_negative(length) && magnitude(length) != 0 && is_finite(length)
}

/// The share of a scroll event's amount that becomes zoom: less for steps of
/// a wheel than for continuous travel.
pub fn sensitivity(unit: ScrollUnit) -> (bits: u32)
    ensures
        bits == sensitivity_of(unit),
        less(ZERO, bits),
        less(LINE_SENSITIVITY, PIXEL_SENSITIVITY),
{
    match unit {
        ScrollUnit::Line => LINE_SENSITIVITY,
        ScrollUnit::Pixel => PIXEL_SENSITIVITY,
    }
}

/// Holds a distance within the camera's limits.
///
/// A distance below the nearest is pinned to the nearest, one above the
/// farthest to the farthest, and one between them stays as it is. A NaN
/// comes back as it went in.
pub fn clamp_radius(candidate: u32) -> (radius: u32)
    ensures
        radius == zoomed(candidate),
        !is_nan(candidate) ==> within_limits(radius),
        less(candidate, MIN_RADIUS) ==> radius == MIN_RADIUS,
        less(MAX_RADIUS, candidate) ==> radius == MAX_RADIUS,
        within_limits(candidate) ==> radius == candidate,
        is_nan(candidate) ==> radius == candidate,
{
    clamp(candidate, MIN_RADIUS, MAX_RADIUS)
}

/// Tells whether a vector of this length can be scaled to unit length: the
/// length is above zero and not infinite, so that dividing by it is defined.
pub fn can_normalize(length: u32) -> (ok: bool)
    ensures
        ok == is_unit_divisor(length),
        ok ==> less(ZERO, length) && !is_nan(length),
{
    length > ZERO && length < INFINITY && length < SIGN_BIT
}

/// After any sequence of zoom updates the camera is within its limits: each
/// distance that it takes lies between the nearest and the farthest, as long
/// as the distance asked for was a number; and where the input asked for more
/// than a limit allows, the camera stands at that limit.
pub proof fn zoom_stays_within_limits(candidates: Seq<u32>)
    requires
        forall|k: int| 0 <= k < candidates.len() ==> !is_nan(#[trigger] candidates[k]),
    ensures
        zoomed_all(candidates).len() == candidates.len(),
        forall|k: int|
            0 <= k < candidates.len() ==> within_limits(#[trigger] zoomed_all(candidates)[k]),
        forall|k: int|
            0 <= k < candidates.len() && less(candidates[k], MIN_RADIUS) ==> #[trigger] zoomed_all(
                candidates,
            )[k] == MIN_RADIUS,
        forall|k: int|
            0 <= k < candidates.len() && less(MAX_RADIUS, candidates[k]) ==> #[trigger] zoomed_all(
                candidates,
            )[k] == MAX_RADIUS,
{
}

/// A camera within its limits is never at the origin: its distance can be
/// divided by.
pub proof fn limits_keep_off_origin(radius: u32)
    requires
        within_limits(radius),
    ensures
        is_unit_divisor(radius),
{
}

} // verus!
