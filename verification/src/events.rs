//! The telemetry events a simulation publishes, and the fixed color mapping
//! a renderer resolves an access channel to.

use vstd::prelude::*;

verus! {

/// A simulated pixel rasterized at `(x, y)` with an rgb color.  Coordinates
/// may be negative or outside the visible frame; consumers clip them, they
/// are never rejected.
#[derive(Clone, Copy, Debug, PartialEq, Eq)]
pub struct PixelEvent {
    pub x: i16,
    pub y: i16,
    pub color: (u8, u8, u8),
}

/// A memory read issued on one of the four logical access channels.  A
/// channel id outside `0..=3` is a producer contract violation, detected
/// when the renderer resolves the channel's color.
#[derive(Clone, Copy, Debug, PartialEq, Eq, Structural)]
pub struct AddressReadEvent {
    pub channel_id: u8,
    pub addr: u32,
}

/// A memory address requested but not yet resolved to a read.
#[derive(Clone, Copy, Debug, PartialEq, Eq, Structural)]
pub struct AddressRequestEvent {
    pub addr: u32,
}

/// The channel ids the producer contract allows.
pub open spec fn valid_channel(channel_id: u8) -> bool {
    channel_id < 4
}

/// The fixed visualization color of an access channel: red, green, blue,
/// magenta for channels 0 to 3.  Any other id is a contract violation and
/// yields no color at all, so it is detected before any color mapping.
pub fn channel_color(channel_id: u8) -> (r: Option<(u8, u8, u8)>)
    ensures
        r is Some <==> valid_channel(channel_id),
        channel_id == 0 ==> r == Some((255u8, 0u8, 0u8)),
        channel_id == 1 ==> r == Some((0u8, 255u8, 0u8)),
        channel_id == 2 ==> r == Some((0u8, 0u8, 255u8)),
        channel_id == 3 ==> r == Some((255u8, 0u8, 255u8)),
{
    match channel_id {
        0 => Some((255, 0, 0)),
        1 => Some((0, 255, 0)),
        2 => Some((0, 0, 255)),
        3 => Some((255, 0, 255)),
        _ => None,
    }
}

} // verus!
