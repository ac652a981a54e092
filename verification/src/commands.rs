//! Boundary commands.
//!
//! The request-response entry points the presentation layer invokes
//! directly: fetching the current frame as Base64 text with its
//! dimensions, and reading the configured render size. Pointer input
//! and the statistics snapshot have their own entry points in the
//! camera and statistics modules.

use crate::clock::{elapsed_ns, instant_now};
use crate::config::{RENDER_HEIGHT, RENDER_WIDTH};
use crate::encode::{base64_encode, base64_of};
use crate::slot::FrameSlot;
use crate::stats::PerformanceStats;
use vstd::prelude::*;

verus! {

/// A fetched frame: Base64 text of the RGBA bytes plus the pixel
/// dimensions.
#[derive(Debug)]
pub struct FrameResponse {
    /// Base64 text of the frame's RGBA bytes.
    pub data: String,
    /// Frame width in pixels.
    pub width: u32,
    /// Frame height in pixels.
    pub height: u32,
}

/// Why a frame fetch returned nothing.
#[derive(Clone, Copy, PartialEq, Eq, Structural, Debug)]
pub enum FrameError {
    /// No frame has been published yet.
    NotReady,
}

/// Fetches the current frame as Base64 text, recording the fetch and
/// encode durations in the statistics. Fails exactly while the slot is
/// still empty.
pub fn get_frame(slot: &FrameSlot, stats: &mut PerformanceStats) -> (r: Result<
    FrameResponse,
    FrameError,
>)
    requires
        slot.wf(),
        slot.frame is Some ==> 4 * ((slot.frame.unwrap()@.len() + 2) as int / 3) <= usize::MAX,
    ensures
        r is Ok <==> slot.frame is Some,
        r is Ok ==> r.unwrap().data@ == base64_of(slot.frame.unwrap()@) && r.unwrap().width
            == slot.width && r.unwrap().height == slot.height,
        r is Ok ==> *final(stats) == (PerformanceStats {
            boundary_fetch_ns: final(stats).boundary_fetch_ns,
            boundary_serialize_ns: final(stats).boundary_serialize_ns,
            ..*old(stats)
        }),
        r is Err ==> r.unwrap_err() == FrameError::NotReady && *final(stats) == *old(stats),
{
    let cmd_start = instant_now();
    match &slot.frame {
        Some(bytes) => {
            let fetch_ns = elapsed_ns(&cmd_start);
            let encode_start = instant_now();
            let data = base64_encode(bytes.as_slice());
            let encode_ns = elapsed_ns(&encode_start);
            stats.boundary_fetch_ns = fetch_ns;
            stats.boundary_serialize_ns = encode_ns;
            Ok(FrameResponse { data, width: slot.width, height: slot.height })
        },
        None => Err(FrameError::NotReady),
    }
}

/// The configured render resolution.
pub fn get_render_size() -> (r: (u32, u32))
    ensures
        r.0 == RENDER_WIDTH,
        r.1 == RENDER_HEIGHT,
{
    (RENDER_WIDTH, RENDER_HEIGHT)
}

} // verus!
