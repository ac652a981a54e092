//! Presentation protocol handler.
//!
//! A stateless request handler keyed by a logical resource name serves
//! the shared frame slot under several encodings: `frame` (or
//! `frame.jpg`) as a JPEG payload, `frame.raw` as the verbatim RGBA
//! octet stream, and `stats` as the current statistics snapshot. Unknown
//! names yield a not-found result; frame resources yield a not-ready
//! result while the slot is still empty. The handler never waits for a
//! frame. Turning an outcome into a wire response is the embedding's
//! concern.

use crate::config::JPEG_QUALITY;
use crate::encode::{
    jpeg_encode_rgb, jpeg_of, lemma_strip_alpha_len, rgba_to_rgb, spec_strip_alpha,
};
use crate::slot::FrameSlot;
use crate::stats::PerformanceStats;
use vstd::prelude::*;
use vstd::string::StringSliceAdditionalSpecFns;

verus! {

/// The logical resource a request path resolves to.
#[derive(Clone, Copy, PartialEq, Eq, Structural, Debug)]
pub enum Resource {
    /// The JPEG-compressed frame.
    Jpeg,
    /// The raw RGBA frame.
    Raw,
    /// The performance statistics.
    Stats,
    /// No known resource.
    Unknown,
}

/// The typed result of serving a request.
#[derive(Debug)]
pub enum RequestOutcome {
    /// A JPEG payload with its pixel dimensions.
    Jpeg { data: Vec<u8>, width: u32, height: u32 },
    /// The verbatim frame bytes with their pixel dimensions.
    Raw { data: Vec<u8>, width: u32, height: u32 },
    /// The statistics snapshot.
    Stats { stats: PerformanceStats },
    /// A frame resource was asked for before any frame was published.
    NotReady,
    /// The frame's dimensions cannot be JPEG-encoded.
    EncodeFailed,
    /// The path names no known resource.
    NotFound,
}

/// `s` with every leading slash removed.
pub open spec fn spec_trim_slashes(s: Seq<char>) -> Seq<char>
    decreases s.len(),
{
    if s.len() > 0 && s[0] == '/' {
        spec_trim_slashes(s.drop_first())
    } else {
        s
    }
}

/// Which resource a request path names, after leading slashes.
pub open spec fn spec_resolve(path: Seq<char>) -> Resource {
    let name = spec_trim_slashes(path);
    if name == "frame"@ || name == "frame.jpg"@ {
        Resource::Jpeg
    } else if name == "frame.raw"@ {
        Resource::Raw
    } else if name == "stats"@ {
        Resource::Stats
    } else {
        Resource::Unknown
    }
}

/// Whether two string slices hold the same characters.
pub fn str_eq(a: &str, b: &str) -> (r: bool)
    ensures
        r == (a@ == b@),
{
    let ab = a.as_bytes();
    let bb = b.as_bytes();
    let n = ab.len();
    if n != bb.len() {
        proof {
            if a@ == b@ {
                assert(a.spec_bytes() == b.spec_bytes());
            }
        }
        return false;
    }
    let mut i: usize = 0;
    while i < n
        invariant
            i <= n,
            n == ab@.len(),
            n == bb@.len(),
            ab@ == a.spec_bytes(),
            bb@ == b.spec_bytes(),
            forall|k: int| 0 <= k < i ==> ab@[k] == bb@[k],
        decreases n - i,
    {
        if ab[i] != bb[i] {
            proof {
                if a@ == b@ {
                    assert(a.spec_bytes() == b.spec_bytes());
                }
            }
            return false;
        }
        i += 1;
    }
    proof {
        assert(ab@ =~= bb@);
        vstd::utf8::encode_utf8_decode_utf8(a@);
        vstd::utf8::encode_utf8_decode_utf8(b@);
    }
    true
}

/// Returns `s` with its leading slashes removed.
pub fn trim_leading_slashes<'a>(s: &'a str) -> (r: &'a str)
    ensures
        r@ == spec_trim_slashes(s@),
{
    let n = s.unicode_len();
    let mut i: usize = 0;
    proof {
        assert(s@.skip(0) == s@);
    }
    while i < n && s.get_char(i) == '/'
        invariant
            i <= n,
            n == s@.len(),
            spec_trim_slashes(s@) == spec_trim_slashes(s@.skip(i as int)),
        decreases n - i,
    {
        proof {
            assert(s@.skip(i as int).drop_first() == s@.skip(i as int + 1));
        }
        i += 1;
    }
    proof {
        let tail = s@.skip(i as int);
        if i < n {
            assert(tail[0] != '/');
        }
        assert(spec_trim_slashes(tail) == tail);
    }
    s.substring_char(i, n)
}

/// Resolves a request path to the resource it names.
pub fn resolve_resource(uri_path: &str) -> (r: Resource)
    ensures
        r == spec_resolve(uri_path@),
{
    let name = trim_leading_slashes(uri_path);
    if str_eq(name, "frame") || str_eq(name, "frame.jpg") {
        Resource::Jpeg
    } else if str_eq(name, "frame.raw") {
        Resource::Raw
    } else if str_eq(name, "stats") {
        Resource::Stats
    } else {
        Resource::Unknown
    }
}

/// Serves the JPEG-compressed frame: the slot's pixels with alpha
/// dropped, encoded at the configured quality; not-ready while the slot
/// is empty.
pub fn handle_jpeg_frame(slot: &FrameSlot) -> (r: RequestOutcome)
    requires
        slot.wf(),
    ensures
        slot.frame is None ==> r matches RequestOutcome::NotReady,
        slot.frame is Some && 1 <= slot.width <= 65535 && 1 <= slot.height <= 65535 ==> (r matches
            RequestOutcome::Jpeg { data, width, height } && data@ == jpeg_of(
            spec_strip_alpha(slot.frame.unwrap()@),
            slot.width as int,
            slot.height as int,
            JPEG_QUALITY as int,
        ) && width == slot.width && height == slot.height),
        slot.frame is Some && !(1 <= slot.width <= 65535 && 1 <= slot.height <= 65535)
            ==> r matches RequestOutcome::EncodeFailed,
{
    let frame = match &slot.frame {
        Some(bytes) => bytes,
        None => {
            return RequestOutcome::NotReady;
        },
    };
    let rgb = rgba_to_rgb(frame);
    proof {
        lemma_strip_alpha_len(frame@);
        vstd::arithmetic::div_mod::lemma_div_by_multiple(
            slot.width as int * slot.height as int,
            4,
        );
        assert(frame@.len() as int / 4 == slot.width as int * slot.height as int) by {
            assert(slot.width as int * 4 * slot.height as int == slot.width as int * slot.height
                as int * 4) by (nonlinear_arith);
        }
        assert(rgb@.len() == 3 * slot.width as int * slot.height as int) by (nonlinear_arith)
            requires
                rgb@.len() == slot.width as int * slot.height as int * 3,
        ;
    }
    match jpeg_encode_rgb(&rgb, slot.width, slot.height, JPEG_QUALITY) {
        Some(data) => RequestOutcome::Jpeg { data, width: slot.width, height: slot.height },
        None => RequestOutcome::EncodeFailed,
    }
}

/// Serves the raw RGBA frame verbatim; not-ready while the slot is
/// empty.
pub fn handle_raw_frame(slot: &FrameSlot) -> (r: RequestOutcome)
    requires
        slot.wf(),
    ensures
        slot.frame is None ==> r matches RequestOutcome::NotReady,
        slot.frame is Some ==> (r matches RequestOutcome::Raw { data, width, height } && data@
            == slot.frame.unwrap()@ && width == slot.width && height == slot.height),
{
    match slot.snapshot() {
        Some(data) => RequestOutcome::Raw { data, width: slot.width, height: slot.height },
        None => RequestOutcome::NotReady,
    }
}

/// Serves the current statistics snapshot.
pub fn handle_stats(stats: &PerformanceStats) -> (r: RequestOutcome)
    ensures
        r matches RequestOutcome::Stats { stats: s } && s == *stats,
{
    RequestOutcome::Stats { stats: *stats }
}

/// Serves one request against the shared frame slot and the statistics,
/// keyed by the resource the path names.
pub fn handle_frame_protocol(uri_path: &str, slot: &FrameSlot, stats: &PerformanceStats) -> (r:
    RequestOutcome)
    requires
        slot.wf(),
    ensures
        spec_resolve(uri_path@) == Resource::Jpeg ==> {
            &&& (slot.frame is None ==> r matches RequestOutcome::NotReady)
            &&& (slot.frame is Some && 1 <= slot.width <= 65535 && 1 <= slot.height <= 65535 ==> (
            r matches RequestOutcome::Jpeg { data, width, height } && data@ == jpeg_of(
                spec_strip_alpha(slot.frame.unwrap()@),
                slot.width as int,
                slot.height as int,
                JPEG_QUALITY as int,
            ) && width == slot.width && height == slot.height))
            &&& (slot.frame is Some && !(1 <= slot.width <= 65535 && 1 <= slot.height <= 65535)
                ==> r matches RequestOutcome::EncodeFailed)
        },
        spec_resolve(uri_path@) == Resource::Raw ==> {
            &&& (slot.frame is None ==> r matches RequestOutcome::NotReady)
            &&& (slot.frame is Some ==> (r matches RequestOutcome::Raw { data, width, height }
                && data@ == slot.frame.unwrap()@ && width == slot.width && height == slot.height))
        },
        spec_resolve(uri_path@) == Resource::Stats ==> (r matches RequestOutcome::Stats {
            stats: s,
        } && s == *stats),
        spec_resolve(uri_path@) == Resource::Unknown ==> r matches RequestOutcome::NotFound,
{
    match resolve_resource(uri_path) {
        Resource::Jpeg => handle_jpeg_frame(slot),
        Resource::Raw => handle_raw_frame(slot),
        Resource::Stats => handle_stats(stats),
        Resource::Unknown => RequestOutcome::NotFound,
    }
}

} // verus!
