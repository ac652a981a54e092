//! Shared frame slot.
//!
//! A single storage cell for the latest published frame. Its content is
//! either absent (no frame published yet) or a complete, tightly packed
//! RGBA frame of exactly `width * 4 * height` bytes: a partial frame is
//! never visible. The writer replaces the whole value; readers copy the
//! bytes out. Mutual exclusion around the cell is the embedding's
//! concern and is kept outside the slot itself.

use vstd::prelude::*;

verus! {

/// Latest-frame storage: an optional tightly packed RGBA buffer together
/// with its pixel dimensions.
pub struct FrameSlot {
    /// The latest published frame, if any.
    pub frame: Option<Vec<u8>>,
    /// Frame width in pixels.
    pub width: u32,
    /// Frame height in pixels.
    pub height: u32,
}

impl FrameSlot {
    /// The slot is empty or holds a complete unpadded frame.
    pub open spec fn wf(self) -> bool {
        match self.frame {
            Option::Some(b) => b@.len() == self.width as int * 4 * self.height as int,
            Option::None => true,
        }
    }

    /// An empty slot for frames of the given dimensions.
    pub fn new(width: u32, height: u32) -> (r: FrameSlot)
        ensures
            r.wf(),
            r.frame is None,
            r.width == width,
            r.height == height,
    {
        FrameSlot { frame: None, width, height }
    }

    /// Whether a frame has been published.
    pub fn has_frame(&self) -> (r: bool)
        ensures
            r == (self.frame is Some),
    {
        self.frame.is_some()
    }

    /// Replaces the slot's content with a complete frame.
    pub fn publish(&mut self, rgba: Vec<u8>)
        requires
            rgba@.len() == old(self).width as int * 4 * old(self).height as int,
        ensures
            final(self).wf(),
            final(self).frame == Some(rgba),
            final(self).width == old(self).width,
            final(self).height == old(self).height,
    {
        self.frame = Some(rgba);
    }

    /// Copies the current frame bytes out of the slot, if any.
    pub fn snapshot(&self) -> (r: Option<Vec<u8>>)
        ensures
            r is Some <==> self.frame is Some,
            r is Some ==> r.unwrap()@ == self.frame.unwrap()@,
    {
        match &self.frame {
            Some(bytes) => Some(clone_bytes(bytes)),
            None => None,
        }
    }
}

/// A fresh byte vector with the same contents.
pub fn clone_bytes(v: &Vec<u8>) -> (r: Vec<u8>)
    ensures
        r@ == v@,
{
    let mut out: Vec<u8> = Vec::new();
    let mut i: usize = 0;
    while i < v.len()
        invariant
            i <= v@.len(),
            out@ == v@.take(i as int),
        decreases v@.len() - i,
    {
        out.push(v[i]);
        proof {
            assert(out@ == v@.take(i as int + 1));
        }
        i += 1;
    }
    proof {
        assert(v@.take(v@.len() as int) == v@);
    }
    out
}

} // verus!
