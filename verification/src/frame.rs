//! The latest-frame store: a single slot holding the most recently captured
//! image, written by the capture scheduler and read (copied out) by HTTP
//! handlers. The slot is swapped whole, so a reader sees either no frame or
//! one complete, previously captured frame — never a torn value.
use vstd::prelude::*;
use vstd::slice::slice_to_vec;

verus! {

/// One captured image: its bytes and the moment of capture, in milliseconds
/// of some monotonic clock. Never mutated after creation.
pub struct FrameBuffer {
    pub bytes: Vec<u8>,
    pub captured_at: u64,
}

impl View for FrameBuffer {
    type V = Seq<u8>;

    open spec fn view(&self) -> Seq<u8> {
        self.bytes@
    }
}

/// The single shared slot with the most recent capture. Empty until the
/// first capture completes. The capture scheduler is its only writer; HTTP
/// handlers read it through `snapshot`, which copies the bytes out so that a
/// slow response never holds the slot.
pub struct LatestFrameStore {
    slot: Option<FrameBuffer>,
}

impl View for LatestFrameStore {
    type V = Option<Seq<u8>>;

    closed spec fn view(&self) -> Option<Seq<u8>> {
        match self.slot {
            Some(f) => Some(f@),
            None => None,
        }
    }
}

/// What the store holds after a `replace`: exactly the new frame,
/// whatever it held before.
pub open spec fn spec_replace(prior: Option<Seq<u8>>, frame: Seq<u8>) -> Option<Seq<u8>> {
    Some(frame)
}

/// What `snapshot` returns: a copy of exactly what the store holds.
pub open spec fn spec_snapshot(held: Option<Seq<u8>>) -> Option<Seq<u8>> {
    held
}

impl LatestFrameStore {
    /// A fresh store holds no frame.
    pub fn new() -> (r: Self)
        ensures
            r@ is None,
    {
        LatestFrameStore { slot: None }
    }

    /// The moment the held frame was captured, if any frame is held.
    pub closed spec fn spec_captured_at(&self) -> Option<u64> {
        match self.slot {
            Some(f) => Some(f.captured_at),
            None => None,
        }
    }

    /// Swaps the stored value for the new frame. The previous value is
    /// dropped whole; no reader can observe a mixture of the two.
    pub fn replace(&mut self, frame: FrameBuffer)
        ensures
            final(self)@ == spec_replace(old(self)@, frame@),
            final(self).spec_captured_at() == Some(frame.captured_at),
    {
        self.slot = Some(frame);
    }

    /// Copies the current frame's bytes out (or reports that none is held),
    /// so the caller can use them without keeping any hold on the store.
    pub fn snapshot(&self) -> (r: Option<Vec<u8>>)
        ensures
            match r {
                Some(v) => self@ == Some(v@),
                None => self@ is None,
            },
            (r is Some) == (spec_snapshot(self@) is Some),
    {
        match &self.slot {
            Some(f) => Some(slice_to_vec(f.bytes.as_slice())),
            None => None,
        }
    }
}

/// After a `replace` of `frame`, a `snapshot` yields exactly `frame`,
/// byte for byte — never the prior value and never a partial value,
/// whatever the store held before.
pub proof fn lemma_replace_then_snapshot(prior: Option<Seq<u8>>, frame: Seq<u8>)
    ensures
        spec_snapshot(spec_replace(prior, frame)) == Some(frame),
        spec_replace(prior, frame) != prior || prior == Some(frame),
{
}

} // verus!
