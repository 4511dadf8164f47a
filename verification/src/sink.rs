//! A single-slot hand-off for finished frames: the latest frame wins.

use vstd::prelude::*;

verus! {

/// Holds the most recent frame handed over, if any.
pub struct VideoSink {
    inner: Option<Vec<u32>>,
}

impl View for VideoSink {
    type V = Option<Seq<u32>>;

    closed spec fn view(&self) -> Option<Seq<u32>> {
        match self.inner {
            Some(frame) => Some(frame@),
            None => None,
        }
    }
}

impl VideoSink {
    pub fn new() -> (sink: VideoSink)
        ensures
            sink@ is None,
    {
        VideoSink { inner: None }
    }

    /// Takes the frame out.
    pub fn consume(self) -> (frame: Option<Vec<u32>>)
        ensures
            frame is Some <==> self@ is Some,
            frame matches Some(pixels) ==> self@ == Some(pixels@),
    {
        self.inner
    }

    /// Puts `value` in the slot, in place of what was there.
    pub fn append(&mut self, value: Vec<u32>)
        ensures
            final(self)@ == Some(value@),
    {
        self.inner = Some(value);
    }
}

} // verus!
