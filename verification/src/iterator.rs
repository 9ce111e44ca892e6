//! A cursor over the segments of a decoding state's transcript.
//!
//! The iterator visits segment views in index order from zero upward and
//! stops at the first out-of-bounds index, so it yields exactly one view
//! per segment of the transcript it was created over.

use vstd::prelude::*;

use crate::segment::{SegmentRecord, SegmentValue, WhisperSegment};
use crate::state::WhisperState;

verus! {

/// An iterator over a decoding state's result.
#[derive(Debug)]
pub struct WhisperStateSegmentIterator {
    segments: Vec<SegmentRecord>,
    current_segment: i32,
}

impl WhisperStateSegmentIterator {
    /// The transcript this iterator walks.
    pub closed spec fn transcript(&self) -> Seq<SegmentValue> {
        self.segments@.map_values(|s: SegmentRecord| s@)
    }

    /// The next index to be visited.
    pub closed spec fn cursor(&self) -> i32 {
        self.current_segment
    }

    /// Whether the iterator is internally consistent: the cursor has not
    /// gone negative and the walked transcript fits the engine's
    /// signed-int counts.
    pub open spec fn wf(&self) -> bool {
        &&& 0 <= self.cursor()
        &&& self.transcript().len() <= i32::MAX
        &&& forall|i: int|
            0 <= i < self.transcript().len() ==> (#[trigger] self.transcript()[i]).tokens.len()
                <= i32::MAX
    }

    /// A fresh iterator over the given state's transcript, starting at
    /// index zero.
    pub(crate) fn over(state: &WhisperState) -> (r: WhisperStateSegmentIterator)
        requires
            state.wf(),
        ensures
            r.transcript() == state.transcript(),
            r.cursor() == 0,
            r.wf(),
    {
        WhisperStateSegmentIterator { segments: state.clone_segments(), current_segment: 0 }
    }

    /// Yield a view of the segment at the cursor and advance, or yield
    /// nothing once the cursor has left the transcript.
    pub fn next(&mut self) -> (r: Option<WhisperSegment>)
        requires
            old(self).wf(),
        ensures
            final(self).wf(),
            final(self).transcript() == old(self).transcript(),
            old(self).cursor() < old(self).transcript().len() ==> (r matches Some(s)
                && s.spec_segment_idx() == old(self).cursor()
                && s.record() == old(self).transcript()[old(self).cursor() as int]
                && s.wf()
                && final(self).cursor() == old(self).cursor() + 1),
            old(self).cursor() >= old(self).transcript().len() ==> (r is None
                && final(self).cursor() == old(self).cursor()),
    {
        if (self.current_segment as usize) < self.segments.len() {
            let idx = self.current_segment;
            let record = self.segments[idx as usize].clone();
            assert(record@ == self.transcript()[idx as int]);
            let segment = WhisperSegment::from_record(idx, record);
            self.current_segment = idx + 1;
            Some(segment)
        } else {
            None
        }
    }
}

} // verus!
