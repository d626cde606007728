//! Pending-sheet queue of the prefetch scheduler.
//!
//! Jobs for one video are issued in strictly increasing sheet-index order,
//! so the queue is the interval of indices `next..end` still to decode for
//! `video`, popped from the front (FIFO).

use vstd::prelude::*;

verus! {

/// The queue of sheets of `video` still awaiting decode: indices
/// `next..end`, in order.
pub struct PendingQueue {
    pub video: usize,
    pub next: usize,
    pub end: usize,
}

impl PendingQueue {
    pub open spec fn wf(&self) -> bool {
        self.next <= self.end
    }

    pub open spec fn pending_len(&self) -> int {
        self.end - self.next
    }

    pub open spec fn spec_is_empty(&self) -> bool {
        self.next == self.end
    }

    /// The job at the head of the queue, `(video, sheet index)`.
    pub open spec fn spec_head(&self) -> (usize, usize) {
        (self.video, self.next)
    }

    pub fn new_empty() -> (q: Self)
        ensures
            q.wf(),
            q.spec_is_empty(),
    {
        PendingQueue { video: 0, next: 0, end: 0 }
    }

    /// Queue the sheets `1..sheet_count` of `video` for background decode;
    /// sheet 0 is never queued, it is loaded eagerly so playback can start
    /// at once. With no sheets discovered nothing is queued.
    pub fn fill(&mut self, video: usize, sheet_count: usize)
        ensures
            final(self).wf(),
            final(self).video == video,
            sheet_count == 0 ==> final(self).spec_is_empty(),
            sheet_count > 0 ==> final(self).next == 1 && final(self).end == sheet_count,
    {
        if sheet_count == 0 {
            self.video = video;
            self.next = 0;
            self.end = 0;
        } else {
            self.video = video;
            self.next = 1;
            self.end = sheet_count;
        }
    }

    pub fn clear(&mut self)
        ensures
            final(self).wf(),
            final(self).spec_is_empty(),
            final(self).video == old(self).video,
    {
        self.next = 0;
        self.end = 0;
    }

    pub fn is_empty(&self) -> (e: bool)
        ensures
            e == self.spec_is_empty(),
    {
        self.next == self.end
    }

    pub fn pending(&self) -> (n: usize)
        requires
            self.wf(),
        ensures
            n == self.pending_len(),
    {
        self.end - self.next
    }

    pub fn head(&self) -> (h: Option<(usize, usize)>)
        ensures
            h is Some <==> !self.spec_is_empty(),
            h matches Some(j) ==> j == self.spec_head(),
    {
        if self.next != self.end {
            Some((self.video, self.next))
        } else {
            None
        }
    }

    /// Pop the head job: the queue advances to the next sheet index.
    pub fn pop(&mut self)
        requires
            old(self).wf(),
            !old(self).spec_is_empty(),
        ensures
            final(self).wf(),
            final(self).video == old(self).video,
            final(self).next == old(self).next + 1,
            final(self).end == old(self).end,
    {
        self.next = self.next + 1;
    }
}

} // verus!
