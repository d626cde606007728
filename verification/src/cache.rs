//! Append-only per-video cache of decoded sheets.
//!
//! The cache holds the sheets of at most one video at a time. Sheets arrive
//! in strictly increasing index order, so the present slots always form a
//! prefix `0..sheets.len()` of the video's slots; a slot goes from absent to
//! present exactly once and is never overwritten. Only whole-cache eviction
//! occurs, on a video switch.

use vstd::prelude::*;

verus! {

/// One decoded sheet, render-ready: an RGBA pixel buffer with its
/// dimensions.
pub struct SheetPixels {
    pub width: u32,
    pub height: u32,
    pub rgba: Vec<u8>,
}

impl SheetPixels {
    /// Four bytes per pixel, row-major.
    pub open spec fn wf(&self) -> bool {
        self.rgba@.len() == self.width * self.height * 4
    }
}

/// The result of one completed decode job: which video and sheet slot the
/// pixels belong to.
pub struct DecodedPayload {
    pub video: usize,
    pub sheet_index: usize,
    pub pixels: SheetPixels,
}

/// Cache of decoded sheets for the video `video` is keyed to, holding the
/// present prefix in `sheets`. `limit` is that video's sheet count: slots
/// exist only for indices below it.
pub struct SheetCache {
    pub video: Option<usize>,
    pub limit: usize,
    pub sheets: Vec<SheetPixels>,
}

/// What one `insert` call does: the payload is appended exactly when it is
/// for the keyed video, names the first absent slot, and that slot exists;
/// any other payload — wrong video, already-present slot, or a slot past the
/// next absent one — leaves the cache untouched.
pub open spec fn insert_effect(
    pre: SheetCache,
    post: SheetCache,
    p: DecodedPayload,
    inserted: bool,
) -> bool {
    &&& inserted <==> {
        &&& pre.video == Some(p.video)
        &&& p.sheet_index == pre.sheets@.len()
        &&& pre.sheets@.len() < pre.limit
    }
    &&& post.video == pre.video
    &&& post.limit == pre.limit
    &&& post.sheets@ == if inserted {
        pre.sheets@.push(p.pixels)
    } else {
        pre.sheets@
    }
}

impl SheetCache {
    pub open spec fn wf(&self) -> bool {
        &&& self.sheets@.len() <= self.limit
        &&& self.video is None ==> self.sheets@.len() == 0 && self.limit == 0
    }

    /// A slot is present when it belongs to the keyed video and lies in the
    /// cached prefix.
    pub open spec fn slot_present(&self, video: usize, index: usize) -> bool {
        self.video == Some(video) && index < self.sheets@.len()
    }

    pub fn new() -> (c: Self)
        ensures
            c.wf(),
            c.video is None,
            c.sheets@.len() == 0,
    {
        SheetCache { video: None, limit: 0, sheets: Vec::new() }
    }

    /// Evict everything and key the cache to `video`, which has
    /// `sheet_count` slots. The prior video's sheets are dropped wholesale;
    /// nothing of them survives a switch.
    pub fn rekey(&mut self, video: usize, sheet_count: usize)
        ensures
            final(self).wf(),
            final(self).video == Some(video),
            final(self).limit == sheet_count,
            final(self).sheets@.len() == 0,
    {
        self.video = Some(video);
        self.limit = sheet_count;
        self.sheets = Vec::new();
    }

    /// Drop all sheets and the key.
    pub fn evict(&mut self)
        ensures
            final(self).wf(),
            final(self).video is None,
            final(self).sheets@.len() == 0,
    {
        self.video = None;
        self.limit = 0;
        self.sheets = Vec::new();
    }

    pub fn cached_len(&self) -> (n: usize)
        ensures
            n == self.sheets@.len(),
    {
        self.sheets.len()
    }

    /// Insert a decoded payload. A payload for an already-present slot is
    /// ignored, so a slot's pixels, once set, never change; a payload for
    /// another video than the keyed one is discarded on arrival.
    pub fn insert(&mut self, p: DecodedPayload) -> (inserted: bool)
        requires
            old(self).wf(),
        ensures
            final(self).wf(),
            insert_effect(*old(self), *final(self), p, inserted),
    {
        let matches_video = match self.video {
            Some(v) => v == p.video,
            None => false,
        };
        if matches_video && p.sheet_index == self.sheets.len() && self.sheets.len() < self.limit {
            self.sheets.push(p.pixels);
            true
        } else {
            false
        }
    }

    /// Look the slot up for a draw tick. An absent slot is not an error:
    /// the caller skips drawing for that tick.
    pub fn get(&self, video: usize, index: usize) -> (r: Option<&SheetPixels>)
        ensures
            r is Some <==> self.slot_present(video, index),
            r matches Some(s) ==> *s == self.sheets@[index as int],
    {
        let matches_video = match self.video {
            Some(v) => v == video,
            None => false,
        };
        if matches_video && index < self.sheets.len() {
            Some(&self.sheets[index])
        } else {
            None
        }
    }
}

/// A slot never holds two different payloads: once an insert has filled the
/// slot `(p.video, p.sheet_index)`, a later insert of any payload `q` for
/// that same slot is a no-op.
pub proof fn lemma_insert_at_most_once(
    s0: SheetCache,
    s1: SheetCache,
    s2: SheetCache,
    p: DecodedPayload,
    q: DecodedPayload,
    ins2: bool,
)
    requires
        insert_effect(s0, s1, p, true),
        insert_effect(s1, s2, q, ins2),
        q.video == p.video,
        q.sheet_index == p.sheet_index,
    ensures
        !ins2,
        s2.video == s1.video,
        s2.limit == s1.limit,
        s2.sheets@ == s1.sheets@,
{
}

} // verus!
