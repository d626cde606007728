//! Wall-clock-driven playback state machine.
//!
//! The controller owns one playback session at a time: the selected video,
//! its sheet cache and pending-sheet queue, and the playback clock. The host
//! drives it with plain values — a video id on selection, the probed sheet
//! count, decoded payloads drained from its channel, and the current time in
//! microseconds each tick — and performs the returned actions (launching a
//! decode job, starting or stopping audio) at the boundary.

use vstd::prelude::*;

use vstd::arithmetic::div_mod::lemma_div_is_ordered;
use vstd::arithmetic::div_mod::lemma_multiply_divide_lt;
use vstd::pervasive::unreached;

use crate::FRAMES_PER_SECOND;
use crate::FRAMES_PER_SHEET;
use crate::FRAME_HEIGHT;
use crate::FRAME_WIDTH;
use crate::GRID_COLS;
use crate::MAX_SHEETS;
use crate::MICROS_PER_SECOND;
use crate::cache::DecodedPayload;
use crate::cache::SheetCache;
use crate::cache::insert_effect;
use crate::catalog::VideoCatalog;
use crate::queue::PendingQueue;

verus! {

#[derive(Clone, Copy, Debug, PartialEq, Eq, Structural)]
pub enum PlaybackState {
    /// No video selected.
    Idle,
    /// Probe, first-sheet load and audio load in progress.
    Loading,
    /// Clock running; the frame index is recomputed each tick.
    Playing,
    /// Terminal for the session; a new selection starts the next one.
    Stopped,
}

/// What a `select` call asks of the host.
#[derive(Clone, Copy, Debug, PartialEq, Eq, Structural)]
pub enum SelectAction {
    /// The selected video was already playing: playback stopped, the host
    /// stops audio. Nothing is reloaded.
    ToggleStop,
    /// A load begins: the host probes storage, then calls `begin_load`,
    /// feeds the first sheet, loads audio and calls `start_playback`.
    BeginLoading,
}

pub struct PlayerCore {
    pub catalog: VideoCatalog,
    pub state: PlaybackState,
    /// Selected video id; `None` only while `Idle`.
    pub current: Option<usize>,
    /// Sheets discovered on storage for the selected video.
    pub sheet_count: usize,
    /// Clock reading recorded on the Loading-to-Playing transition.
    pub origin_us: u64,
    pub frame_index: u64,
    pub cache: SheetCache,
    pub queue: PendingQueue,
    /// Pipeline depth is one: true while a decode job is outstanding.
    pub job_in_flight: bool,
}

/// The frame on display at clock reading `now_us`, for a playback that
/// began at `origin_us`: elapsed wall-clock time divided by the frame
/// duration of one fifteenth of a second. Recomputing this from the clock
/// each tick, instead of accumulating per-tick deltas, keeps long playback
/// free of drift.
pub open spec fn frame_at(origin_us: u64, now_us: u64) -> int
    recommends
        origin_us <= now_us,
{
    (now_us - origin_us) * (FRAMES_PER_SECOND as int) / (MICROS_PER_SECOND as int)
}

impl PlayerCore {
    pub open spec fn total_frames_of_current(&self) -> int {
        self.sheet_count * FRAMES_PER_SHEET
    }

    pub open spec fn wf(&self) -> bool {
        &&& self.sheet_count <= MAX_SHEETS
        &&& self.cache.wf()
        &&& self.queue.wf()
        &&& match self.current {
            Some(id) => {
                &&& id < self.catalog.names@.len()
                &&& self.cache.video == Some(id)
                &&& self.cache.limit == self.sheet_count
            },
            None => self.cache.video is None,
        }
        &&& (self.state is Loading || self.state is Playing) ==> self.current is Some
        &&& !self.queue.spec_is_empty() ==> {
            &&& self.current == Some(self.queue.video)
            &&& self.queue.end <= self.sheet_count
            &&& self.queue.next >= 1
        }
        &&& self.state is Playing ==> self.frame_index < self.total_frames_of_current()
        &&& !(self.state is Playing) ==> self.frame_index == 0 && self.origin_us == 0
        &&& self.state is Idle ==> {
            &&& self.current is None
            &&& self.sheet_count == 0
            &&& self.queue.spec_is_empty()
            &&& !self.job_in_flight
        }
    }

    pub fn new(names: Vec<String>) -> (c: Self)
        ensures
            c.wf(),
            c.state is Idle,
            c.catalog.names == names,
            c.current is None,
    {
        PlayerCore {
            catalog: VideoCatalog::new(names),
            state: PlaybackState::Idle,
            current: None,
            sheet_count: 0,
            origin_us: 0,
            frame_index: 0,
            cache: SheetCache::new(),
            queue: PendingQueue::new_empty(),
            job_in_flight: false,
        }
    }
}

/// What `stop` does: playback halts, the frame index resets to zero and the
/// clock origin is cleared; the session's video, cache and queue are kept.
/// Stopping while `Idle` changes nothing.
pub open spec fn stop_effect(pre: PlayerCore, post: PlayerCore) -> bool {
    &&& post.state == (if pre.state is Idle {
        PlaybackState::Idle
    } else {
        PlaybackState::Stopped
    })
    &&& post.frame_index == 0
    &&& post.origin_us == 0
    &&& post.catalog == pre.catalog
    &&& post.current == pre.current
    &&& post.sheet_count == pre.sheet_count
    &&& post.cache == pre.cache
    &&& post.queue == pre.queue
    &&& post.job_in_flight == pre.job_in_flight
}

/// Selecting the id that is currently playing toggles playback off.
pub open spec fn toggles_off(pre: PlayerCore, id: usize) -> bool {
    pre.state is Playing && pre.current == Some(id)
}

/// What `select` does. Toggling the playing video stops it — directly, the
/// controller never re-enters `Loading` for it. Any other selection stops
/// what played, evicts the old video's cache wholesale, discards the old
/// pending queue, and holds `Loading` for the new id until the host has
/// probed storage and fed the first sheet.
pub open spec fn select_effect(pre: PlayerCore, post: PlayerCore, id: usize, a: SelectAction) -> bool {
    if toggles_off(pre, id) {
        &&& a == SelectAction::ToggleStop
        &&& stop_effect(pre, post)
    } else {
        &&& a == SelectAction::BeginLoading
        &&& post.state is Loading
        &&& post.current == Some(id)
        &&& post.sheet_count == 0
        &&& post.origin_us == 0
        &&& post.frame_index == 0
        &&& post.cache.video == Some(id)
        &&& post.cache.limit == 0
        &&& post.cache.sheets@.len() == 0
        &&& post.queue.spec_is_empty()
        &&& !post.job_in_flight
        &&& post.catalog == pre.catalog
    }
}

/// What `begin_load` does with the probed sheet count: record it, key the
/// empty cache to the video with that many slots, and queue sheets
/// `1..sheet_count` for background decode.
pub open spec fn begin_load_effect(pre: PlayerCore, post: PlayerCore, sheet_count: usize) -> bool {
    &&& post.state is Loading
    &&& post.current == pre.current
    &&& post.sheet_count == sheet_count
    &&& post.origin_us == 0
    &&& post.frame_index == 0
    &&& post.cache.video == pre.current
    &&& post.cache.limit == sheet_count
    &&& post.cache.sheets@.len() == 0
    &&& (sheet_count == 0 ==> post.queue.spec_is_empty())
    &&& (sheet_count > 0 ==> {
        &&& post.current == Some(post.queue.video)
        &&& post.queue.next == 1
        &&& post.queue.end == sheet_count
    })
    &&& !post.job_in_flight
    &&& post.catalog == pre.catalog
}

/// What `next_job` does: if no decode job is outstanding and sheets are
/// pending, the head job — and only the head — is handed out and marked in
/// flight; otherwise nothing changes.
pub open spec fn next_job_effect(pre: PlayerCore, post: PlayerCore, j: Option<(usize, usize)>) -> bool {
    if !pre.job_in_flight && !pre.queue.spec_is_empty() {
        &&& j == Some(pre.queue.spec_head())
        &&& post.job_in_flight
        &&& post.queue == pre.queue
        &&& post.cache == pre.cache
        &&& unchanged_but_scheduler(pre, post)
    } else {
        &&& j is None
        &&& post.job_in_flight == pre.job_in_flight
        &&& post.queue == pre.queue
        &&& post.cache == pre.cache
        &&& unchanged_but_scheduler(pre, post)
    }
}

/// The fields the scheduler never touches.
pub open spec fn unchanged_but_scheduler(pre: PlayerCore, post: PlayerCore) -> bool {
    &&& post.catalog == pre.catalog
    &&& post.state == pre.state
    &&& post.current == pre.current
    &&& post.sheet_count == pre.sheet_count
    &&& post.origin_us == pre.origin_us
    &&& post.frame_index == pre.frame_index
}

/// What draining one completed payload does. The cache accepts it only
/// under `insert_effect` — in particular a payload for a video other than
/// the cache's is discarded on arrival. The queue advances only if the
/// payload matches its head job exactly; then, and only then, the follow-up
/// job to launch is returned, keeping one job in flight until the queue
/// drains. A payload that matches nothing changes nothing.
pub open spec fn payload_effect(
    pre: PlayerCore,
    post: PlayerCore,
    p: DecodedPayload,
    inserted: bool,
    next: Option<(usize, usize)>,
) -> bool {
    &&& insert_effect(pre.cache, post.cache, p, inserted)
    &&& post.cache.video == pre.cache.video
    &&& post.cache.limit == pre.cache.limit
    &&& unchanged_but_scheduler(pre, post)
    &&& if head_matches(pre, p) {
        &&& post.queue.video == pre.queue.video
        &&& post.queue.next == pre.queue.next + 1
        &&& post.queue.end == pre.queue.end
        &&& post.job_in_flight == !post.queue.spec_is_empty()
        &&& next == (if post.queue.spec_is_empty() {
            Option::<(usize, usize)>::None
        } else {
            Some(post.queue.spec_head())
        })
    } else {
        &&& post.queue == pre.queue
        &&& post.job_in_flight == pre.job_in_flight
        &&& next is None
    }
}

/// The completed job is exactly the head of the pending queue.
pub open spec fn head_matches(pre: PlayerCore, p: DecodedPayload) -> bool {
    &&& !pre.queue.spec_is_empty()
    &&& pre.queue.video == p.video
    &&& pre.queue.next == p.sheet_index
}

/// What `start_playback` does: the clock origin is recorded and the frame
/// index starts over at zero.
pub open spec fn start_effect(pre: PlayerCore, post: PlayerCore, now_us: u64) -> bool {
    &&& post.state is Playing
    &&& post.origin_us == now_us
    &&& post.frame_index == 0
    &&& post.catalog == pre.catalog
    &&& post.current == pre.current
    &&& post.sheet_count == pre.sheet_count
    &&& post.cache == pre.cache
    &&& post.queue == pre.queue
    &&& post.job_in_flight == pre.job_in_flight
}

/// What one clock tick does. Outside `Playing` it is a no-op. While
/// `Playing`, the frame index becomes the elapsed-clock frame; the moment
/// that frame reaches the video's total the controller stops within that
/// same tick, with the frame index reset to zero.
pub open spec fn tick_effect(pre: PlayerCore, post: PlayerCore, now_us: u64, stopped: bool) -> bool {
    if pre.state is Playing {
        if frame_at(pre.origin_us, now_us) >= pre.total_frames_of_current() {
            &&& stopped
            &&& stop_effect(pre, post)
        } else {
            &&& !stopped
            &&& post.state is Playing
            &&& post.frame_index == frame_at(pre.origin_us, now_us)
            &&& post.origin_us == pre.origin_us
            &&& post.catalog == pre.catalog
            &&& post.current == pre.current
            &&& post.sheet_count == pre.sheet_count
            &&& post.cache == pre.cache
            &&& post.queue == pre.queue
            &&& post.job_in_flight == pre.job_in_flight
        }
    } else {
        &&& !stopped
        &&& post == pre
    }
}

impl PlayerCore {
    /// Stop playback: the frame index resets to zero and the clock origin
    /// is cleared. The cached sheets stay until the next video switch.
    pub fn stop(&mut self)
        requires
            old(self).wf(),
        ensures
            final(self).wf(),
            stop_effect(*old(self), *final(self)),
    {
        match self.state {
            PlaybackState::Idle => {},
            _ => {
                self.state = PlaybackState::Stopped;
            },
        }
        self.frame_index = 0;
        self.origin_us = 0;
    }

    /// Select a video. Selection is ignored by the host while `Loading`,
    /// so it is never called in that state.
    pub fn select(&mut self, id: usize) -> (a: SelectAction)
        requires
            old(self).wf(),
            id < old(self).catalog.names@.len(),
            !(old(self).state is Loading),
        ensures
            final(self).wf(),
            select_effect(*old(self), *final(self), id, a),
    {
        let playing_same = match (self.state, self.current) {
            (PlaybackState::Playing, Some(c)) => c == id,
            _ => false,
        };
        if playing_same {
            self.stop();
            SelectAction::ToggleStop
        } else {
            self.state = PlaybackState::Loading;
            self.current = Some(id);
            self.sheet_count = 0;
            self.origin_us = 0;
            self.frame_index = 0;
            self.cache.rekey(id, 0);
            self.queue.clear();
            self.job_in_flight = false;
            SelectAction::BeginLoading
        }
    }

    /// Record the probed sheet count and set up the session's cache and
    /// pending queue. The host calls this once per selection, right after
    /// the probe.
    pub fn begin_load(&mut self, sheet_count: usize)
        requires
            old(self).wf(),
            old(self).state is Loading,
            sheet_count <= MAX_SHEETS,
        ensures
            final(self).wf(),
            begin_load_effect(*old(self), *final(self), sheet_count),
    {
        let id = match self.current {
            Some(i) => i,
            None => unreached(),  // Loading implies a selected video
        };
        self.sheet_count = sheet_count;
        self.cache.rekey(id, sheet_count);
        self.queue.fill(id, sheet_count);
        self.job_in_flight = false;
        self.origin_us = 0;
        self.frame_index = 0;
    }

    /// Hand out the next decode job to launch, if none is in flight.
    pub fn next_job(&mut self) -> (j: Option<(usize, usize)>)
        requires
            old(self).wf(),
        ensures
            final(self).wf(),
            next_job_effect(*old(self), *final(self), j),
    {
        if self.job_in_flight {
            return None;
        }
        match self.queue.head() {
            Some(job) => {
                self.job_in_flight = true;
                Some(job)
            },
            None => None,
        }
    }

    /// Drain one completed decode job into the session: insert its pixels
    /// if they fill the next absent slot of the keyed video, advance the
    /// queue if the job was its head, and return the follow-up job to
    /// launch, if any.
    pub fn process_payload(&mut self, p: DecodedPayload) -> (r: (bool, Option<(usize, usize)>))
        requires
            old(self).wf(),
        ensures
            final(self).wf(),
            payload_effect(*old(self), *final(self), p, r.0, r.1),
    {
        let p_video = p.video;
        let p_index = p.sheet_index;
        let inserted = self.cache.insert(p);
        let head_match = match self.queue.head() {
            Some((v, i)) => v == p_video && i == p_index,
            None => false,
        };
        if head_match {
            self.queue.pop();
            match self.queue.head() {
                Some(job) => {
                    self.job_in_flight = true;
                    (inserted, Some(job))
                },
                None => {
                    self.job_in_flight = false;
                    (inserted, None)
                },
            }
        } else {
            (inserted, None)
        }
    }

    /// Begin playing: the first sheet is cached, audio (if any) starts at
    /// the host's side, and the clock origin is `now_us`.
    pub fn start_playback(&mut self, now_us: u64)
        requires
            old(self).wf(),
            old(self).state is Loading,
            old(self).cache.sheets@.len() >= 1,
        ensures
            final(self).wf(),
            start_effect(*old(self), *final(self), now_us),
    {
        self.state = PlaybackState::Playing;
        self.origin_us = now_us;
        self.frame_index = 0;
    }

    /// Advance the playback clock to `now_us`. Returns true exactly when
    /// this tick ended playback, so the host stops audio once.
    pub fn tick(&mut self, now_us: u64) -> (stopped: bool)
        requires
            old(self).wf(),
            old(self).state is Playing ==> now_us >= old(self).origin_us,
        ensures
            final(self).wf(),
            tick_effect(*old(self), *final(self), now_us, stopped),
    {
        match self.state {
            PlaybackState::Playing => {},
            _ => {
                return false;
            },
        }
        let elapsed: u64 = now_us - self.origin_us;
        proof {
            assert((elapsed as int) * (FRAMES_PER_SECOND as int) <= (u64::MAX as int) * 15)
                by (nonlinear_arith)
                requires
                    elapsed <= u64::MAX,
                    FRAMES_PER_SECOND == 15,
            ;
        }
        let expected: u128 = (elapsed as u128) * (FRAMES_PER_SECOND as u128) / (
        MICROS_PER_SECOND as u128);
        let total: u64 = (self.sheet_count as u64) * FRAMES_PER_SHEET;
        if expected >= total as u128 {
            self.stop();
            true
        } else {
            self.frame_index = expected as u64;
            false
        }
    }

    /// The sheet and the fixed sub-rectangle within it for the current
    /// frame, or `None` when there is nothing to draw this tick: the
    /// controller is not playing, or the frame's sheet is not cached yet —
    /// a buffering gap the renderer tolerates by skipping the draw.
    pub fn draw_descriptor(&self) -> (d: Option<DrawDescriptor>)
        requires
            self.wf(),
        ensures
            d is Some <==> (self.state is Playing && (self.current matches Some(id)
                && self.cache.slot_present(id, (self.frame_index / FRAMES_PER_SHEET) as usize))),
            d matches Some(desc) ==> descriptor_for(self.frame_index, desc),
    {
        match self.state {
            PlaybackState::Playing => {},
            _ => {
                return None;
            },
        }
        let id = match self.current {
            Some(i) => i,
            None => unreached(),  // Playing implies a selected video
        };
        proof {
            lemma_multiply_divide_lt(
                self.frame_index as int,
                FRAMES_PER_SHEET as int,
                self.sheet_count as int,
            );
        }
        let sheet_index = (self.frame_index / FRAMES_PER_SHEET) as usize;
        match self.cache.get(id, sheet_index) {
            Some(_) => {},
            None => {
                return None;
            },
        }
        let frame_in_sheet = self.frame_index % FRAMES_PER_SHEET;
        let row = frame_in_sheet / GRID_COLS;
        let col = frame_in_sheet % GRID_COLS;
        proof {
            lemma_multiply_divide_lt(frame_in_sheet as int, GRID_COLS as int, 8);
        }
        Some(
            DrawDescriptor {
                sheet_index,
                frame_in_sheet,
                row,
                col,
                src_x: (col as u32) * FRAME_WIDTH,
                src_y: (row as u32) * FRAME_HEIGHT,
                src_w: FRAME_WIDTH,
                src_h: FRAME_HEIGHT,
            },
        )
    }

    /// Loading progress for an external indicator, as the exact pair
    /// (sheets cached, sheets cached plus sheets pending); the host renders
    /// the fraction. The denominator is zero only for a video with no
    /// sheets at all.
    pub fn loading_progress(&self) -> (r: (usize, usize))
        requires
            self.wf(),
        ensures
            r.0 == self.cache.sheets@.len(),
            r.1 == self.cache.sheets@.len() + self.queue.pending_len(),
    {
        let cached = self.cache.cached_len();
        let pending = self.queue.pending();
        (cached, cached + pending)
    }
}

/// The fixed sheet-format geometry of one frame: which sheet holds it, its
/// cell in the 3-column grid, and the 600 by 250 source rectangle.
pub open spec fn descriptor_for(frame_index: u64, d: DrawDescriptor) -> bool {
    &&& d.sheet_index == frame_index / FRAMES_PER_SHEET
    &&& d.frame_in_sheet == frame_index % FRAMES_PER_SHEET
    &&& d.row == d.frame_in_sheet / GRID_COLS
    &&& d.col == d.frame_in_sheet % GRID_COLS
    &&& d.src_x == d.col * FRAME_WIDTH
    &&& d.src_y == d.row * FRAME_HEIGHT
    &&& d.src_w == FRAME_WIDTH
    &&& d.src_h == FRAME_HEIGHT
}

/// Which sheet, and which cell of it, the renderer reads for a frame.
pub struct DrawDescriptor {
    pub sheet_index: usize,
    pub frame_in_sheet: u64,
    pub row: u64,
    pub col: u64,
    pub src_x: u32,
    pub src_y: u32,
    pub src_w: u32,
    pub src_h: u32,
}

/// The elapsed-clock frame never decreases as the clock advances: playback
/// that began at `origin_us` shows non-decreasing frames.
pub proof fn lemma_frame_at_monotonic(origin_us: u64, t1: u64, t2: u64)
    requires
        origin_us <= t1 <= t2,
    ensures
        frame_at(origin_us, t1) <= frame_at(origin_us, t2),
{
    lemma_div_is_ordered(
        (t1 - origin_us) * (FRAMES_PER_SECOND as int),
        (t2 - origin_us) * (FRAMES_PER_SECOND as int),
        MICROS_PER_SECOND as int,
    );
}

/// While Playing, the frame index is non-decreasing tick over tick: two
/// ticks at non-decreasing clock readings that both leave the controller
/// Playing yield non-decreasing frame indices.
pub proof fn lemma_tick_monotonic(
    s0: PlayerCore,
    s1: PlayerCore,
    s2: PlayerCore,
    t1: u64,
    t2: u64,
    r1: bool,
    r2: bool,
)
    requires
        s0.state is Playing,
        s0.origin_us <= t1 <= t2,
        tick_effect(s0, s1, t1, r1),
        tick_effect(s1, s2, t2, r2),
        s1.state is Playing,
        s2.state is Playing,
    ensures
        s1.frame_index <= s2.frame_index,
{
    lemma_frame_at_monotonic(s0.origin_us, t1, t2);
}

/// After switching to a different video, the old pending queue is gone and
/// a stale payload — one for any video other than the newly selected id —
/// is never inserted into the cache.
pub proof fn lemma_stale_payload_discarded(
    pre: PlayerCore,
    mid: PlayerCore,
    post: PlayerCore,
    new_id: usize,
    a: SelectAction,
    p: DecodedPayload,
    inserted: bool,
    next: Option<(usize, usize)>,
)
    requires
        select_effect(pre, mid, new_id, a),
        !toggles_off(pre, new_id),
        payload_effect(mid, post, p, inserted, next),
        p.video != new_id,
    ensures
        mid.queue.spec_is_empty(),
        !inserted,
        post.cache.sheets@ == mid.cache.sheets@,
        post.queue.spec_is_empty(),
{
}

/// However late a payload for a no-longer-selected video arrives — the
/// switch persists in `current` until the next one — it is never inserted
/// into the cache.
pub proof fn lemma_foreign_payload_never_inserted(
    s: PlayerCore,
    post: PlayerCore,
    p: DecodedPayload,
    inserted: bool,
    next: Option<(usize, usize)>,
)
    requires
        s.wf(),
        s.current matches Some(id) && p.video != id,
        payload_effect(s, post, p, inserted, next),
    ensures
        !inserted,
        post.cache.sheets@ == s.cache.sheets@,
{
}

} // verus!
