use cutscene_core::cache::DecodedPayload;
use cutscene_core::cache::SheetPixels;
use cutscene_core::player::PlaybackState;
use cutscene_core::player::PlayerCore;
use cutscene_core::player::SelectAction;

fn payload(video: usize, sheet_index: usize) -> DecodedPayload {
    DecodedPayload {
        video,
        sheet_index,
        pixels: SheetPixels { width: 1800, height: 2000, rgba: vec![0; 1800 * 2000 * 4] },
    }
}

fn names() -> Vec<String> {
    vec![String::from("c_berlin"), String::from("intro1")]
}

/// Drive a fresh core to Playing for `video` with `sheets` sheets, the
/// first of them cached, with the clock origin at `origin_us`.
fn playing_core(video: usize, sheets: usize, origin_us: u64) -> PlayerCore {
    let mut core = PlayerCore::new(names());
    assert_eq!(core.select(video), SelectAction::BeginLoading);
    assert_eq!(core.state, PlaybackState::Loading);
    core.begin_load(sheets);
    let (inserted, next) = core.process_payload(payload(video, 0));
    assert!(inserted);
    assert!(next.is_none());
    core.start_playback(origin_us);
    core
}

#[test]
fn select_from_idle_enters_loading() {
    let mut core = PlayerCore::new(names());
    assert_eq!(core.state, PlaybackState::Idle);
    assert_eq!(core.select(0), SelectAction::BeginLoading);
    assert_eq!(core.state, PlaybackState::Loading);
    assert!(core.draw_descriptor().is_none());
}

#[test]
fn start_playback_resets_frame_to_zero() {
    let mut core = playing_core(0, 2, 5_000_000);
    assert_eq!(core.state, PlaybackState::Playing);
    assert_eq!(core.frame_index, 0);
    let stopped = core.tick(5_000_000);
    assert!(!stopped);
    assert_eq!(core.frame_index, 0);
}

#[test]
fn frame_index_non_decreasing_while_playing() {
    let mut core = playing_core(0, 3, 1_000_000);
    let mut last = 0u64;
    for step in 0..40u64 {
        let stopped = core.tick(1_000_000 + step * 100_000);
        assert!(!stopped);
        assert!(core.frame_index >= last);
        last = core.frame_index;
    }
    assert_eq!(last, 58); // 3.9 s at 15 fps
}

#[test]
fn reaching_total_frames_stops_within_one_tick() {
    // One sheet: 24 frames, over at 1.6 s of playback.
    let mut core = playing_core(0, 1, 0);
    let stopped = core.tick(1_599_999);
    assert!(!stopped);
    assert_eq!(core.frame_index, 23);
    let stopped = core.tick(1_600_000);
    assert!(stopped);
    assert_eq!(core.state, PlaybackState::Stopped);
    assert_eq!(core.frame_index, 0);
}

#[test]
fn toggling_playing_video_stops_without_reloading() {
    let mut core = playing_core(1, 2, 0);
    assert_eq!(core.select(1), SelectAction::ToggleStop);
    // Straight to Stopped: the controller never re-enters Loading.
    assert_eq!(core.state, PlaybackState::Stopped);
    assert_eq!(core.frame_index, 0);
    // The cached sheets survive a toggle-off; only a switch evicts them.
    assert_eq!(core.cache.cached_len(), 1);
}

#[test]
fn switching_video_discards_queue_and_stale_payloads() {
    let mut core = playing_core(0, 3, 0);
    assert_eq!(core.next_job(), Some((0, 1)));
    assert!(!core.queue.is_empty());

    assert_eq!(core.select(1), SelectAction::BeginLoading);
    assert!(core.queue.is_empty());
    assert_eq!(core.cache.cached_len(), 0);

    // The in-flight decode for the old video completes late: its payload
    // is discarded on arrival, never inserted into any cache.
    let (inserted, next) = core.process_payload(payload(0, 1));
    assert!(!inserted);
    assert!(next.is_none());
    assert_eq!(core.cache.cached_len(), 0);
    assert!(core.cache.get(0, 1).is_none());
    assert!(core.cache.get(1, 1).is_none());
}

#[test]
fn scheduler_keeps_one_job_in_flight() {
    let mut core = PlayerCore::new(names());
    core.select(0);
    core.begin_load(3);
    let (inserted, next) = core.process_payload(payload(0, 0));
    assert!(inserted);
    assert!(next.is_none()); // sheet 0 is not the queue head
    assert_eq!(core.next_job(), Some((0, 1)));
    assert_eq!(core.next_job(), None); // pipeline depth is one
    let (inserted, next) = core.process_payload(payload(0, 1));
    assert!(inserted);
    assert_eq!(next, Some((0, 2)));
    let (inserted, next) = core.process_payload(payload(0, 2));
    assert!(inserted);
    assert!(next.is_none()); // queue drained
    assert_eq!(core.cache.cached_len(), 3);
}

#[test]
fn stalled_head_blocks_queue() {
    // A failed decode sends nothing; a later sheet's payload does not
    // advance the queue past the missing head.
    let mut core = PlayerCore::new(names());
    core.select(0);
    core.begin_load(3);
    core.process_payload(payload(0, 0));
    core.next_job();
    let (inserted, next) = core.process_payload(payload(0, 2));
    assert!(!inserted);
    assert!(next.is_none());
    assert!(!core.queue.is_empty());
}

#[test]
fn loading_progress_counts_cached_over_total() {
    let mut core = PlayerCore::new(names());
    core.select(0);
    core.begin_load(4);
    assert_eq!(core.loading_progress(), (0, 3));
    core.process_payload(payload(0, 0));
    assert_eq!(core.loading_progress(), (1, 4));
    core.process_payload(payload(0, 1));
    assert_eq!(core.loading_progress(), (2, 4));
}

#[test]
fn draw_descriptor_grid_geometry() {
    let mut core = playing_core(0, 2, 0);
    // 0.5 s in: frame 7 of sheet 0 — row 2, column 1 of the 3-wide grid.
    core.tick(500_000);
    assert_eq!(core.frame_index, 7);
    let d = core.draw_descriptor().unwrap();
    assert_eq!(d.sheet_index, 0);
    assert_eq!(d.frame_in_sheet, 7);
    assert_eq!(d.row, 2);
    assert_eq!(d.col, 1);
    assert_eq!(d.src_x, 600);
    assert_eq!(d.src_y, 500);
    assert_eq!(d.src_w, 600);
    assert_eq!(d.src_h, 250);
}

#[test]
fn draw_descriptor_absent_sheet_is_a_gap_not_an_error() {
    let mut core = playing_core(0, 2, 0);
    // 2 s in: frame 30 lives on sheet 1, which is not cached yet.
    core.tick(2_000_000);
    assert_eq!(core.frame_index, 30);
    assert!(core.draw_descriptor().is_none());

    // Once sheet 1 arrives the descriptor points into it.
    core.next_job();
    core.process_payload(payload(0, 1));
    let d = core.draw_descriptor().unwrap();
    assert_eq!(d.sheet_index, 1);
    assert_eq!(d.frame_in_sheet, 6);
    assert_eq!(d.row, 2);
    assert_eq!(d.col, 0);
    assert_eq!(d.src_x, 0);
    assert_eq!(d.src_y, 500);
}

#[test]
fn berlin_three_sheets_end_to_end() {
    // Video "c_berlin" with sheets 0, 1, 2 on storage: 72 frames in all.
    let flags = vec![true, true, true, false, false, false];
    let sheets = cutscene_core::catalog::probe_count(&flags);
    assert_eq!(sheets, 3);
    assert_eq!(cutscene_core::catalog::total_frames(sheets), 72);

    let mut core = PlayerCore::new(names());
    assert_eq!(core.select(0), SelectAction::BeginLoading);
    assert_eq!(core.state, PlaybackState::Loading);
    core.begin_load(sheets);
    core.process_payload(payload(0, 0));
    core.start_playback(1_000_000);
    assert_eq!(core.state, PlaybackState::Playing);

    // 4.9 s later roughly 73 frame-intervals have elapsed, past the 72nd
    // frame: the controller has stopped and the frame index is back at 0.
    let stopped = core.tick(1_000_000 + 4_900_000);
    assert!(stopped);
    assert_eq!(core.state, PlaybackState::Stopped);
    assert_eq!(core.frame_index, 0);
}

#[test]
fn empty_video_never_leaves_loading() {
    // Video "intro1" with no sheets on storage: selectable, but Loading
    // never produces a displayable frame and playback never starts.
    let flags = vec![false; 8];
    let sheets = cutscene_core::catalog::probe_count(&flags);
    assert_eq!(sheets, 0);

    let mut core = PlayerCore::new(names());
    assert_eq!(core.select(1), SelectAction::BeginLoading);
    core.begin_load(sheets);
    assert_eq!(core.state, PlaybackState::Loading);
    assert!(core.queue.is_empty());
    assert_eq!(core.next_job(), None);
    assert_eq!(core.cache.cached_len(), 0);
    assert!(core.draw_descriptor().is_none());
    assert_eq!(core.loading_progress(), (0, 0));
    assert_eq!(core.state, PlaybackState::Loading);
}
