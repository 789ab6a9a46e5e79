//! The video side of the player: the frame queue, playback state, the
//! presentation clock and the audio/video synchronisation that decides,
//! on each tick, which queued frame to draw.
//!
//! The window, the renderer and the device are driven by the caller, which
//! hands in what they report (the time, the audio clock, input events, how
//! long drawing took) and performs what the player decides.
use vstd::prelude::*;

use crate::error::{invalid, outcome, Error, ErrorView, Result};
use crate::event::{Event, KEYCODE_S};
use crate::pixel_buffer::{pixel_buffer_frame_check, validate_pixel_buffer_frame};
use crate::texture::or_else;
use crate::validate::{
    dims_check, i420_check, i420_strided_check, lemma_unstrided_is_tight_strided, nv12_check,
    nv12_strided_check, packed_4bpp_check, validate_bgra, validate_i420, validate_i420_strided,
    validate_nv12, validate_nv12_strided, validate_rgba, validate_yuy2, validate_yuy2_strided,
    yuy2_check, yuy2_strided_check, MAX_DIMENSION,
};
use crate::text::{decimal, push_decimal, push_unsigned};
use crate::video_format::{format_name, VideoFormat};
use crate::video_frame::{data_bytes, frame_ok, FrameData, VideoFrame};
use crate::window::{title_check, Window};

verus! {

/// Cumulative drawing measurements.
#[derive(Clone, Copy)]
pub struct RenderTiming {
    /// Microseconds spent uploading textures, in total.
    pub texture_update_us: u64,
    /// Microseconds spent clearing and copying, in total.
    pub clear_copy_us: u64,
    /// Microseconds spent presenting, in total.
    pub present_us: u64,
    /// Frames presented.
    pub count: u64,
    /// When the last presentation ended (zero before the first).
    pub last_present_end_ns: u64,
    /// Microseconds between consecutive presentations, in total.
    pub vsync_interval_us: u64,
    /// Intervals measured.
    pub vsync_count: u64,
    /// Longest texture upload, in microseconds.
    pub tex_max_us: u64,
}

/// Drawing measurements before anything was drawn.
pub open spec fn no_timing() -> RenderTiming {
    RenderTiming {
        texture_update_us: 0,
        clear_copy_us: 0,
        present_us: 0,
        count: 0,
        last_present_end_ns: 0,
        vsync_interval_us: 0,
        vsync_count: 0,
        tex_max_us: 0,
    }
}

/// Default bound on how far, in microseconds, a frame may be from the
/// clock and still be drawn.
pub const SYNC_THRESHOLD_US: i64 = 40_000;

/// Default number of frames the queue holds before the oldest is dropped.
pub const DEFAULT_MAX_VIDEO_QUEUE_SIZE: usize = 5;

/// The player's state as a mathematical value.
pub struct VideoPlayerView<P> {
    pub open: bool,
    pub window_width: i32,
    pub window_height: i32,
    pub title: Seq<char>,
    pub has_texture: bool,
    pub texture_width: i32,
    pub texture_height: i32,
    pub texture_format: VideoFormat,
    pub queue: Seq<VideoFrame<P>>,
    pub playing: bool,
    pub has_played: bool,
    pub last_video_pts_us: i64,
    /// Wall-clock anchor of the video-only clock (shifted by pauses).
    pub video_start_time_ns: u64,
    /// Presentation time at the anchor.
    pub first_video_pts_us: i64,
    pub video_only_started: bool,
    /// When a pause of the video-only clock began, while it lasts.
    pub pause_started_ns: Option<u64>,
    pub sync_threshold_us: i64,
    pub max_video_queue_size: usize,
    pub vsync_interval: i32,
    pub dropped_frames: i64,
    pub repeated_frames: i64,
    pub total_frames_enqueued: i64,
    pub total_frames_rendered: i64,
    pub play_start_time_ns: u64,
    pub last_frame_size_bytes: i64,
    pub fps_calc_start_ns: u64,
    pub fps_frame_count: i32,
    pub timing: RenderTiming,
    pub show_stats_overlay: bool,
}

/// Frame queue, playback state and synchronisation of a player.
pub struct VideoPlayer<P> {
    open: bool,
    window: Window,
    window_width: i32,
    window_height: i32,
    has_texture: bool,
    texture_width: i32,
    texture_height: i32,
    texture_format: VideoFormat,
    video_queue: std::collections::VecDeque<VideoFrame<P>>,
    playing: bool,
    has_played: bool,
    last_video_pts_us: i64,
    video_start_time_ns: u64,
    first_video_pts_us: i64,
    video_only_started: bool,
    pause_started_ns: Option<u64>,
    sync_threshold_us: i64,
    max_video_queue_size: usize,
    vsync_interval: i32,
    dropped_frames: i64,
    repeated_frames: i64,
    total_frames_enqueued: i64,
    total_frames_rendered: i64,
    play_start_time_ns: u64,
    last_frame_size_bytes: i64,
    fps_calc_start_ns: u64,
    fps_frame_count: i32,
    timing: RenderTiming,
    show_stats_overlay: bool,
}

impl<P> View for VideoPlayer<P> {
    type V = VideoPlayerView<P>;

    closed spec fn view(&self) -> VideoPlayerView<P> {
        VideoPlayerView {
            open: self.open,
            window_width: self.window_width,
            window_height: self.window_height,
            title: self.window.spec_title(),
            has_texture: self.has_texture,
            texture_width: self.texture_width,
            texture_height: self.texture_height,
            texture_format: self.texture_format,
            queue: self.video_queue@,
            playing: self.playing,
            has_played: self.has_played,
            last_video_pts_us: self.last_video_pts_us,
            video_start_time_ns: self.video_start_time_ns,
            first_video_pts_us: self.first_video_pts_us,
            video_only_started: self.video_only_started,
            pause_started_ns: self.pause_started_ns,
            sync_threshold_us: self.sync_threshold_us,
            max_video_queue_size: self.max_video_queue_size,
            vsync_interval: self.vsync_interval,
            dropped_frames: self.dropped_frames,
            repeated_frames: self.repeated_frames,
            total_frames_enqueued: self.total_frames_enqueued,
            total_frames_rendered: self.total_frames_rendered,
            play_start_time_ns: self.play_start_time_ns,
            last_frame_size_bytes: self.last_frame_size_bytes,
            fps_calc_start_ns: self.fps_calc_start_ns,
            fps_frame_count: self.fps_frame_count,
            timing: self.timing,
            show_stats_overlay: self.show_stats_overlay,
        }
    }
}

/// The state of a new player with the given window.
pub open spec fn initial_video_view<P>(width: i32, height: i32, title: Seq<char>) -> VideoPlayerView<P> {
    VideoPlayerView {
        open: true,
        window_width: width,
        window_height: height,
        title,
        has_texture: false,
        texture_width: 0,
        texture_height: 0,
        texture_format: VideoFormat::I420,
        queue: Seq::empty(),
        playing: false,
        has_played: false,
        last_video_pts_us: 0,
        video_start_time_ns: 0,
        first_video_pts_us: 0,
        video_only_started: false,
        pause_started_ns: None,
        sync_threshold_us: SYNC_THRESHOLD_US,
        max_video_queue_size: DEFAULT_MAX_VIDEO_QUEUE_SIZE,
        vsync_interval: 1,
        dropped_frames: 0,
        repeated_frames: 0,
        total_frames_enqueued: 0,
        total_frames_rendered: 0,
        play_start_time_ns: 0,
        last_frame_size_bytes: 0,
        fps_calc_start_ns: 0,
        fps_frame_count: 0,
        timing: no_timing(),
        show_stats_overlay: false,
    }
}

/// The player's invariant: it holds only frames it admits (see
/// `frame_ok`), a pending pause began no earlier than the clock's anchor,
/// and its counters are not negative.
pub open spec fn video_wf<P>(v: VideoPlayerView<P>) -> bool {
    &&& forall|i: int| 0 <= i < v.queue.len() ==> frame_ok(#[trigger] v.queue[i])
    &&& v.pause_started_ns matches Some(t) ==> v.video_start_time_ns <= t
    &&& v.pause_started_ns is Some ==> v.video_only_started
    &&& v.sync_threshold_us >= 0
    &&& v.dropped_frames >= 0
    &&& v.repeated_frames >= 0
    &&& v.total_frames_enqueued >= 0
    &&& v.total_frames_rendered >= 0
    &&& v.last_frame_size_bytes >= 0
    &&& v.fps_frame_count >= 0
}

/// Room left in the frame counters for one more operation: every queued
/// frame may still be dropped, and each other counter may grow by one.
pub open spec fn counters_room<P>(v: VideoPlayerView<P>) -> bool {
    &&& v.dropped_frames + v.queue.len() < i64::MAX
    &&& v.repeated_frames < i64::MAX
    &&& v.total_frames_enqueued < i64::MAX
    &&& v.total_frames_rendered < i64::MAX
}

/// Playback has run and is paused now: frames are refused.
pub open spec fn paused<P>(v: VideoPlayerView<P>) -> bool {
    v.has_played && !v.playing
}

/// Outcome of an enqueue whose frame check gave `check`.
pub open spec fn enqueue_outcome<P>(v: VideoPlayerView<P>, check: Option<ErrorView>) -> Option<
    ErrorView,
> {
    if check is Some {
        check
    } else if paused(v) {
        Some(ErrorView::NotPlaying)
    } else {
        None
    }
}

/// How many frames an enqueue drops from the front to make room: with a
/// positive bound, enough that the new frame brings the queue to the bound.
pub open spec fn evicted<P>(v: VideoPlayerView<P>) -> int {
    if v.max_video_queue_size > 0 && v.queue.len() >= v.max_video_queue_size {
        v.queue.len() - v.max_video_queue_size + 1
    } else {
        0
    }
}

/// The state after frame `f` was admitted.
pub open spec fn after_enqueue_frame<P>(v: VideoPlayerView<P>, f: VideoFrame<P>) -> VideoPlayerView<P> {
    VideoPlayerView {
        queue: v.queue.skip(evicted(v)).push(f),
        dropped_frames: (v.dropped_frames + evicted(v)) as i64,
        total_frames_enqueued: (v.total_frames_enqueued + 1) as i64,
        last_frame_size_bytes: data_bytes(f.data) as i64,
        ..v
    }
}

/// The state after `n` frames were dropped from the front of the queue.
pub open spec fn after_drop_front<P>(v: VideoPlayerView<P>, n: int) -> VideoPlayerView<P> {
    VideoPlayerView {
        queue: v.queue.skip(n),
        dropped_frames: (v.dropped_frames + n) as i64,
        ..v
    }
}

/// A frame's presentation time, size, pitches and layout.
pub open spec fn frame_meta<P>(
    f: VideoFrame<P>,
    pts_us: i64,
    width: i32,
    height: i32,
    y_pitch: i32,
    uv_pitch: i32,
    format: VideoFormat,
) -> bool {
    f.pts_us == pts_us && f.width == width && f.height == height && f.y_pitch == y_pitch
        && f.uv_pitch == uv_pitch && f.format == format
}

/// The frame's data are the three given planes.
pub open spec fn planar_data<P>(d: FrameData<P>, y: Seq<u8>, u: Seq<u8>, v: Seq<u8>) -> bool {
    d matches FrameData::Planar { y: yy, u: uu, v: vv } && yy@ == y && uu@ == u && vv@ == v
}

/// The frame's data are the two given planes.
pub open spec fn semi_planar_data<P>(d: FrameData<P>, y: Seq<u8>, uv: Seq<u8>) -> bool {
    d matches FrameData::SemiPlanar { y: yy, uv: uvv } && yy@ == y && uvv@ == uv
}

/// The frame's data are the given interleaved bytes.
pub open spec fn packed_data<P>(d: FrameData<P>, bytes: Seq<u8>) -> bool {
    d matches FrameData::Packed(b) && b@ == bytes
}

/// How an enqueue call leaves the player: unchanged when refused, else
/// with the last queued frame admitted as `after_enqueue_frame` says.
pub open spec fn enqueue_effect<P>(old_v: VideoPlayerView<P>, new_v: VideoPlayerView<P>, ok: bool) -> bool {
    &&& !ok ==> new_v == old_v
    &&& ok ==> new_v.queue.len() > 0 && new_v == after_enqueue_frame(old_v, new_v.queue.last())
}

/// The state after playback (re)started at `now_ns`: a pending pause of the
/// video-only clock ends and its length is added to the clock's anchor, so
/// that the paused time does not count as played.
pub open spec fn after_video_play<P>(v: VideoPlayerView<P>, now_ns: u64) -> VideoPlayerView<P> {
    let start = match v.pause_started_ns {
        Some(t) => if now_ns >= t {
            (v.video_start_time_ns + (now_ns - t)) as u64
        } else {
            v.video_start_time_ns
        },
        None => v.video_start_time_ns,
    };
    if v.playing {
        VideoPlayerView { video_start_time_ns: start, pause_started_ns: None, ..v }
    } else {
        VideoPlayerView {
            video_start_time_ns: start,
            pause_started_ns: None,
            playing: true,
            has_played: true,
            play_start_time_ns: if v.play_start_time_ns == 0 {
                now_ns
            } else {
                v.play_start_time_ns
            },
            fps_calc_start_ns: if v.play_start_time_ns == 0 {
                0
            } else {
                v.fps_calc_start_ns
            },
            ..v
        }
    }
}

/// Whether a pause at this point must be remembered for the video-only
/// clock: that clock runs (the audio clock does not), playback is on, and
/// no pause is pending already.
pub open spec fn records_pause<P>(v: VideoPlayerView<P>, audio_started: bool) -> bool {
    v.video_only_started && !audio_started && v.playing && v.pause_started_ns is None
}

/// The state after playback paused at `now_ns`.
pub open spec fn after_video_pause<P>(v: VideoPlayerView<P>, now_ns: u64, audio_started: bool) -> VideoPlayerView<P> {
    VideoPlayerView {
        playing: false,
        pause_started_ns: if records_pause(v, audio_started) {
            Some(now_ns)
        } else {
            v.pause_started_ns
        },
        ..v
    }
}

/// The state after a stop: no frames, no timing, no counts; the window,
/// texture, settings and drawing measurements stay.
pub open spec fn after_video_stop<P>(v: VideoPlayerView<P>) -> VideoPlayerView<P> {
    VideoPlayerView {
        playing: false,
        has_played: false,
        queue: Seq::empty(),
        last_video_pts_us: 0,
        video_only_started: false,
        video_start_time_ns: 0,
        first_video_pts_us: 0,
        pause_started_ns: None,
        dropped_frames: 0,
        repeated_frames: 0,
        total_frames_enqueued: 0,
        total_frames_rendered: 0,
        play_start_time_ns: 0,
        last_frame_size_bytes: 0,
        fps_calc_start_ns: 0,
        fps_frame_count: 0,
        ..v
    }
}

/// The state after the queue was drained: no frames, and the video-only
/// clock re-anchors on the next frame drawn.
pub open spec fn after_drain<P>(v: VideoPlayerView<P>) -> VideoPlayerView<P> {
    VideoPlayerView {
        queue: Seq::empty(),
        video_only_started: false,
        video_start_time_ns: 0,
        first_video_pts_us: 0,
        pause_started_ns: None,
        ..v
    }
}

/// Keycodes of the key presses among `evs`, in order.
pub open spec fn key_downs(evs: Seq<Event>) -> Seq<u32>
    decreases evs.len(),
{
    if evs.len() == 0 {
        Seq::empty()
    } else {
        match evs.last() {
            Event::KeyDown { keycode } => key_downs(evs.drop_last()).push(keycode),
            _ => key_downs(evs.drop_last()),
        }
    }
}

/// Whether `evs` ask for the window to close.
pub open spec fn asks_close(evs: Seq<Event>) -> bool
    decreases evs.len(),
{
    if evs.len() == 0 {
        false
    } else {
        asks_close(evs.drop_last()) || evs.last() == Event::Quit || evs.last() == Event::WindowClose
    }
}

/// The size of the last resize among `evs`.
pub open spec fn last_resize(evs: Seq<Event>) -> Option<(i32, i32)>
    decreases evs.len(),
{
    if evs.len() == 0 {
        None
    } else {
        match evs.last() {
            Event::WindowResized { width, height } => Some((width, height)),
            _ => last_resize(evs.drop_last()),
        }
    }
}

/// Whether the keys toggle the statistics overlay an odd number of times.
pub open spec fn toggles_overlay(keys: Seq<u32>) -> bool
    decreases keys.len(),
{
    if keys.len() == 0 {
        false
    } else {
        toggles_overlay(keys.drop_last()) != (keys.last() == KEYCODE_S)
    }
}

/// The state after a batch of events: nothing when the window is closed;
/// otherwise the last resize gives the window size, a quit or close request
/// closes the window, and else each press of S flips the overlay.
pub open spec fn after_events<P>(v: VideoPlayerView<P>, evs: Seq<Event>) -> VideoPlayerView<P> {
    if !v.open {
        v
    } else {
        let resized = match last_resize(evs) {
            Some((w, h)) => VideoPlayerView { window_width: w, window_height: h, ..v },
            None => v,
        };
        if asks_close(evs) {
            VideoPlayerView { open: false, ..resized }
        } else {
            VideoPlayerView {
                show_stats_overlay: resized.show_stats_overlay != toggles_overlay(key_downs(evs)),
                ..resized
            }
        }
    }
}

/// The state at the start of a tick at `now_ns`: without a running audio
/// clock, the video-only clock is anchored on the first queued frame the
/// first time a frame is due.
pub open spec fn tick_anchor<P>(v: VideoPlayerView<P>, audio_started: bool, now_ns: u64) -> VideoPlayerView<P> {
    if audio_started || v.video_only_started {
        v
    } else {
        VideoPlayerView {
            video_start_time_ns: now_ns,
            first_video_pts_us: v.queue[0].pts_us,
            video_only_started: true,
            ..v
        }
    }
}

/// The video-only clock at `now_ns`: the presentation time at the anchor
/// plus the wall-clock microseconds since.
pub open spec fn video_clock<P>(v: VideoPlayerView<P>, now_ns: u64) -> int {
    v.first_video_pts_us + (now_ns - v.video_start_time_ns) / 1000
}

/// The clock a tick compares frames against: the audio clock when it runs,
/// else the video-only clock.
pub open spec fn tick_clock<P>(v: VideoPlayerView<P>, audio_clock_us: i64, audio_started: bool, now_ns: u64) -> int {
    if audio_started {
        audio_clock_us as int
    } else {
        video_clock(tick_anchor(v, audio_started, now_ns), now_ns)
    }
}

/// A frame is too late to draw: more than `threshold` behind the clock.
pub open spec fn is_late<P>(f: VideoFrame<P>, clock: int, threshold: int) -> bool {
    f.pts_us - clock < -threshold
}

/// A frame is too early to draw: more than `threshold` ahead of the clock.
pub open spec fn is_early<P>(f: VideoFrame<P>, clock: int, threshold: int) -> bool {
    f.pts_us - clock > threshold
}

/// How many frames at the front of `q` are too late.
pub open spec fn leading_late<P>(q: Seq<VideoFrame<P>>, clock: int, threshold: int) -> nat
    decreases q.len(),
{
    if q.len() == 0 {
        0
    } else if is_late(q[0], clock, threshold) {
        1 + leading_late(q.drop_first(), clock, threshold)
    } else {
        0
    }
}

/// The state after a tick that dropped `n` late frames, with the queue
/// then holding `rest`.
pub open spec fn tick_state<P>(v: VideoPlayerView<P>, audio_clock_us: i64, audio_started: bool, now_ns: u64) -> VideoPlayerView<P> {
    if !v.playing || v.queue.len() == 0 {
        v
    } else {
        let a = tick_anchor(v, audio_started, now_ns);
        let c = tick_clock(v, audio_clock_us, audio_started, now_ns);
        let thr = v.sync_threshold_us as int;
        let n = leading_late(a.queue, c, thr) as int;
        let rest = a.queue.skip(n);
        let dropped = after_drop_front(a, n);
        if rest.len() == 0 {
            dropped
        } else if is_early(rest[0], c, thr) {
            VideoPlayerView { repeated_frames: (v.repeated_frames + 1) as i64, ..dropped }
        } else {
            VideoPlayerView { queue: rest.drop_first(), ..dropped }
        }
    }
}

/// The frame a tick draws, if any: the first queued frame that is neither
/// too late nor too early.
pub open spec fn tick_frame<P>(v: VideoPlayerView<P>, audio_clock_us: i64, audio_started: bool, now_ns: u64) -> Option<VideoFrame<P>> {
    if !v.playing || v.queue.len() == 0 {
        None
    } else {
        let a = tick_anchor(v, audio_started, now_ns);
        let c = tick_clock(v, audio_clock_us, audio_started, now_ns);
        let thr = v.sync_threshold_us as int;
        let rest = a.queue.skip(leading_late(a.queue, c, thr) as int);
        if rest.len() == 0 || is_early(rest[0], c, thr) {
            None
        } else {
            Some(rest[0])
        }
    }
}

/// The video-only clock can be read at `now_ns`: time has not gone back
/// before its anchor.
pub open spec fn time_ok<P>(v: VideoPlayerView<P>, now_ns: u64) -> bool {
    v.video_only_started ==> v.video_start_time_ns <= now_ns
}

proof fn lemma_leading_late_count<P>(q: Seq<VideoFrame<P>>, k: int, clock: int, threshold: int)
    requires
        0 <= k <= q.len(),
        forall|j: int| 0 <= j < k ==> is_late(#[trigger] q[j], clock, threshold),
        k < q.len() ==> !is_late(q[k], clock, threshold),
    ensures
        leading_late(q, clock, threshold) == k,
    decreases k,
{
    if k > 0 {
        let t = q.drop_first();
        assert forall|j: int| 0 <= j < k - 1 implies is_late(#[trigger] t[j], clock, threshold) by {
            assert(t[j] == q[j + 1]);
        }
        if k - 1 < t.len() {
            assert(t[k - 1] == q[k]);
        }
        lemma_leading_late_count(t, k - 1, clock, threshold);
    }
}

/// Whether a frame of the given size and layout needs a new texture: there
/// is none, or it has another size or layout.
pub open spec fn needs_new_texture<P>(v: VideoPlayerView<P>, width: i32, height: i32, format: VideoFormat) -> bool {
    !v.has_texture || width != v.texture_width || height != v.texture_height || format != v.texture_format
}

/// Room in the drawing measurements for one more presentation.
pub open spec fn timing_room(t: RenderTiming, tex_us: u64, clear_copy_us: u64, present_us: u64, present_end_ns: u64) -> bool {
    &&& t.texture_update_us + tex_us <= u64::MAX
    &&& t.clear_copy_us + clear_copy_us <= u64::MAX
    &&& t.present_us + present_us <= u64::MAX
    &&& t.count < u64::MAX
    &&& t.last_present_end_ns > 0 ==> t.last_present_end_ns <= present_end_ns
        && t.vsync_interval_us + (present_end_ns - t.last_present_end_ns) / 1000 <= u64::MAX
        && t.vsync_count < u64::MAX
}

/// Room in the drawing measurements for one more presentation, and time
/// not going back before the previous presentation or the frame-rate
/// window.
pub open spec fn presentation_ok<P>(
    v: VideoPlayerView<P>,
    tex_us: u64,
    clear_copy_us: u64,
    present_us: u64,
    present_end_ns: u64,
    now_ns: u64,
) -> bool {
    &&& timing_room(v.timing, tex_us, clear_copy_us, present_us, present_end_ns)
    &&& v.total_frames_rendered < i64::MAX
    &&& v.fps_frame_count < i32::MAX
    &&& v.fps_calc_start_ns <= now_ns
}

/// The drawing measurements after one more presentation.
pub open spec fn timing_after(
    t: RenderTiming,
    tex_us: u64,
    clear_copy_us: u64,
    present_us: u64,
    present_end_ns: u64,
) -> RenderTiming {
    let measured = t.last_present_end_ns > 0;
    RenderTiming {
        texture_update_us: (t.texture_update_us + tex_us) as u64,
        clear_copy_us: (t.clear_copy_us + clear_copy_us) as u64,
        present_us: (t.present_us + present_us) as u64,
        count: (t.count + 1) as u64,
        last_present_end_ns: present_end_ns,
        vsync_interval_us: if measured {
            (t.vsync_interval_us + (present_end_ns - t.last_present_end_ns) / 1000) as u64
        } else {
            t.vsync_interval_us
        },
        vsync_count: if measured {
            (t.vsync_count + 1) as u64
        } else {
            t.vsync_count
        },
        tex_max_us: if tex_us > t.tex_max_us {
            tex_us
        } else {
            t.tex_max_us
        },
    }
}

/// Start of the frame-rate window for a presentation at `now_ns`.
pub open spec fn fps_window_start<P>(v: VideoPlayerView<P>, now_ns: u64) -> u64 {
    if v.fps_calc_start_ns == 0 {
        now_ns
    } else {
        v.fps_calc_start_ns
    }
}

/// The frame-rate sample a presentation at `now_ns` completes: the frames
/// presented in the window and its length, once it spans a second.
pub open spec fn fps_sample<P>(v: VideoPlayerView<P>, now_ns: u64) -> Option<(i32, u64)> {
    let elapsed = now_ns - fps_window_start(v, now_ns);
    if elapsed >= 1_000_000_000 {
        Some(((v.fps_frame_count + 1) as i32, elapsed as u64))
    } else {
        None
    }
}

/// The state after frame `pts_us` was presented.
pub open spec fn after_present<P>(
    v: VideoPlayerView<P>,
    pts_us: i64,
    tex_us: u64,
    clear_copy_us: u64,
    present_us: u64,
    present_end_ns: u64,
    now_ns: u64,
) -> VideoPlayerView<P> {
    let sampled = fps_sample(v, now_ns) is Some;
    VideoPlayerView {
        timing: timing_after(v.timing, tex_us, clear_copy_us, present_us, present_end_ns),
        last_video_pts_us: pts_us,
        total_frames_rendered: (v.total_frames_rendered + 1) as i64,
        fps_frame_count: if sampled {
            0
        } else {
            (v.fps_frame_count + 1) as i32
        },
        fps_calc_start_ns: if sampled {
            now_ns
        } else {
            fps_window_start(v, now_ns)
        },
        ..v
    }
}

/// The integer statistics of a video player.
pub struct VideoCounters {
    pub video_queue_size: usize,
    pub dropped_frames: i64,
    pub repeated_frames: i64,
    /// Presentation time of the frame drawn last.
    pub video_pts_us: i64,
    /// The audio clock the statistics were taken at.
    pub audio_pts_us: i64,
    /// Audio clock minus the presentation time of the frame drawn last.
    pub sync_diff_us: i64,
    pub current_video_width: i32,
    pub current_video_height: i32,
    pub total_frames_enqueued: i64,
    pub total_frames_rendered: i64,
    /// Presentation-time span of the queue, when it holds two frames or more.
    pub video_buffer_us: Option<i128>,
    pub last_frame_size_bytes: i64,
    pub avg_texture_update_us: u64,
    pub max_texture_update_us: u64,
    pub avg_clear_copy_us: u64,
    pub avg_present_us: u64,
    pub avg_vsync_interval_us: u64,
}

/// `total / count`, or zero without a count.
pub open spec fn average(total: u64, count: u64) -> u64 {
    if count == 0 {
        0
    } else {
        (total / count) as u64
    }
}

/// Presentation-time span of a queue of two frames or more.
pub open spec fn buffer_span<P>(q: Seq<VideoFrame<P>>) -> Option<i128> {
    if q.len() >= 2 {
        Some((q.last().pts_us - q[0].pts_us) as i128)
    } else {
        None
    }
}

/// The overlay line naming the texture's layout and size.
pub open spec fn format_line<P>(v: VideoPlayerView<P>) -> Seq<char> {
    "Format: "@ + format_name(v.texture_format) + " "@ + decimal(v.texture_width as int) + "x"@
        + decimal(v.texture_height as int)
}

/// The overlay line with the frame counters and the queue length.
pub open spec fn frames_line<P>(v: VideoPlayerView<P>) -> Seq<char> {
    "Frames: enq="@ + decimal(v.total_frames_enqueued as int) + " rend="@ + decimal(
        v.total_frames_rendered as int,
    ) + " drop="@ + decimal(v.dropped_frames as int) + " rep="@ + decimal(
        v.repeated_frames as int,
    ) + " queue="@ + decimal(v.queue.len() as int)
}

/// The overlay line with the presentation time drawn last and the audio
/// clock.
pub open spec fn pts_line<P>(v: VideoPlayerView<P>, audio_clock_us: int) -> Seq<char> {
    "Video PTS: "@ + decimal(v.last_video_pts_us as int) + "us  Audio PTS: "@ + decimal(
        audio_clock_us,
    ) + "us"@
}

impl<P> VideoPlayer<P> {
    pub open spec fn wf(&self) -> bool {
        video_wf(self@)
    }

    /// A player for a window of the given size and title; refused when the
    /// title holds a NUL character.
    pub fn new(width: i32, height: i32, title: &str) -> (r: Result<VideoPlayer<P>>)
        ensures
            outcome(r) == title_check(title@),
            r matches Ok(p) ==> p@ == initial_video_view::<P>(width, height, title@) && p.wf(),
    {
        let window = Window::new(title, width, height)?;
        let p = VideoPlayer {
            open: true,
            window,
            window_width: width,
            window_height: height,
            has_texture: false,
            texture_width: 0,
            texture_height: 0,
            texture_format: VideoFormat::I420,
            video_queue: std::collections::VecDeque::new(),
            playing: false,
            has_played: false,
            last_video_pts_us: 0,
            video_start_time_ns: 0,
            first_video_pts_us: 0,
            video_only_started: false,
            pause_started_ns: None,
            sync_threshold_us: SYNC_THRESHOLD_US,
            max_video_queue_size: DEFAULT_MAX_VIDEO_QUEUE_SIZE,
            vsync_interval: 1,
            dropped_frames: 0,
            repeated_frames: 0,
            total_frames_enqueued: 0,
            total_frames_rendered: 0,
            play_start_time_ns: 0,
            last_frame_size_bytes: 0,
            fps_calc_start_ns: 0,
            fps_frame_count: 0,
            timing: RenderTiming {
                texture_update_us: 0,
                clear_copy_us: 0,
                present_us: 0,
                count: 0,
                last_present_end_ns: 0,
                vsync_interval_us: 0,
                vsync_count: 0,
                tex_max_us: 0,
            },
            show_stats_overlay: false,
        };
        assert(p@.queue =~= Seq::<VideoFrame<P>>::empty());
        Ok(p)
    }

    /// Whether the frame counters have room for one more operation (see
    /// `counters_room`).
    pub fn has_counter_room(&self) -> (b: bool)
        requires
            self.wf(),
        ensures
            b == counters_room(self@),
    {
        self.dropped_frames < i64::MAX && (self.video_queue.len() as u64) < (i64::MAX
            - self.dropped_frames) as u64 && self.repeated_frames < i64::MAX
            && self.total_frames_enqueued < i64::MAX && self.total_frames_rendered < i64::MAX
    }

    /// Admits a checked frame: refused with `NotPlaying` while paused;
    /// otherwise, with a positive queue bound, frames are dropped from the
    /// front until the new one fits, and the frame joins the back.
    fn enqueue_frame(&mut self, frame: VideoFrame<P>) -> (r: Result<()>)
        requires
            old(self).wf(),
            counters_room(old(self)@),
            frame_ok(frame),
        ensures
            final(self).wf(),
            outcome(r) == enqueue_outcome(old(self)@, None),
            r is Err ==> final(self)@ == old(self)@,
            r is Ok ==> final(self)@ == after_enqueue_frame(old(self)@, frame),
    {
        if self.has_played && !self.playing {
            return Err(Error::NotPlaying);
        }
        proof {
            frame_ok_bytes(frame);
        }
        let frame_size_bytes = frame.data.size_bytes() as i64;
        self.last_frame_size_bytes = frame_size_bytes;
        self.total_frames_enqueued = self.total_frames_enqueued + 1;
        let ghost old_q = self.video_queue@;
        let ghost k = evicted(old(self)@);
        let ghost pre = self@;
        if self.max_video_queue_size > 0 {
            let ghost mut dropped: int = 0;
            assert(pre.queue.skip(0) =~= pre.queue);
            while self.video_queue.len() >= self.max_video_queue_size
                invariant
                    self.max_video_queue_size == old(self)@.max_video_queue_size,
                    self.max_video_queue_size > 0,
                    0 <= dropped <= k,
                    old_q.len() >= self.max_video_queue_size ==> k == old_q.len()
                        - self.max_video_queue_size + 1,
                    old_q.len() < self.max_video_queue_size ==> k == 0,
                    self.video_queue@ == old_q.skip(dropped),
                    self@ == after_drop_front(pre, dropped),
                    pre.queue == old_q,
                    pre.dropped_frames == old(self)@.dropped_frames,
                    dropped > 0 ==> self.video_queue@.len() + 1 >= self.max_video_queue_size,
                    self.dropped_frames == old(self)@.dropped_frames + dropped,
                    old(self)@.dropped_frames + old_q.len() < i64::MAX,
                decreases self.video_queue@.len(),
            {
                let ghost before = self.video_queue@;
                self.video_queue.pop_front();
                self.dropped_frames = self.dropped_frames + 1;
                proof {
                    assert(self.video_queue@ =~= old_q.skip(dropped + 1));
                    dropped = dropped + 1;
                }
            }
            proof {
                assert(dropped == k);
            }
        }
        proof {
            assert(k == 0 ==> old_q.skip(k) =~= old_q);
        }
        self.video_queue.push_back(frame);
        proof {
            assert(self@.queue =~= old_q.skip(k).push(frame));
            assert forall|i: int| 0 <= i < self@.queue.len() implies frame_ok(
                #[trigger] self@.queue[i],
            ) by {
                if i < self@.queue.len() - 1 {
                    assert(self@.queue[i] == old_q[i + k]);
                }
            }
            assert(self@ == after_enqueue_frame(old(self)@, frame));
        }
        Ok(())
    }

    /// Queues an I420 frame after `validate_i420`; it is uploaded with pitches
    /// `width` and `width / 2`.
    pub fn enqueue_video_i420(&mut self, y: &[u8], u: &[u8], v: &[u8], width: i32, height: i32, pts_us: i64) -> (r: Result<()>)
        requires
            old(self).wf(),
            counters_room(old(self)@),
        ensures
            final(self).wf(),
            outcome(r) == enqueue_outcome(old(self)@, i420_check(y@.len() as int, u@.len() as int, v@.len() as int, width as int, height as int)),
            enqueue_effect(old(self)@, final(self)@, r is Ok),
            r is Ok ==> frame_meta(final(self)@.queue.last(), pts_us, width, height, width, (width / 2) as i32, VideoFormat::I420) && planar_data(final(self)@.queue.last().data, y@, u@, v@),
    {
        validate_i420(y, u, v, width, height)?;
        proof {
            lemma_unstrided_is_tight_strided(y@.len() as int, u@.len() as int, v@.len() as int, 0, width as int, height as int);
        }
        let frame = VideoFrame {
            pts_us,
            width,
            height,
            y_pitch: width,
            uv_pitch: width / 2,
            format: VideoFormat::I420,
            data: FrameData::Planar {
                y: vstd::slice::slice_to_vec(y),
                u: vstd::slice::slice_to_vec(u),
                v: vstd::slice::slice_to_vec(v),
            },
        };
        self.enqueue_frame(frame)
    }

    /// Queues an I420 frame with padded rows after `validate_i420_strided`.
    pub fn enqueue_video_i420_strided(&mut self, y: &[u8], u: &[u8], v: &[u8], width: i32, height: i32, y_pitch: i32, uv_pitch: i32, pts_us: i64) -> (r: Result<()>)
        requires
            old(self).wf(),
            counters_room(old(self)@),
        ensures
            final(self).wf(),
            outcome(r) == enqueue_outcome(old(self)@, i420_strided_check(y@.len() as int, u@.len() as int, v@.len() as int, width as int, height as int, y_pitch as int, uv_pitch as int)),
            enqueue_effect(old(self)@, final(self)@, r is Ok),
            r is Ok ==> frame_meta(final(self)@.queue.last(), pts_us, width, height, y_pitch, uv_pitch, VideoFormat::I420) && planar_data(final(self)@.queue.last().data, y@, u@, v@),
    {
        validate_i420_strided(y, u, v, width, height, y_pitch, uv_pitch)?;
        proof {
            
        }
        let frame = VideoFrame {
            pts_us,
            width,
            height,
            y_pitch,
            uv_pitch,
            format: VideoFormat::I420,
            data: FrameData::Planar {
                y: vstd::slice::slice_to_vec(y),
                u: vstd::slice::slice_to_vec(u),
                v: vstd::slice::slice_to_vec(v),
            },
        };
        self.enqueue_frame(frame)
    }

    /// Queues an NV12 frame after `validate_nv12`; both planes are uploaded
    /// with pitch `width`.
    pub fn enqueue_video_nv12(&mut self, y: &[u8], uv: &[u8], width: i32, height: i32, pts_us: i64) -> (r: Result<()>)
        requires
            old(self).wf(),
            counters_room(old(self)@),
        ensures
            final(self).wf(),
            outcome(r) == enqueue_outcome(old(self)@, nv12_check(y@.len() as int, uv@.len() as int, width as int, height as int)),
            enqueue_effect(old(self)@, final(self)@, r is Ok),
            r is Ok ==> frame_meta(final(self)@.queue.last(), pts_us, width, height, width, width, VideoFormat::NV12) && semi_planar_data(final(self)@.queue.last().data, y@, uv@),
    {
        validate_nv12(y, uv, width, height)?;
        proof {
            lemma_unstrided_is_tight_strided(y@.len() as int, uv@.len() as int, 0, 0, width as int, height as int);
        }
        let frame = VideoFrame {
            pts_us,
            width,
            height,
            y_pitch: width,
            uv_pitch: width,
            format: VideoFormat::NV12,
            data: FrameData::SemiPlanar {
                y: vstd::slice::slice_to_vec(y),
                uv: vstd::slice::slice_to_vec(uv),
            },
        };
        self.enqueue_frame(frame)
    }

    /// Queues an NV12 frame with padded rows after `validate_nv12_strided`.
    pub fn enqueue_video_nv12_strided(&mut self, y: &[u8], uv: &[u8], width: i32, height: i32, y_pitch: i32, uv_pitch: i32, pts_us: i64) -> (r: Result<()>)
        requires
            old(self).wf(),
            counters_room(old(self)@),
        ensures
            final(self).wf(),
            outcome(r) == enqueue_outcome(old(self)@, nv12_strided_check(y@.len() as int, uv@.len() as int, width as int, height as int, y_pitch as int, uv_pitch as int)),
            enqueue_effect(old(self)@, final(self)@, r is Ok),
            r is Ok ==> frame_meta(final(self)@.queue.last(), pts_us, width, height, y_pitch, uv_pitch, VideoFormat::NV12) && semi_planar_data(final(self)@.queue.last().data, y@, uv@),
    {
        validate_nv12_strided(y, uv, width, height, y_pitch, uv_pitch)?;
        proof {
            
        }
        let frame = VideoFrame {
            pts_us,
            width,
            height,
            y_pitch,
            uv_pitch,
            format: VideoFormat::NV12,
            data: FrameData::SemiPlanar {
                y: vstd::slice::slice_to_vec(y),
                uv: vstd::slice::slice_to_vec(uv),
            },
        };
        self.enqueue_frame(frame)
    }

    /// Queues a YUY2 frame after `validate_yuy2`; it is uploaded with pitch
    /// `width * 2`.
    pub fn enqueue_video_yuy2(&mut self, data: &[u8], width: i32, height: i32, pts_us: i64) -> (r: Result<()>)
        requires
            old(self).wf(),
            counters_room(old(self)@),
        ensures
            final(self).wf(),
            outcome(r) == enqueue_outcome(old(self)@, yuy2_check(data@.len() as int, width as int, height as int)),
            enqueue_effect(old(self)@, final(self)@, r is Ok),
            r is Ok ==> frame_meta(final(self)@.queue.last(), pts_us, width, height, (width * 2) as i32, 0, VideoFormat::YUY2) && packed_data(final(self)@.queue.last().data, data@),
    {
        validate_yuy2(data, width, height)?;
        proof {
            lemma_unstrided_is_tight_strided(0, 0, 0, data@.len() as int, width as int, height as int);
        }
        let frame = VideoFrame {
            pts_us,
            width,
            height,
            y_pitch: width * 2,
            uv_pitch: 0,
            format: VideoFormat::YUY2,
            data: FrameData::Packed(vstd::slice::slice_to_vec(data)),
        };
        self.enqueue_frame(frame)
    }

    /// Queues a YUY2 frame with padded rows after `validate_yuy2_strided`.
    pub fn enqueue_video_yuy2_strided(&mut self, data: &[u8], width: i32, height: i32, pitch: i32, pts_us: i64) -> (r: Result<()>)
        requires
            old(self).wf(),
            counters_room(old(self)@),
        ensures
            final(self).wf(),
            outcome(r) == enqueue_outcome(old(self)@, yuy2_strided_check(data@.len() as int, width as int, height as int, pitch as int)),
            enqueue_effect(old(self)@, final(self)@, r is Ok),
            r is Ok ==> frame_meta(final(self)@.queue.last(), pts_us, width, height, pitch, 0, VideoFormat::YUY2) && packed_data(final(self)@.queue.last().data, data@),
    {
        validate_yuy2_strided(data, width, height, pitch)?;
        proof {
            
        }
        let frame = VideoFrame {
            pts_us,
            width,
            height,
            y_pitch: pitch,
            uv_pitch: 0,
            format: VideoFormat::YUY2,
            data: FrameData::Packed(vstd::slice::slice_to_vec(data)),
        };
        self.enqueue_frame(frame)
    }

    /// Queues an RGBA frame after `validate_rgba`; it is uploaded with pitch
    /// `width * 4`.
    pub fn enqueue_video_rgba(&mut self, data: &[u8], width: i32, height: i32, pts_us: i64) -> (r: Result<()>)
        requires
            old(self).wf(),
            counters_room(old(self)@),
        ensures
            final(self).wf(),
            outcome(r) == enqueue_outcome(old(self)@, packed_4bpp_check(data@.len() as int, width as int, height as int, "RGBA"@)),
            enqueue_effect(old(self)@, final(self)@, r is Ok),
            r is Ok ==> frame_meta(final(self)@.queue.last(), pts_us, width, height, (width * 4) as i32, 0, VideoFormat::Rgba) && packed_data(final(self)@.queue.last().data, data@),
    {
        validate_rgba(data, width, height)?;
        proof {
            
        }
        let frame = VideoFrame {
            pts_us,
            width,
            height,
            y_pitch: width * 4,
            uv_pitch: 0,
            format: VideoFormat::Rgba,
            data: FrameData::Packed(vstd::slice::slice_to_vec(data)),
        };
        self.enqueue_frame(frame)
    }

    /// Queues a BGRA frame after `validate_bgra`; it is uploaded with pitch
    /// `width * 4`.
    pub fn enqueue_video_bgra(&mut self, data: &[u8], width: i32, height: i32, pts_us: i64) -> (r: Result<()>)
        requires
            old(self).wf(),
            counters_room(old(self)@),
        ensures
            final(self).wf(),
            outcome(r) == enqueue_outcome(old(self)@, packed_4bpp_check(data@.len() as int, width as int, height as int, "BGRA"@)),
            enqueue_effect(old(self)@, final(self)@, r is Ok),
            r is Ok ==> frame_meta(final(self)@.queue.last(), pts_us, width, height, (width * 4) as i32, 0, VideoFormat::Bgra) && packed_data(final(self)@.queue.last().data, data@),
    {
        validate_bgra(data, width, height)?;
        proof {
            
        }
        let frame = VideoFrame {
            pts_us,
            width,
            height,
            y_pitch: width * 4,
            uv_pitch: 0,
            format: VideoFormat::Bgra,
            data: FrameData::Packed(vstd::slice::slice_to_vec(data)),
        };
        self.enqueue_frame(frame)
    }

    /// Queues a BGRA frame after `validate_bgra`, taking the buffer without
    /// copying it.
    pub fn enqueue_video_bgra_owned(&mut self, data: Vec<u8>, width: i32, height: i32, pts_us: i64) -> (r: Result<()>)
        requires
            old(self).wf(),
            counters_room(old(self)@),
        ensures
            final(self).wf(),
            outcome(r) == enqueue_outcome(old(self)@, packed_4bpp_check(data@.len() as int, width as int, height as int, "BGRA"@)),
            enqueue_effect(old(self)@, final(self)@, r is Ok),
            r is Ok ==> frame_meta(final(self)@.queue.last(), pts_us, width, height, (width * 4) as i32, 0, VideoFormat::Bgra) && packed_data(final(self)@.queue.last().data, data@),
    {
        validate_bgra(data.as_slice(), width, height)?;
        proof {
            
        }
        let frame = VideoFrame {
            pts_us,
            width,
            height,
            y_pitch: width * 4,
            uv_pitch: 0,
            format: VideoFormat::Bgra,
            data: FrameData::Packed(data),
        };
        self.enqueue_frame(frame)
    }

    /// Queues an externally owned I420 or NV12 buffer after
    /// `validate_pixel_buffer_frame`. The pitches are recorded but the frame
    /// is drawn with the strides the buffer reports.
    pub fn enqueue_video_pixel_buffer(&mut self, buffer: P, format: VideoFormat, width: i32, height: i32, y_pitch: i32, uv_pitch: i32, pts_us: i64) -> (r: Result<()>)
        requires
            old(self).wf(),
            counters_room(old(self)@),
        ensures
            final(self).wf(),
            outcome(r) == enqueue_outcome(old(self)@, pixel_buffer_frame_check(format, width as int, height as int)),
            enqueue_effect(old(self)@, final(self)@, r is Ok),
            r is Ok ==> frame_meta(final(self)@.queue.last(), pts_us, width, height, y_pitch, uv_pitch, format) && final(self)@.queue.last().data == FrameData::PixelBuffer(buffer),
    {
        validate_pixel_buffer_frame(format, width, height)?;
        proof {
            
        }
        let frame = VideoFrame {
            pts_us,
            width,
            height,
            y_pitch,
            uv_pitch,
            format,
            data: FrameData::PixelBuffer(buffer),
        };
        self.enqueue_frame(frame)
    }

    /// Starts playback. `audio` is the outcome of starting the audio side,
    /// which the caller does first; when it failed nothing changes and its
    /// error is returned. Otherwise see `after_video_play`.
    pub fn play(&mut self, audio: Result<()>, now_ns: u64) -> (r: Result<()>)
        requires
            old(self).wf(),
        ensures
            final(self).wf(),
            audio is Err ==> r == audio && final(self)@ == old(self)@,
            audio is Ok ==> r is Ok && final(self)@ == after_video_play(old(self)@, now_ns),
    {
        if let Err(e) = audio {
            return Err(e);
        }
        if let Some(t) = self.pause_started_ns {
            if now_ns >= t {
                self.video_start_time_ns = self.video_start_time_ns + (now_ns - t);
            }
        }
        self.pause_started_ns = None;
        if !self.playing {
            self.playing = true;
            self.has_played = true;
            if self.play_start_time_ns == 0 {
                self.play_start_time_ns = now_ns;
                self.fps_calc_start_ns = 0;
            }
        }
        Ok(())
    }

    /// Pauses playback at `now_ns`. `audio` is the outcome of pausing the
    /// audio side, done first; when it failed nothing changes and its error
    /// is returned. `audio_started` says whether the audio clock runs.
    /// Otherwise see `after_video_pause`.
    pub fn pause(&mut self, audio: Result<()>, now_ns: u64, audio_started: bool) -> (r: Result<()>)
        requires
            old(self).wf(),
            old(self)@.video_only_started ==> old(self)@.video_start_time_ns <= now_ns,
        ensures
            final(self).wf(),
            audio is Err ==> r == audio && final(self)@ == old(self)@,
            audio is Ok ==> r is Ok && final(self)@ == after_video_pause(old(self)@, now_ns, audio_started),
    {
        if let Err(e) = audio {
            return Err(e);
        }
        if self.video_only_started && !audio_started && self.playing && self.pause_started_ns.is_none() {
            self.pause_started_ns = Some(now_ns);
        }
        self.playing = false;
        Ok(())
    }

    /// Stops playback and forgets the queue and every count. `audio` is the
    /// outcome of stopping the audio side, done first; when it failed
    /// nothing changes and its error is returned. Otherwise see
    /// `after_video_stop`.
    pub fn stop(&mut self, audio: Result<()>) -> (r: Result<()>)
        requires
            old(self).wf(),
        ensures
            final(self).wf(),
            audio is Err ==> r == audio && final(self)@ == old(self)@,
            audio is Ok ==> r is Ok && final(self)@ == after_video_stop(old(self)@),
    {
        if let Err(e) = audio {
            return Err(e);
        }
        self.playing = false;
        self.has_played = false;
        self.video_queue.clear();
        self.last_video_pts_us = 0;
        self.video_only_started = false;
        self.video_start_time_ns = 0;
        self.first_video_pts_us = 0;
        self.pause_started_ns = None;
        self.dropped_frames = 0;
        self.repeated_frames = 0;
        self.total_frames_enqueued = 0;
        self.total_frames_rendered = 0;
        self.play_start_time_ns = 0;
        self.last_frame_size_bytes = 0;
        self.fps_calc_start_ns = 0;
        self.fps_frame_count = 0;
        proof {
            assert(self@.queue =~= Seq::<VideoFrame<P>>::empty());
        }
        Ok(())
    }

    /// Empties the queue and resets the video-only clock, which re-anchors
    /// on the next frame drawn.
    pub fn drain_video(&mut self)
        requires
            old(self).wf(),
        ensures
            final(self).wf(),
            final(self)@ == after_drain(old(self)@),
    {
        self.video_queue.clear();
        self.video_only_started = false;
        self.video_start_time_ns = 0;
        self.first_video_pts_us = 0;
        self.pause_started_ns = None;
        proof {
            assert(self@.queue =~= Seq::<VideoFrame<P>>::empty());
        }
    }

    /// Marks the window closed.
    pub fn close(&mut self)
        requires
            old(self).wf(),
        ensures
            final(self).wf(),
            final(self)@ == (VideoPlayerView { open: false, ..old(self)@ }),
    {
        self.open = false;
    }

    pub fn is_open(&self) -> (b: bool)
        ensures
            b == self@.open,
    {
        self.open
    }

    pub fn is_playing(&self) -> (b: bool)
        ensures
            b == self@.playing,
    {
        self.playing
    }

    /// The window's width as last reported.
    pub fn width(&self) -> (w: i32)
        ensures
            w == self@.window_width,
    {
        self.window_width
    }

    /// The window's height as last reported.
    pub fn height(&self) -> (h: i32)
        ensures
            h == self@.window_height,
    {
        self.window_height
    }

    pub fn title(&self) -> (t: String)
        ensures
            t@ == self@.title,
    {
        String::from_str(self.window.title())
    }

    /// Replaces the window title; refused, with nothing changed, when the
    /// title holds a NUL character.
    pub fn set_title(&mut self, title: &str) -> (r: Result<()>)
        requires
            old(self).wf(),
        ensures
            final(self).wf(),
            outcome(r) == title_check(title@),
            r is Err ==> final(self)@ == old(self)@,
            r is Ok ==> final(self)@ == (VideoPlayerView { title: title@, ..old(self)@ }),
    {
        self.window.set_title(title)
    }

    /// Sets how many frames the queue holds before the oldest is dropped
    /// (zero: no bound). Takes effect at the next enqueue.
    pub fn set_max_video_queue_size(&mut self, size: usize)
        requires
            old(self).wf(),
        ensures
            final(self).wf(),
            final(self)@ == (VideoPlayerView { max_video_queue_size: size, ..old(self)@ }),
    {
        self.max_video_queue_size = size;
    }

    pub fn max_video_queue_size(&self) -> (n: usize)
        ensures
            n == self@.max_video_queue_size,
    {
        self.max_video_queue_size
    }

    pub fn set_stats_overlay(&mut self, enabled: bool)
        requires
            old(self).wf(),
        ensures
            final(self).wf(),
            final(self)@ == (VideoPlayerView { show_stats_overlay: enabled, ..old(self)@ }),
    {
        self.show_stats_overlay = enabled;
    }

    pub fn stats_overlay(&self) -> (b: bool)
        ensures
            b == self@.show_stats_overlay,
    {
        self.show_stats_overlay
    }

    /// Records the vsync interval (0: off, 1: on) that textures are set up
    /// with.
    pub fn set_vsync(&mut self, interval: i32)
        requires
            old(self).wf(),
        ensures
            final(self).wf(),
            final(self)@ == (VideoPlayerView { vsync_interval: interval, ..old(self)@ }),
    {
        self.vsync_interval = interval;
    }

    pub fn vsync_interval(&self) -> (n: i32)
        ensures
            n == self@.vsync_interval,
    {
        self.vsync_interval
    }

    /// Applies a batch of input and window events (see `after_events`).
    /// Gives the keycodes pressed, in order, for the caller's key handler,
    /// or `None` when the window is (now) closed.
    pub fn apply_events(&mut self, events: &Vec<Event>) -> (keys: Option<Vec<u32>>)
        requires
            old(self).wf(),
        ensures
            final(self).wf(),
            final(self)@ == after_events(old(self)@, events@),
            keys is Some <==> (old(self)@.open && !asks_close(events@)),
            keys matches Some(k) ==> k@ == key_downs(events@),
    {
        if !self.open {
            return None;
        }
        let mut should_close = false;
        let mut key_events: Vec<u32> = Vec::new();
        let mut resize: Option<(i32, i32)> = None;
        let n = events.len();
        let mut i: usize = 0;
        while i < n
            invariant
                n == events@.len(),
                i <= n,
                should_close == asks_close(events@.take(i as int)),
                key_events@ == key_downs(events@.take(i as int)),
                resize == last_resize(events@.take(i as int)),
            decreases n - i,
        {
            proof {
                assert(events@.take(i as int + 1).drop_last() =~= events@.take(i as int));
            }
            match events[i] {
                Event::Quit | Event::WindowClose => {
                    should_close = true;
                },
                Event::KeyDown { keycode } => {
                    key_events.push(keycode);
                },
                Event::WindowResized { width, height } => {
                    resize = Some((width, height));
                },
                _ => {},
            }
            i = i + 1;
        }
        proof {
            assert(events@.take(n as int) =~= events@);
        }
        if let Some((w, h)) = resize {
            self.window_width = w;
            self.window_height = h;
        }
        if should_close {
            self.open = false;
            return None;
        }
        let mut overlay = self.show_stats_overlay;
        let mut j: usize = 0;
        while j < key_events.len()
            invariant
                j <= key_events@.len(),
                overlay == (old(self)@.show_stats_overlay != toggles_overlay(key_events@.take(j as int))),
            decreases key_events@.len() - j,
        {
            proof {
                assert(key_events@.take(j as int + 1).drop_last() =~= key_events@.take(j as int));
            }
            if key_events[j] == KEYCODE_S {
                overlay = !overlay;
            }
            j = j + 1;
        }
        proof {
            assert(key_events@.take(key_events@.len() as int) =~= key_events@);
        }
        self.show_stats_overlay = overlay;
        Some(key_events)
    }

    /// One synchronisation tick at `now_ns`, while playing: frames too late
    /// for the clock are dropped from the front; if the next frame is too
    /// early it stays and counts as a repeat of the frame on screen;
    /// otherwise it is taken out and given back to be drawn. See
    /// `tick_state` and `tick_frame`.
    pub fn render_next_frame(&mut self, audio_clock_us: i64, audio_started: bool, now_ns: u64) -> (frame: Option<VideoFrame<P>>)
        requires
            old(self).wf(),
            counters_room(old(self)@),
            time_ok(old(self)@, now_ns),
        ensures
            final(self).wf(),
            final(self)@ == tick_state(old(self)@, audio_clock_us, audio_started, now_ns),
            frame == tick_frame(old(self)@, audio_clock_us, audio_started, now_ns),
    {
        if !self.playing || self.video_queue.len() == 0 {
            return None;
        }
        let clock: i128 = if audio_started {
            audio_clock_us as i128
        } else {
            if !self.video_only_started {
                self.video_start_time_ns = now_ns;
                self.first_video_pts_us = self.video_queue[0].pts_us;
                self.video_only_started = true;
            }
            let elapsed_us = ((now_ns - self.video_start_time_ns) / 1000) as i128;
            self.first_video_pts_us as i128 + elapsed_us
        };
        let thr = self.sync_threshold_us as i128;
        let ghost a = self@;
        let ghost c = clock as int;
        proof {
            assert(a == tick_anchor(old(self)@, audio_started, now_ns));
            assert(c == tick_clock(old(self)@, audio_clock_us, audio_started, now_ns));
        }
        let len = self.video_queue.len();
        let mut k: usize = 0;
        while k < len && (self.video_queue[k].pts_us as i128) - clock < -thr
            invariant
                len == self.video_queue@.len(),
                k <= len,
                self@ == a,
                clock == c,
                -0x8000_0000_0000_0000 <= c <= 0x7fff_ffff_ffff_ffff + 18446744073709551,
                thr == a.sync_threshold_us,
                forall|j: int| 0 <= j < k ==> is_late(#[trigger] a.queue[j], c, thr as int),
            decreases len - k,
        {
            k = k + 1;
        }
        proof {
            lemma_leading_late_count(a.queue, k as int, c, thr as int);
        }
        self.drop_front(k);
        if self.video_queue.len() == 0 {
            return None;
        }
        proof {
            assert(self@.queue[0] == a.queue[k as int]);
        }
        let diff = self.video_queue[0].pts_us as i128 - clock;
        if diff > thr {
            self.repeated_frames = self.repeated_frames + 1;
            return None;
        }
        let f = self.video_queue.pop_front();
        proof {
            assert(self@.queue =~= a.queue.skip(k as int).drop_first());
        }
        f
    }

    /// Drops the `n` frames at the front of the queue, counting them as
    /// dropped.
    fn drop_front(&mut self, n: usize)
        requires
            old(self).wf(),
            n <= old(self)@.queue.len(),
            old(self)@.dropped_frames + n <= i64::MAX,
        ensures
            final(self).wf(),
            final(self)@ == after_drop_front(old(self)@, n as int),
    {
        let ghost pre = self@;
        let mut d: usize = 0;
        proof {
            assert(pre.queue.skip(0) =~= pre.queue);
        }
        while d < n
            invariant
                d <= n,
                n <= pre.queue.len(),
                pre.dropped_frames + n <= i64::MAX,
                self@ == after_drop_front(pre, d as int),
                video_wf(pre),
            decreases n - d,
        {
            self.video_queue.pop_front();
            self.dropped_frames = self.dropped_frames + 1;
            proof {
                assert(self@.queue =~= pre.queue.skip(d + 1));
            }
            d = d + 1;
        }
        proof {
            assert forall|i: int| 0 <= i < self@.queue.len() implies frame_ok(#[trigger] self@.queue[i]) by {
                assert(self@.queue[i] == pre.queue[i + n]);
            }
        }
    }

    /// Whether a frame of the given size and layout needs a new texture.
    pub fn needs_texture(&self, width: i32, height: i32, format: VideoFormat) -> (b: bool)
        ensures
            b == needs_new_texture(self@, width, height, format),
    {
        !self.has_texture || width != self.texture_width || height != self.texture_height
            || format != self.texture_format
    }

    /// Records that the texture was released, before a new one is made.
    pub fn texture_released(&mut self)
        requires
            old(self).wf(),
        ensures
            final(self).wf(),
            final(self)@ == (VideoPlayerView { has_texture: false, ..old(self)@ }),
    {
        self.has_texture = false;
    }

    /// Records that a texture of the given size and layout was made.
    pub fn texture_created(&mut self, width: i32, height: i32, format: VideoFormat)
        requires
            old(self).wf(),
        ensures
            final(self).wf(),
            final(self)@ == (VideoPlayerView {
                has_texture: true,
                texture_width: width,
                texture_height: height,
                texture_format: format,
                ..old(self)@
            }),
    {
        self.has_texture = true;
        self.texture_width = width;
        self.texture_height = height;
        self.texture_format = format;
    }

    /// Whether one more presentation can be recorded (see `presentation_ok`).
    pub fn can_record_presentation(
        &self,
        tex_us: u64,
        clear_copy_us: u64,
        present_us: u64,
        present_end_ns: u64,
        now_ns: u64,
    ) -> (b: bool)
        ensures
            b == presentation_ok(self@, tex_us, clear_copy_us, present_us, present_end_ns, now_ns),
    {
        let t = self.timing;
        if t.texture_update_us.checked_add(tex_us).is_none() || t.clear_copy_us.checked_add(
            clear_copy_us,
        ).is_none() || t.present_us.checked_add(present_us).is_none() || t.count == u64::MAX {
            return false;
        }
        if t.last_present_end_ns > 0 {
            if t.last_present_end_ns > present_end_ns || t.vsync_count == u64::MAX {
                return false;
            }
            if t.vsync_interval_us.checked_add((present_end_ns - t.last_present_end_ns) / 1000).is_none() {
                return false;
            }
        }
        self.total_frames_rendered < i64::MAX && self.fps_frame_count < i32::MAX
            && self.fps_calc_start_ns <= now_ns
    }

    /// Records that frame `pts_us` was drawn and presented: how long the
    /// texture upload, the clear-and-copy and the presentation took, when
    /// the presentation ended, and the time `now_ns` after it. Gives the
    /// frame-rate sample this completes, if any (see `fps_sample`).
    pub fn frame_presented(
        &mut self,
        pts_us: i64,
        tex_us: u64,
        clear_copy_us: u64,
        present_us: u64,
        present_end_ns: u64,
        now_ns: u64,
    ) -> (sample: Option<(i32, u64)>)
        requires
            old(self).wf(),
            presentation_ok(old(self)@, tex_us, clear_copy_us, present_us, present_end_ns, now_ns),
        ensures
            final(self).wf(),
            final(self)@ == after_present(
                old(self)@,
                pts_us,
                tex_us,
                clear_copy_us,
                present_us,
                present_end_ns,
                now_ns,
            ),
            sample == fps_sample(old(self)@, now_ns),
    {
        self.timing = next_timing(self.timing, tex_us, clear_copy_us, present_us, present_end_ns);
        self.last_video_pts_us = pts_us;
        self.total_frames_rendered = self.total_frames_rendered + 1;
        self.fps_frame_count = self.fps_frame_count + 1;
        if self.fps_calc_start_ns == 0 {
            self.fps_calc_start_ns = now_ns;
        }
        let elapsed_ns = now_ns - self.fps_calc_start_ns;
        if elapsed_ns >= 1_000_000_000 {
            let frames = self.fps_frame_count;
            self.fps_calc_start_ns = now_ns;
            self.fps_frame_count = 0;
            Some((frames, elapsed_ns))
        } else {
            None
        }
    }

    /// Nanoseconds since playback first started (zero before it did).
    pub fn elapsed_ns(&self, now_ns: u64) -> (ns: u64)
        requires
            self@.has_played ==> self@.play_start_time_ns <= now_ns,
        ensures
            ns == (if self@.has_played {
                now_ns - self@.play_start_time_ns
            } else {
                0int
            }),
    {
        if self.has_played {
            now_ns - self.play_start_time_ns
        } else {
            0
        }
    }

    /// Whether the video-only clock can be read at `now_ns` (see `time_ok`).
    pub fn time_ok_at(&self, now_ns: u64) -> (b: bool)
        ensures
            b == time_ok(self@, now_ns),
    {
        !self.video_only_started || self.video_start_time_ns <= now_ns
    }

    /// Whether `now_ns` is not before the time playback first started
    /// (trivially so before it started).
    pub fn started_by(&self, now_ns: u64) -> (b: bool)
        ensures
            b == (self@.has_played ==> self@.play_start_time_ns <= now_ns),
    {
        !self.has_played || self.play_start_time_ns <= now_ns
    }

    /// Whether `counters` can be taken at the given audio clock: its
    /// difference with the presentation time drawn last fits in `i64`.
    pub fn counters_computable(&self, audio_clock_us: i64) -> (b: bool)
        ensures
            b == (i64::MIN <= audio_clock_us - self@.last_video_pts_us <= i64::MAX),
    {
        audio_clock_us.checked_sub(self.last_video_pts_us).is_some()
    }

    /// The whole-number lines of the statistics overlay, in the order they
    /// are drawn: the texture's layout and size, the frame counters, and the
    /// presentation times.
    pub fn overlay_lines(&self, audio_clock_us: i64) -> (lines: (String, String, String))
        ensures
            lines.0@ == format_line(self@),
            lines.1@ == frames_line(self@),
            lines.2@ == pts_line(self@, audio_clock_us as int),
    {
        let mut f = String::from_str("Format: ");
        f.append(self.texture_format.name());
        f.append(" ");
        push_decimal(&mut f, self.texture_width as i64);
        f.append("x");
        push_decimal(&mut f, self.texture_height as i64);

        let mut n = String::from_str("Frames: enq=");
        push_decimal(&mut n, self.total_frames_enqueued);
        n.append(" rend=");
        push_decimal(&mut n, self.total_frames_rendered);
        n.append(" drop=");
        push_decimal(&mut n, self.dropped_frames);
        n.append(" rep=");
        push_decimal(&mut n, self.repeated_frames);
        n.append(" queue=");
        push_unsigned(&mut n, self.video_queue.len() as u64);

        let mut t = String::from_str("Video PTS: ");
        push_decimal(&mut t, self.last_video_pts_us);
        t.append("us  Audio PTS: ");
        push_decimal(&mut t, audio_clock_us);
        t.append("us");
        (f, n, t)
    }

    /// The player's integer statistics, taken at the given audio clock.
    pub fn counters(&self, audio_clock_us: i64) -> (c: VideoCounters)
        requires
            i64::MIN <= audio_clock_us - self@.last_video_pts_us <= i64::MAX,
        ensures
            c.video_queue_size == self@.queue.len(),
            c.dropped_frames == self@.dropped_frames,
            c.repeated_frames == self@.repeated_frames,
            c.video_pts_us == self@.last_video_pts_us,
            c.audio_pts_us == audio_clock_us,
            c.sync_diff_us == audio_clock_us - self@.last_video_pts_us,
            c.current_video_width == self@.texture_width,
            c.current_video_height == self@.texture_height,
            c.total_frames_enqueued == self@.total_frames_enqueued,
            c.total_frames_rendered == self@.total_frames_rendered,
            c.video_buffer_us == buffer_span(self@.queue),
            c.last_frame_size_bytes == self@.last_frame_size_bytes,
            c.avg_texture_update_us == average(self@.timing.texture_update_us, self@.timing.count),
            c.max_texture_update_us == self@.timing.tex_max_us,
            c.avg_clear_copy_us == average(self@.timing.clear_copy_us, self@.timing.count),
            c.avg_present_us == average(self@.timing.present_us, self@.timing.count),
            c.avg_vsync_interval_us == average(self@.timing.vsync_interval_us, self@.timing.vsync_count),
    {
        let n = self.video_queue.len();
        let span = if n >= 2 {
            Some(self.video_queue[n - 1].pts_us as i128 - self.video_queue[0].pts_us as i128)
        } else {
            None
        };
        let t = self.timing;
        VideoCounters {
            video_queue_size: n,
            dropped_frames: self.dropped_frames,
            repeated_frames: self.repeated_frames,
            video_pts_us: self.last_video_pts_us,
            audio_pts_us: audio_clock_us,
            sync_diff_us: audio_clock_us - self.last_video_pts_us,
            current_video_width: self.texture_width,
            current_video_height: self.texture_height,
            total_frames_enqueued: self.total_frames_enqueued,
            total_frames_rendered: self.total_frames_rendered,
            video_buffer_us: span,
            last_frame_size_bytes: self.last_frame_size_bytes,
            avg_texture_update_us: t.texture_update_us.checked_div(t.count).unwrap_or(0),
            max_texture_update_us: t.tex_max_us,
            avg_clear_copy_us: t.clear_copy_us.checked_div(t.count).unwrap_or(0),
            avg_present_us: t.present_us.checked_div(t.count).unwrap_or(0),
            avg_vsync_interval_us: t.vsync_interval_us.checked_div(t.vsync_count).unwrap_or(0),
        }
    }
}

/// The drawing measurements after one more presentation.
fn next_timing(t: RenderTiming, tex_us: u64, clear_copy_us: u64, present_us: u64, present_end_ns: u64) -> (n: RenderTiming)
    requires
        timing_room(t, tex_us, clear_copy_us, present_us, present_end_ns),
    ensures
        n == timing_after(t, tex_us, clear_copy_us, present_us, present_end_ns),
{
    let measured = t.last_present_end_ns > 0;
    RenderTiming {
        texture_update_us: t.texture_update_us + tex_us,
        clear_copy_us: t.clear_copy_us + clear_copy_us,
        present_us: t.present_us + present_us,
        count: t.count + 1,
        last_present_end_ns: present_end_ns,
        vsync_interval_us: if measured {
            t.vsync_interval_us + (present_end_ns - t.last_present_end_ns) / 1000
        } else {
            t.vsync_interval_us
        },
        vsync_count: if measured {
            t.vsync_count + 1
        } else {
            t.vsync_count
        },
        tex_max_us: if tex_us > t.tex_max_us {
            tex_us
        } else {
            t.tex_max_us
        },
    }
}

/// A frame the player admits owns at most three planes of at most
/// `i32::MAX * MAX_DIMENSION` bytes each.
proof fn frame_ok_bytes<P>(f: VideoFrame<P>)
    requires
        frame_ok(f),
    ensures
        0 <= data_bytes(f.data) <= 3458764505767477251,
{
    let w = f.width as int;
    let h = f.height as int;
    crate::validate::lemma_mul_le(w, h, MAX_DIMENSION as int, MAX_DIMENSION as int);
    match f.data {
        FrameData::Planar { y, u, v } => {
            crate::validate::lemma_mul_le(f.y_pitch as int, h, i32::MAX as int, MAX_DIMENSION as int);
            crate::validate::lemma_mul_le(f.uv_pitch as int, h / 2, i32::MAX as int, MAX_DIMENSION as int);
        },
        FrameData::SemiPlanar { y, uv } => {
            crate::validate::lemma_mul_le(f.y_pitch as int, h, i32::MAX as int, MAX_DIMENSION as int);
            crate::validate::lemma_mul_le(f.uv_pitch as int, h / 2, i32::MAX as int, MAX_DIMENSION as int);
        },
        FrameData::Packed(d) => {
            if f.format == VideoFormat::YUY2 {
                crate::validate::lemma_mul_le(f.y_pitch as int, h, i32::MAX as int, MAX_DIMENSION as int);
            }
        },
        FrameData::PixelBuffer(_) => {},
    }
}

/// With a positive bound, an enqueue leaves at most that many frames: the
/// queue grows by one until it reaches the bound, and from then on every
/// new frame pushes out just enough of the oldest ones, which are counted
/// as dropped. The frames kept are the newest, in arrival order.
pub proof fn lemma_queue_bound<P>(v: VideoPlayerView<P>, f: VideoFrame<P>)
    requires
        v.dropped_frames + v.queue.len() < i64::MAX,
        v.total_frames_enqueued < i64::MAX,
    ensures
        ({
            let w = after_enqueue_frame(v, f);
            let full = v.max_video_queue_size > 0 && v.queue.len() >= v.max_video_queue_size;
            let out = if full {
                v.queue.len() - v.max_video_queue_size + 1
            } else {
                0int
            };
            &&& v.max_video_queue_size > 0 ==> w.queue.len() <= v.max_video_queue_size
            &&& w.queue.len() == (if full {
                v.max_video_queue_size as int
            } else {
                v.queue.len() + 1int
            })
            &&& w.queue.last() == f
            &&& w.dropped_frames == v.dropped_frames + out
            &&& w.total_frames_enqueued == v.total_frames_enqueued + 1
            &&& forall|i: int| 0 <= i < w.queue.len() - 1 ==> #[trigger] w.queue[i] == v.queue[i + out]
        }),
{
}

/// The front `leading_late` frames of a queue are all too late, and the
/// frame after them, if any, is not.
pub proof fn lemma_leading_late_props<P>(q: Seq<VideoFrame<P>>, clock: int, threshold: int)
    ensures
        leading_late(q, clock, threshold) <= q.len(),
        forall|j: int|
            0 <= j < leading_late(q, clock, threshold) ==> is_late(#[trigger] q[j], clock, threshold),
        leading_late(q, clock, threshold) < q.len() ==> !is_late(
            q[leading_late(q, clock, threshold) as int],
            clock,
            threshold,
        ),
    decreases q.len(),
{
    if q.len() > 0 && is_late(q[0], clock, threshold) {
        let t = q.drop_first();
        lemma_leading_late_props(t, clock, threshold);
        assert forall|j: int| 0 <= j < leading_late(q, clock, threshold) implies is_late(
            #[trigger] q[j],
            clock,
            threshold,
        ) by {
            if j > 0 {
                assert(q[j] == t[j - 1]);
            }
        }
        if leading_late(q, clock, threshold) < q.len() {
            assert(q[leading_late(q, clock, threshold) as int] == t[leading_late(t, clock, threshold) as int]);
        }
    }
}

/// Audio/video synchronisation on one tick, against clock `c`: the frames
/// dropped are exactly the too-late ones at the front of the queue; a frame
/// drawn is within the threshold of the clock on both sides; when nothing
/// is drawn while frames remain, the next one is too early and the tick
/// counts a repeat; the frames that remain are a suffix of the queue.
pub proof fn lemma_tick_sync<P>(v: VideoPlayerView<P>, audio_clock_us: i64, audio_started: bool, now_ns: u64)
    requires
        v.playing,
        v.queue.len() > 0,
        counters_room(v),
    ensures
        ({
            let a = tick_anchor(v, audio_started, now_ns);
            let c = tick_clock(v, audio_clock_us, audio_started, now_ns);
            let thr = v.sync_threshold_us as int;
            let n = leading_late(a.queue, c, thr) as int;
            let w = tick_state(v, audio_clock_us, audio_started, now_ns);
            &&& a.queue == v.queue
            &&& (audio_started ==> c == audio_clock_us)
            &&& (!audio_started && v.video_only_started ==> c == v.first_video_pts_us + (now_ns
                - v.video_start_time_ns) / 1000)
            &&& (!audio_started && !v.video_only_started ==> c == v.queue[0].pts_us)
            &&& 0 <= n <= v.queue.len()
            &&& forall|j: int| 0 <= j < n ==> #[trigger] v.queue[j].pts_us - c < -thr
            &&& w.dropped_frames == v.dropped_frames + n
            &&& (tick_frame(v, audio_clock_us, audio_started, now_ns) matches Some(f) ==> f
                == v.queue[n] && -thr <= f.pts_us - c <= thr && w.queue == v.queue.skip(n + 1)
                && w.repeated_frames == v.repeated_frames)
            &&& (tick_frame(v, audio_clock_us, audio_started, now_ns) is None && n < v.queue.len()
                ==> v.queue[n].pts_us - c > thr && w.queue == v.queue.skip(n) && w.repeated_frames
                == v.repeated_frames + 1)
            &&& (n == v.queue.len() ==> w.queue.len() == 0 && w.repeated_frames == v.repeated_frames)
        }),
{
    let a = tick_anchor(v, audio_started, now_ns);
    let c = tick_clock(v, audio_clock_us, audio_started, now_ns);
    let thr = v.sync_threshold_us as int;
    lemma_leading_late_props(a.queue, c, thr);
    let n = leading_late(a.queue, c, thr) as int;
    assert(a.queue == v.queue);
    if n < v.queue.len() {
        assert(a.queue.skip(n)[0] == v.queue[n]);
        assert(a.queue.skip(n).drop_first() =~= v.queue.skip(n + 1));
    } else {
        assert(a.queue.skip(n).len() == 0);
    }
}

/// A frame's data passes the upload check of a texture of its layout and
/// size, with the pitches it is uploaded with (an external buffer: its
/// format and dimensions pass the buffer check).
pub open spec fn upload_ok<P>(f: VideoFrame<P>) -> bool {
    match f.data {
        FrameData::Planar { y, u, v } => crate::texture::yuv_update_check(
            VideoFormat::I420,
            f.width as int,
            f.height as int,
            y@.len() as int,
            f.y_pitch as int,
            u@.len() as int,
            f.uv_pitch as int,
            v@.len() as int,
            f.uv_pitch as int,
        ) is None,
        FrameData::SemiPlanar { y, uv } => crate::texture::nv12_update_check(
            VideoFormat::NV12,
            f.width as int,
            f.height as int,
            y@.len() as int,
            f.y_pitch as int,
            uv@.len() as int,
            f.uv_pitch as int,
        ) is None,
        FrameData::Packed(d) => crate::texture::packed_update_check(
            f.format,
            f.width as int,
            f.height as int,
            d@.len() as int,
            f.y_pitch as int,
        ) is None,
        FrameData::PixelBuffer(_) => crate::pixel_buffer::pixel_buffer_frame_check(
            f.format,
            f.width as int,
            f.height as int,
        ) is None,
    }
}

/// A frame the player admits passes the upload check of a texture of its
/// layout and size.
pub proof fn lemma_admitted_frame_uploads<P>(f: VideoFrame<P>)
    requires
        frame_ok(f),
    ensures
        upload_ok(f),
{
    match f.data {
        FrameData::Planar { y, u, v: vv } => {
            assert(y.len() == y@.len() && u.len() == u@.len() && vv.len() == vv@.len());
            crate::texture::lemma_validated_frames_upload(
                f.width as int,
                f.height as int,
                y@.len() as int,
                u@.len() as int,
                vv@.len() as int,
                f.y_pitch as int,
                f.uv_pitch as int,
            );
        },
        FrameData::SemiPlanar { y, uv } => {
            assert(y.len() == y@.len() && uv.len() == uv@.len());
            crate::texture::lemma_validated_frames_upload(
                f.width as int,
                f.height as int,
                y@.len() as int,
                uv@.len() as int,
                0,
                f.y_pitch as int,
                f.uv_pitch as int,
            );
        },
        FrameData::Packed(d) => {
            assert(d.len() == d@.len());
            crate::texture::lemma_validated_frames_upload(
                f.width as int,
                f.height as int,
                d@.len() as int,
                0,
                0,
                f.y_pitch as int,
                f.uv_pitch as int,
            );
        },
        FrameData::PixelBuffer(_) => {},
    }
}

/// A frame drawn by a tick passes the upload check of a texture of its
/// layout and size, with the pitches it is uploaded with: frames in the
/// queue were checked when they were admitted, so drawing never meets a
/// buffer the texture refuses. (External buffers are checked separately,
/// against the strides they report.)
pub proof fn lemma_drawn_frame_uploads<P>(v: VideoPlayerView<P>, audio_clock_us: i64, audio_started: bool, now_ns: u64)
    requires
        video_wf(v),
    ensures
        tick_frame(v, audio_clock_us, audio_started, now_ns) matches Some(f) ==> upload_ok(f),
{
    if let Some(f) = tick_frame(v, audio_clock_us, audio_started, now_ns) {
        let a = tick_anchor(v, audio_started, now_ns);
        let c = tick_clock(v, audio_clock_us, audio_started, now_ns);
        let n = leading_late(a.queue, c, v.sync_threshold_us as int) as int;
        lemma_leading_late_props(a.queue, c, v.sync_threshold_us as int);
        assert(a.queue == v.queue);
        assert(a.queue.skip(n)[0] == v.queue[n]);
        assert(f == v.queue[n]);
        lemma_admitted_frame_uploads(v.queue[n]);
    }
}

/// Pausing and resuming the video-only clock excludes the paused time: a
/// clock paused at `paused_at` and resumed at `resumed_at` has, at any
/// later time `t`, run for the time it had run when paused plus the time
/// since it resumed, from the same anchor frame. So frames are neither
/// dropped as late nor held back because of a pause.
pub proof fn lemma_pause_excludes_paused_time<P>(
    v: VideoPlayerView<P>,
    paused_at: u64,
    resumed_at: u64,
    t: u64,
)
    requires
        video_wf(v),
        records_pause(v, false),
        time_ok(v, paused_at),
        paused_at <= resumed_at <= t,
    ensures
        ({
            let w = after_video_play(after_video_pause(v, paused_at, false), resumed_at);
            &&& w.video_only_started
            &&& w.pause_started_ns is None
            &&& w.first_video_pts_us == v.first_video_pts_us
            &&& w.video_start_time_ns <= t
            &&& t - w.video_start_time_ns == (paused_at - v.video_start_time_ns) + (t - resumed_at)
            &&& video_clock(w, t) == v.first_video_pts_us + ((paused_at - v.video_start_time_ns)
                + (t - resumed_at)) / 1000
        }),
{
}

/// Repeated pauses do not add up: after two pause/resume rounds the
/// video-only clock has run for exactly the time spent playing.
pub proof fn lemma_repeated_pauses_exclude_paused_time<P>(
    v: VideoPlayerView<P>,
    p1: u64,
    r1: u64,
    p2: u64,
    r2: u64,
    t: u64,
)
    requires
        video_wf(v),
        records_pause(v, false),
        time_ok(v, p1),
        p1 <= r1 <= p2 <= r2 <= t,
    ensures
        ({
            let w1 = after_video_play(after_video_pause(v, p1, false), r1);
            let w2 = after_video_play(after_video_pause(w1, p2, false), r2);
            t - w2.video_start_time_ns == (p1 - v.video_start_time_ns) + (p2 - r1) + (t - r2)
        }),
{
    let w1 = after_video_play(after_video_pause(v, p1, false), r1);
    lemma_pause_excludes_paused_time(v, p1, r1, p2);
    assert(video_wf(w1));
    lemma_pause_excludes_paused_time(w1, p2, r2, t);
}

/// The first tick after playback starts, or after the queue was drained,
/// anchors the video-only clock on the front frame, which is therefore due
/// and drawn at once.
pub proof fn lemma_first_frame_due<P>(v: VideoPlayerView<P>, audio_clock_us: i64, now_ns: u64)
    requires
        v.playing,
        v.queue.len() > 0,
        !v.video_only_started,
        v.sync_threshold_us >= 0,
    ensures
        tick_clock(v, audio_clock_us, false, now_ns) == v.queue[0].pts_us,
        tick_frame(v, audio_clock_us, false, now_ns) == Some(v.queue[0]),
{
    let c = tick_clock(v, audio_clock_us, false, now_ns);
    assert(!is_late(v.queue[0], c, v.sync_threshold_us as int));
    assert(v.queue.skip(0) =~= v.queue);
}

/// Input is refused exactly while paused: a pause after playback started
/// refuses frames, and play or stop make the player accept them again.
pub proof fn lemma_enqueue_refused_while_paused<P>(v: VideoPlayerView<P>, now_ns: u64, audio_started: bool)
    ensures
        paused(after_video_pause(v, now_ns, audio_started)) == v.has_played,
        !paused(after_video_play(v, now_ns)),
        !paused(after_video_stop(v)),
        enqueue_outcome(after_video_stop(v), None) is None,
        enqueue_outcome(after_video_pause(v, now_ns, audio_started), None) == (if v.has_played {
            Some(ErrorView::NotPlaying)
        } else {
            None::<ErrorView>
        }),
        enqueue_outcome(after_video_play(v, now_ns), None) is None,
        forall|e: ErrorView| enqueue_outcome(v, Some(e)) == Some(e),
        !after_video_pause(v, now_ns, audio_started).playing,
        after_video_play(v, now_ns).playing,
        !v.playing ==> after_video_play(v, now_ns).has_played,
        after_video_pause(v, now_ns, audio_started).queue == v.queue,
        after_video_play(v, now_ns).queue == v.queue,
{
}

/// A stop ends the session: the queue is empty, the drop and repeat counts
/// are zero, and the video-only clock is unanchored, so the first tick after
/// a later `play` anchors on the first frame queued and draws it, dropping
/// nothing. A drain leaves the clock unanchored in the same way.
pub proof fn lemma_stop_restarts_session<P>(v: VideoPlayerView<P>, f: VideoFrame<P>, t1: u64, t2: u64, audio_clock_us: i64)
    requires
        video_wf(v),
    ensures
        ({
            let w = after_video_stop(v);
            let u = after_video_play(after_enqueue_frame(w, f), t1);
            &&& w.queue.len() == 0
            &&& !w.playing
            &&& !w.video_only_started
            &&& w.pause_started_ns is None
            &&& w.dropped_frames == 0
            &&& w.repeated_frames == 0
            &&& w.total_frames_enqueued == 0
            &&& w.total_frames_rendered == 0
            &&& u.queue =~= seq![f]
            &&& tick_frame(u, audio_clock_us, false, t2) == Some(f)
            &&& tick_state(u, audio_clock_us, false, t2).dropped_frames == 0
            &&& tick_state(u, audio_clock_us, false, t2).queue.len() == 0
        }),
        ({
            let d = after_drain(v);
            &&& d.queue.len() == 0
            &&& !d.video_only_started
            &&& d.pause_started_ns is None
            &&& d.playing ==> tick_frame(after_enqueue_frame(d, f), audio_clock_us, false, t2) == Some(f)
        }),
{
    let w = after_video_stop(v);
    let e = after_enqueue_frame(w, f);
    assert(evicted(w) == 0);
    assert(w.queue.skip(0) =~= w.queue);
    assert(e.queue =~= seq![f]);
    let u = after_video_play(e, t1);
    assert(u.queue =~= seq![f]);
    lemma_first_frame_due(u, audio_clock_us, t2);
    let a = tick_anchor(u, false, t2);
    let c = tick_clock(u, audio_clock_us, false, t2);
    let thr = u.sync_threshold_us as int;
    assert(!is_late(a.queue[0], c, thr));
    assert(leading_late(a.queue, c, thr) == 0);
    assert(a.queue.skip(0) =~= a.queue);
    let d = after_drain(v);
    let de = after_enqueue_frame(d, f);
    assert(evicted(d) == 0);
    assert(d.queue.skip(0) =~= d.queue);
    assert(de.queue =~= seq![f]);
    if d.playing {
        lemma_first_frame_due(de, audio_clock_us, t2);
    }
}

/// Statistics-overlay toggling: a batch of events that neither quits nor
/// closes leaves the overlay shown exactly when it was shown before
/// exclusive-or an odd number of S key presses in the batch.
pub proof fn lemma_overlay_parity<P>(v: VideoPlayerView<P>, evs: Seq<Event>)
    requires
        v.open,
        !asks_close(evs),
    ensures
        after_events(v, evs).show_stats_overlay == (v.show_stats_overlay != (evs.filter(
            |e: Event| e == Event::KeyDown { keycode: KEYCODE_S },
        ).len() % 2 == 1)),
{
    lemma_toggles_count(evs);
}

proof fn lemma_toggles_count(evs: Seq<Event>)
    ensures
        toggles_overlay(key_downs(evs)) == (evs.filter(
            |e: Event| e == Event::KeyDown { keycode: KEYCODE_S },
        ).len() % 2 == 1),
    decreases evs.len(),
{
    reveal_with_fuel(Seq::filter, 2);
    if evs.len() > 0 {
        let p = evs.drop_last();
        lemma_toggles_count(p);
        let kp = key_downs(p);
        match evs.last() {
            Event::KeyDown { keycode } => {
                assert(kp.push(keycode).drop_last() =~= kp);
            },
            _ => {},
        }
    }
}

/// Frame-rate samples: once a sample was taken at `t1`, the next one counts
/// only the frames presented since, over the time since `t1`: one frame
/// when the very next presentation closes the window, two when one more
/// presentation came before it.
pub proof fn lemma_fps_sample_restarts<P>(
    v: VideoPlayerView<P>,
    pts: i64,
    tex_us: u64,
    clear_copy_us: u64,
    present_us: u64,
    t1: u64,
    t2: u64,
    t3: u64,
)
    requires
        fps_sample(v, t1) is Some,
        0 < t1 <= t2 <= t3,
    ensures
        ({
            let w1 = after_present(v, pts, tex_us, clear_copy_us, present_us, t1, t1);
            let w2 = after_present(w1, pts, tex_us, clear_copy_us, present_us, t2, t2);
            &&& t2 - t1 >= 1_000_000_000 ==> fps_sample(w1, t2) == Some((1i32, (t2 - t1) as u64))
            &&& t2 - t1 < 1_000_000_000 ==> fps_sample(w1, t2) is None
            &&& t2 - t1 < 1_000_000_000 && t3 - t1 >= 1_000_000_000 ==> fps_sample(w2, t3) == Some(
                (2i32, (t3 - t1) as u64),
            )
        }),
{
}

/// Event handling, one event at a time: a quit or close request closes an
/// open window; a resize sets the window size (the last one wins); a key
/// press is reported after the earlier ones; a closed window ignores
/// everything.
pub proof fn lemma_events_step<P>(v: VideoPlayerView<P>, evs: Seq<Event>, k: u32, w: i32, h: i32)
    ensures
        v.open ==> !after_events(v, evs.push(Event::Quit)).open,
        v.open ==> !after_events(v, evs.push(Event::WindowClose)).open,
        asks_close(evs.push(Event::Quit)) && asks_close(evs.push(Event::WindowClose)),
        !asks_close(seq![Event::KeyDown { keycode: k }]),
        !asks_close(seq![Event::WindowResized { width: w, height: h }]),
        v.open ==> after_events(v, evs.push(Event::WindowResized { width: w, height: h })).window_width
            == w && after_events(v, evs.push(Event::WindowResized { width: w, height: h })).window_height
            == h,
        key_downs(evs.push(Event::KeyDown { keycode: k })) == key_downs(evs).push(k),
        key_downs(evs.push(Event::KeyUp { keycode: k })) == key_downs(evs),
        !v.open ==> after_events(v, evs) == v,
        v.open && !asks_close(evs) ==> after_events(v, evs).open,
{
    assert(evs.push(Event::Quit).drop_last() =~= evs);
    assert(evs.push(Event::WindowClose).drop_last() =~= evs);
    assert(evs.push(Event::WindowResized { width: w, height: h }).drop_last() =~= evs);
    assert(evs.push(Event::KeyDown { keycode: k }).drop_last() =~= evs);
    assert(evs.push(Event::KeyUp { keycode: k }).drop_last() =~= evs);
    assert(seq![Event::KeyDown { keycode: k }].drop_last() =~= Seq::<Event>::empty());
    assert(seq![Event::WindowResized { width: w, height: h }].drop_last() =~= Seq::<Event>::empty());
    assert(!asks_close(Seq::<Event>::empty()));
}

} // verus!
