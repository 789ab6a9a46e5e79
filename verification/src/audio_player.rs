//! The audio side of the player: a queue of PCM chunks, the parameters of
//! the output stream they are written to, and the audio clock derived from
//! how many samples the device has consumed.
//!
//! The device itself is driven by the caller. The player decides what to do
//! and keeps the books; the caller performs each device operation and hands
//! its outcome back:
//!
//! * `play`, `pause` and `stop` take the outcome of the device operation they
//!   need (resume, pause, pause-and-clear), which the caller performs first.
//!   When it failed, nothing changes and the same error comes back, so the
//!   call can simply be retried.
//! * The queue is flushed chunk by chunk: `next_chunk` takes the front chunk
//!   and says whether the stream must be (re)opened first; after the caller
//!   opened it, `stream_opened` records its parameters; after the chunk's
//!   bytes were written, `chunk_written` accounts for them. When any of these
//!   device operations fails, `chunk_failed` puts the chunk back in front.
use vstd::prelude::*;

use crate::audio_format::AudioFormat;
use crate::error::{invalid, outcome, Error, ErrorView, Result};

verus! {

/// One queued PCM chunk.
pub struct AudioChunk {
    pub pts_us: i64,
    pub sample_rate: i32,
    pub channels: i32,
    pub format: AudioFormat,
    pub data: Vec<u8>,
}

/// A queued chunk as a mathematical value.
pub struct ChunkView {
    pub pts_us: i64,
    pub sample_rate: i32,
    pub channels: i32,
    pub format: AudioFormat,
    pub data: Seq<u8>,
}

impl View for AudioChunk {
    type V = ChunkView;

    open spec fn view(&self) -> ChunkView {
        ChunkView {
            pts_us: self.pts_us,
            sample_rate: self.sample_rate,
            channels: self.channels,
            format: self.format,
            data: self.data@,
        }
    }
}

/// Bytes of one frame (one sample of every channel).
pub open spec fn frame_bytes(channels: int, format: AudioFormat) -> int {
    channels * format.spec_sample_size()
}

/// Bytes per frame of the open stream: `channels` samples of 4 bytes for
/// float streams, 2 bytes otherwise.
pub open spec fn stream_frame_bytes(channels: int, is_float: bool) -> int {
    channels * (if is_float {
        4int
    } else {
        2int
    })
}

/// Number of frames in a chunk.
pub open spec fn chunk_frames(c: ChunkView) -> int {
    (c.data.len() as int) / frame_bytes(c.channels as int, c.format)
}

/// A chunk as `enqueue_audio` admits it: positive rate and channel count,
/// and a non-empty whole number of frames.
pub open spec fn chunk_ok(c: ChunkView) -> bool {
    &&& c.sample_rate > 0
    &&& c.channels > 0
    &&& c.data.len() > 0
    &&& (c.data.len() as int) % frame_bytes(c.channels as int, c.format) == 0
}

/// Total bytes of the queued chunks.
pub open spec fn queued_bytes(q: Seq<ChunkView>) -> int
    decreases q.len(),
{
    if q.len() == 0 {
        0
    } else {
        queued_bytes(q.drop_last()) + q.last().data.len()
    }
}

/// The player's state as a mathematical value.
pub struct AudioPlayerView {
    /// Whether an output stream is open.
    pub stream_open: bool,
    pub queue: Seq<ChunkView>,
    /// Parameters of the stream most recently opened.
    pub sample_rate: i32,
    pub channels: i32,
    pub is_float: bool,
    /// Frames written to the current stream.
    pub samples_written: i64,
    /// Presentation time of the first frame written to the current stream.
    pub first_pts_us: i64,
    pub audio_started: bool,
    pub playing: bool,
    pub has_played: bool,
    pub chunks_played: i64,
    pub total_samples_enqueued: i64,
    pub play_start_time_ns: u64,
}

/// The state of a new player, and of a stopped one apart from its stream.
pub open spec fn initial_view() -> AudioPlayerView {
    AudioPlayerView {
        stream_open: false,
        queue: Seq::empty(),
        sample_rate: 0,
        channels: 0,
        is_float: false,
        samples_written: 0,
        first_pts_us: 0,
        audio_started: false,
        playing: false,
        has_played: false,
        chunks_played: 0,
        total_samples_enqueued: 0,
        play_start_time_ns: 0,
    }
}

/// Outcome of the argument checks of `enqueue_audio`.
pub open spec fn enqueue_audio_check(len: int, sample_rate: int, channels: int, format: AudioFormat) -> Option<
    ErrorView,
> {
    if len == 0 {
        invalid("data is empty"@)
    } else if sample_rate <= 0 {
        invalid("sample_rate must be positive"@)
    } else if channels <= 0 {
        invalid("channels must be positive"@)
    } else if len % frame_bytes(channels, format) != 0 {
        invalid("data size is not aligned to frame size"@)
    } else {
        None
    }
}

/// Whether the queue must be flushed into a newly opened stream before the
/// chunk `c` can be written.
pub open spec fn needs_reopen(v: AudioPlayerView, c: ChunkView) -> bool {
    !v.stream_open || c.sample_rate != v.sample_rate || c.channels != v.channels || (c.format
        == AudioFormat::F32) != v.is_float
}

/// The audio clock in microseconds for a device that still holds
/// `stream_queued` bytes: the presentation time of the first frame of the
/// current stream plus the duration of the frames played since. Zero before
/// the first chunk was written or without a stream.
pub open spec fn audio_clock(v: AudioPlayerView, stream_queued: int) -> int {
    if !v.audio_started || !v.stream_open {
        0
    } else if v.sample_rate <= 0 {
        0
    } else {
        v.first_pts_us + played_frames(v, stream_queued) * 1_000_000 / (v.sample_rate as int)
    }
}

/// Frames the device has consumed: frames written minus the whole frames
/// still queued in the device, never below zero.
pub open spec fn played_frames(v: AudioPlayerView, stream_queued: int) -> int {
    let bpf = stream_frame_bytes(v.channels as int, v.is_float);
    let queued = if stream_queued < 0 {
        0
    } else {
        stream_queued
    };
    let queued_frames = if bpf > 0 {
        queued / bpf
    } else {
        0
    };
    if v.samples_written - queued_frames < 0 {
        0
    } else {
        v.samples_written - queued_frames
    }
}

/// Frames buffered in the queue and in the device, when a stream format
/// is known.
pub open spec fn buffered_frames_of(v: AudioPlayerView, stream_queued: int) -> Option<i64> {
    let bpf = stream_frame_bytes(v.channels as int, v.is_float);
    let device = if stream_queued < 0 {
        0
    } else {
        stream_queued
    };
    if v.sample_rate > 0 && bpf > 0 {
        Some(((queued_bytes(v.queue) + device) / bpf) as i64)
    } else {
        None
    }
}

pub proof fn lemma_queued_bytes_nonneg(q: Seq<ChunkView>)
    ensures
        queued_bytes(q) >= 0,
    decreases q.len(),
{
    if q.len() > 0 {
        lemma_queued_bytes_nonneg(q.drop_last());
    }
}

/// The bytes of a prefix of the queue are at most those of the whole queue.
pub proof fn lemma_queued_bytes_prefix(q: Seq<ChunkView>, i: int)
    requires
        0 <= i <= q.len(),
    ensures
        queued_bytes(q.take(i)) <= queued_bytes(q),
    decreases q.len(),
{
    if i < q.len() {
        assert(q.take(i) =~= q.drop_last().take(i));
        lemma_queued_bytes_prefix(q.drop_last(), i);
    } else {
        assert(q.take(i) =~= q);
    }
}

proof fn lemma_clock_bounds(played: int, written: int, rate: int, first: int)
    requires
        0 <= played <= written,
        rate > 0,
        written * 1_000_000 <= i64::MAX,
        first + written * 1_000_000 / rate <= i64::MAX,
        i64::MIN <= first,
    ensures
        0 <= played * 1_000_000 <= i64::MAX,
        0 <= played * 1_000_000 / rate <= written * 1_000_000 / rate,
        i64::MIN <= first + played * 1_000_000 / rate <= i64::MAX,
{
    assert(0 <= played * 1_000_000 <= written * 1_000_000) by (nonlinear_arith)
        requires
            0 <= played <= written,
    ;
    assert(0 <= played * 1_000_000 / rate <= written * 1_000_000 / rate) by (nonlinear_arith)
        requires
            0 <= played * 1_000_000 <= written * 1_000_000,
            rate > 0,
    ;
}

/// The integer statistics of an audio player.
pub struct AudioCounters {
    pub audio_queue_size: usize,
    /// Frames buffered in the queue and in the device, when a stream format
    /// is known (`None` otherwise).
    pub buffered_frames: Option<i64>,
    pub chunks_played: i64,
    pub audio_clock_us: i64,
    pub sample_rate: i32,
    pub channels: i32,
    pub is_float: bool,
    pub total_samples_enqueued: i64,
    pub total_samples_played: i64,
}

/// The next step of a queue flush: the chunk taken from the front, whether
/// a stream must be opened for it (with its rate, channels and format) and
/// whether the new stream must be resumed right after opening.
pub struct ChunkPlan {
    pub chunk: AudioChunk,
    pub reopen: bool,
    pub resume: bool,
}

/// PCM queue, stream bookkeeping and audio clock of a player.
pub struct AudioPlayer {
    stream_open: bool,
    audio_queue: std::collections::VecDeque<AudioChunk>,
    sample_rate: i32,
    channels: i32,
    is_float: bool,
    samples_written: i64,
    first_pts_us: i64,
    audio_started: bool,
    playing: bool,
    has_played: bool,
    chunks_played: i64,
    total_samples_enqueued: i64,
    play_start_time_ns: u64,
}

impl View for AudioPlayer {
    type V = AudioPlayerView;

    closed spec fn view(&self) -> AudioPlayerView {
        AudioPlayerView {
            stream_open: self.stream_open,
            queue: self.audio_queue@.map_values(|c: AudioChunk| c@),
            sample_rate: self.sample_rate,
            channels: self.channels,
            is_float: self.is_float,
            samples_written: self.samples_written,
            first_pts_us: self.first_pts_us,
            audio_started: self.audio_started,
            playing: self.playing,
            has_played: self.has_played,
            chunks_played: self.chunks_played,
            total_samples_enqueued: self.total_samples_enqueued,
            play_start_time_ns: self.play_start_time_ns,
        }
    }
}

/// The invariant of a player's state: every queued chunk is one that
/// `enqueue_audio` admits, an open stream has positive parameters, and the
/// counters are not negative.
pub open spec fn audio_wf(v: AudioPlayerView) -> bool {
    &&& forall|i: int| 0 <= i < v.queue.len() ==> chunk_ok(#[trigger] v.queue[i])
    &&& v.stream_open ==> v.sample_rate > 0 && v.channels > 0
    &&& v.samples_written >= 0
    &&& v.chunks_played >= 0
    &&& v.total_samples_enqueued >= 0
}

/// Whether the audio clock can be computed without leaving `i64`.
pub open spec fn clock_in_range(v: AudioPlayerView) -> bool {
    v.audio_started && v.stream_open && v.sample_rate > 0 ==> v.samples_written * 1_000_000
        <= i64::MAX && v.first_pts_us + v.samples_written * 1_000_000 / (v.sample_rate as int)
        <= i64::MAX
}

/// The state after an accepted chunk joined the queue.
pub open spec fn after_enqueue(v: AudioPlayerView, c: ChunkView) -> AudioPlayerView {
    AudioPlayerView {
        queue: v.queue.push(c),
        total_samples_enqueued: (v.total_samples_enqueued + chunk_frames(c)) as i64,
        ..v
    }
}

/// Whether `enqueue_audio` refuses chunks: playback has run and is paused
/// now.
pub open spec fn refuses_input(v: AudioPlayerView) -> bool {
    v.has_played && !v.playing
}

/// Outcome of `enqueue_audio`: the argument checks first, then `NotPlaying`
/// while playback is paused.
pub open spec fn enqueue_audio_outcome(
    v: AudioPlayerView,
    len: int,
    sample_rate: int,
    channels: int,
    format: AudioFormat,
) -> Option<ErrorView> {
    if enqueue_audio_check(len, sample_rate, channels, format) is Some {
        enqueue_audio_check(len, sample_rate, channels, format)
    } else if refuses_input(v) {
        Some(ErrorView::NotPlaying)
    } else {
        None
    }
}

/// The state after playback started at `now_ns`.
pub open spec fn after_play(v: AudioPlayerView, now_ns: u64) -> AudioPlayerView {
    AudioPlayerView {
        playing: true,
        has_played: true,
        play_start_time_ns: if v.play_start_time_ns == 0 {
            now_ns
        } else {
            v.play_start_time_ns
        },
        ..v
    }
}

/// The state after playback paused.
pub open spec fn after_pause(v: AudioPlayerView) -> AudioPlayerView {
    AudioPlayerView { playing: false, ..v }
}

/// The state after a stop: the initial state, except that the stream and
/// its parameters stay.
pub open spec fn after_stop(v: AudioPlayerView) -> AudioPlayerView {
    AudioPlayerView {
        stream_open: v.stream_open,
        sample_rate: v.sample_rate,
        channels: v.channels,
        is_float: v.is_float,
        first_pts_us: v.first_pts_us,
        ..initial_view()
    }
}

/// The state after the front chunk was taken for writing with the given
/// reopen decision.
pub open spec fn after_take(v: AudioPlayerView, reopen: bool) -> AudioPlayerView {
    AudioPlayerView { queue: v.queue.drop_first(), stream_open: v.stream_open && !reopen, ..v }
}

/// The state after a stream was opened for chunk `c`.
pub open spec fn after_open(v: AudioPlayerView, c: ChunkView) -> AudioPlayerView {
    AudioPlayerView {
        stream_open: true,
        sample_rate: c.sample_rate,
        channels: c.channels,
        is_float: c.format == AudioFormat::F32,
        samples_written: 0,
        first_pts_us: c.pts_us,
        audio_started: true,
        ..v
    }
}

/// Frames of chunk `c` counted with the open stream's frame size.
pub open spec fn written_frames(v: AudioPlayerView, c: ChunkView) -> int {
    (c.data.len() as int) / stream_frame_bytes(v.channels as int, v.is_float)
}

/// The state after chunk `c` was written to the stream.
pub open spec fn after_write(v: AudioPlayerView, c: ChunkView) -> AudioPlayerView {
    AudioPlayerView {
        samples_written: (v.samples_written + written_frames(v, c)) as i64,
        chunks_played: (v.chunks_played + 1) as i64,
        first_pts_us: if v.audio_started {
            v.first_pts_us
        } else {
            c.pts_us
        },
        audio_started: true,
        ..v
    }
}

/// The state after chunk `c` was put back in front of the queue.
pub open spec fn after_put_back(v: AudioPlayerView, c: ChunkView) -> AudioPlayerView {
    AudioPlayerView { queue: seq![c] + v.queue, ..v }
}

impl AudioPlayer {
    /// The player's invariant (see `audio_wf`), stated over its fields.
    pub closed spec fn wf(&self) -> bool {
        &&& forall|i: int|
            0 <= i < self.audio_queue@.len() ==> chunk_ok(#[trigger] self.audio_queue@[i]@)
        &&& self.stream_open ==> self.sample_rate > 0 && self.channels > 0
        &&& self.samples_written >= 0
        &&& self.chunks_played >= 0
        &&& self.total_samples_enqueued >= 0
    }

    /// The invariant, read on the player's view.
    pub proof fn lemma_wf_view(&self)
        requires
            self.wf(),
        ensures
            audio_wf(self@),
    {
        assert forall|i: int| 0 <= i < self@.queue.len() implies chunk_ok(#[trigger] self@.queue[i]) by {
            assert(self@.queue[i] == self.audio_queue@[i]@);
        }
    }

    /// A player with an empty queue and no stream.
    pub fn new() -> (p: AudioPlayer)
        ensures
            p@ == initial_view(),
            p.wf(),
    {
        let p = AudioPlayer {
            stream_open: false,
            audio_queue: std::collections::VecDeque::new(),
            sample_rate: 0,
            channels: 0,
            is_float: false,
            samples_written: 0,
            first_pts_us: 0,
            audio_started: false,
            playing: false,
            has_played: false,
            chunks_played: 0,
            total_samples_enqueued: 0,
            play_start_time_ns: 0,
        };
        assert(p@.queue =~= Seq::<ChunkView>::empty());
        p
    }

    /// Whether playback is on.
    pub fn is_playing(&self) -> (b: bool)
        ensures
            b == self@.playing,
    {
        self.playing
    }

    /// Whether a chunk has been written to the current stream, so that the
    /// audio clock runs.
    pub fn is_started(&self) -> (b: bool)
        ensures
            b == self@.audio_started,
    {
        self.audio_started
    }

    /// Whether an output stream is open.
    pub fn has_stream(&self) -> (b: bool)
        ensures
            b == self@.stream_open,
    {
        self.stream_open
    }

    /// Frames accepted into the queue since the player was made or stopped.
    pub fn total_samples_enqueued(&self) -> (n: i64)
        ensures
            n == self@.total_samples_enqueued,
    {
        self.total_samples_enqueued
    }

    /// Whether `now_ns` is not before the time playback first started
    /// (trivially so before it started).
    pub fn started_by(&self, now_ns: u64) -> (b: bool)
        ensures
            b == (self@.has_played ==> self@.play_start_time_ns <= now_ns),
    {
        !self.has_played || self.play_start_time_ns <= now_ns
    }

    /// Number of chunks waiting in the queue.
    pub fn queue_len(&self) -> (n: usize)
        ensures
            n == self@.queue.len(),
    {
        self.audio_queue.len()
    }

    /// Queues a PCM chunk. The data must be a non-empty whole number of
    /// frames of `channels` samples of `format`, at a positive rate. While
    /// playback is paused (it has run and is not running now) a chunk that
    /// passes these checks is refused with `NotPlaying` and nothing changes;
    /// otherwise it joins the back of the queue and its frames are added to
    /// the enqueued total.
    pub fn enqueue_audio(
        &mut self,
        data: &[u8],
        pts_us: i64,
        sample_rate: i32,
        channels: i32,
        format: AudioFormat,
    ) -> (r: Result<()>)
        requires
            old(self).wf(),
            enqueue_audio_check(data@.len() as int, sample_rate as int, channels as int, format)
                is None ==> old(self)@.total_samples_enqueued + (data@.len() as int) / frame_bytes(
                channels as int,
                format,
            ) <= i64::MAX,
        ensures
            final(self).wf(),
            outcome(r) == enqueue_audio_outcome(
                old(self)@,
                data@.len() as int,
                sample_rate as int,
                channels as int,
                format,
            ),
            r is Err ==> final(self)@ == old(self)@,
            r is Ok ==> final(self)@ == after_enqueue(
                old(self)@,
                (ChunkView { pts_us, sample_rate, channels, format, data: data@ }),
            ),
    {
        if data.len() == 0 {
            return Err(Error::invalid_argument("data is empty"));
        }
        if sample_rate <= 0 {
            return Err(Error::invalid_argument("sample_rate must be positive"));
        }
        if channels <= 0 {
            return Err(Error::invalid_argument("channels must be positive"));
        }
        let sample_size = format.sample_size() as u64;
        let frame_size = channels as u64 * sample_size;
        if data.len() as u64 % frame_size != 0 {
            return Err(Error::invalid_argument("data size is not aligned to frame size"));
        }
        let num_samples = (data.len() as u64 / frame_size) as i64;
        if self.has_played && !self.playing {
            return Err(Error::NotPlaying);
        }
        self.total_samples_enqueued = self.total_samples_enqueued + num_samples;
        let chunk = AudioChunk {
            pts_us,
            sample_rate,
            channels,
            format,
            data: vstd::slice::slice_to_vec(data),
        };
        let ghost old_q = self@.queue;
        self.audio_queue.push_back(chunk);
        proof {
            assert(self@.queue =~= old_q.push(chunk@));
        }
        Ok(())
    }

    /// Starts playback. `device` is the outcome of resuming the open stream
    /// (`Ok` when there is none); the caller flushes the queue and resumes
    /// the stream first. When playback is already on nothing changes. When
    /// the device failed nothing changes and its error is returned.
    /// Otherwise playback is on, has run, and the play start time is set to
    /// `now_ns` unless it was already set.
    pub fn play(&mut self, device: Result<()>, now_ns: u64) -> (r: Result<()>)
        requires
            old(self).wf(),
        ensures
            final(self).wf(),
            old(self)@.playing ==> r is Ok && final(self)@ == old(self)@,
            !old(self)@.playing && device is Err ==> r == device && final(self)@ == old(self)@,
            !old(self)@.playing && device is Ok ==> r is Ok && final(self)@ == after_play(
                old(self)@,
                now_ns,
            ),
    {
        if self.playing {
            return Ok(());
        }
        match device {
            Err(e) => Err(e),
            Ok(()) => {
                self.playing = true;
                self.has_played = true;
                if self.play_start_time_ns == 0 {
                    self.play_start_time_ns = now_ns;
                }
                Ok(())
            },
        }
    }

    /// Pauses playback. `device` is the outcome of pausing the open stream
    /// (`Ok` when there is none or playback is off). When playback is off
    /// nothing changes. When the device failed nothing changes and its error
    /// is returned, so a retry pauses the device again. Otherwise playback
    /// is off.
    pub fn pause(&mut self, device: Result<()>) -> (r: Result<()>)
        requires
            old(self).wf(),
        ensures
            final(self).wf(),
            !old(self)@.playing ==> r is Ok && final(self)@ == old(self)@,
            old(self)@.playing && device is Err ==> r == device && final(self)@ == old(self)@,
            old(self)@.playing && device is Ok ==> r is Ok && final(self)@ == after_pause(
                old(self)@,
            ),
    {
        if !self.playing {
            return Ok(());
        }
        match device {
            Err(e) => Err(e),
            Ok(()) => {
                self.playing = false;
                Ok(())
            },
        }
    }

    /// Stops playback and forgets the queue. `device` is the outcome of
    /// pausing and clearing the open stream (`Ok` when there is none). When
    /// the device failed nothing changes and its error is returned.
    /// Otherwise the player is back in its initial state, except that an
    /// open stream stays open with its parameters.
    pub fn stop(&mut self, device: Result<()>) -> (r: Result<()>)
        requires
            old(self).wf(),
        ensures
            final(self).wf(),
            device is Err ==> r == device && final(self)@ == old(self)@,
            device is Ok ==> r is Ok && final(self)@ == after_stop(old(self)@),
    {
        match device {
            Err(e) => Err(e),
            Ok(()) => {
                self.playing = false;
                self.has_played = false;
                self.audio_queue.clear();
                self.samples_written = 0;
                self.audio_started = false;
                self.total_samples_enqueued = 0;
                self.play_start_time_ns = 0;
                self.chunks_played = 0;
                proof {
                    assert(self@.queue =~= Seq::<ChunkView>::empty());
                }
                Ok(())
            },
        }
    }

    /// Takes the front chunk for writing, or `None` when the queue is empty.
    /// The plan says whether a stream must be opened for the chunk: when
    /// there is none, or when the chunk's rate, channel count or sample type
    /// differ from the open stream's; the old stream is then considered
    /// closed. A new stream is to be resumed right away when playback is on.
    pub fn next_chunk(&mut self) -> (plan: Option<ChunkPlan>)
        requires
            old(self).wf(),
        ensures
            final(self).wf(),
            old(self)@.queue.len() == 0 ==> plan is None && final(self)@ == old(self)@,
            old(self)@.queue.len() > 0 ==> plan is Some,
            plan matches Some(p) ==> p.chunk@ == old(self)@.queue[0] && chunk_ok(p.chunk@)
                && p.reopen == needs_reopen(old(self)@, p.chunk@) && p.resume == old(self)@.playing
                && final(self)@ == after_take(old(self)@, p.reopen),
    {
        let ghost old_q = self@.queue;
        match self.audio_queue.pop_front() {
            None => None,
            Some(chunk) => {
                proof {
                    assert(chunk@ == old_q[0]);
                    assert(self@.queue =~= old_q.drop_first());
                }
                let reopen = !self.stream_open || chunk.sample_rate != self.sample_rate
                    || chunk.channels != self.channels || chunk.format.is_float() != self.is_float;
                if reopen {
                    self.stream_open = false;
                }
                let resume = self.playing;
                Some(ChunkPlan { chunk, reopen, resume })
            },
        }
    }

    /// Records that a stream was opened for the plan's chunk: it takes the
    /// chunk's parameters, starts with no frames written, and its clock
    /// starts at the chunk's presentation time.
    pub fn stream_opened(&mut self, plan: &ChunkPlan)
        requires
            old(self).wf(),
            chunk_ok(plan.chunk@),
        ensures
            final(self).wf(),
            final(self)@ == after_open(old(self)@, plan.chunk@),
    {
        self.stream_open = true;
        self.sample_rate = plan.chunk.sample_rate;
        self.channels = plan.chunk.channels;
        self.is_float = plan.chunk.format.is_float();
        self.samples_written = 0;
        self.first_pts_us = plan.chunk.pts_us;
        self.audio_started = true;
    }

    /// Records that the plan's chunk was written to the stream: its frames
    /// (counted with the stream's frame size) are added to those written,
    /// one more chunk was played, and the clock starts at the chunk's
    /// presentation time if it had not started.
    pub fn chunk_written(&mut self, plan: ChunkPlan)
        requires
            old(self).wf(),
            old(self)@.stream_open,
            old(self)@.samples_written + written_frames(old(self)@, plan.chunk@) <= i64::MAX,
            old(self)@.chunks_played < i64::MAX,
        ensures
            final(self).wf(),
            final(self)@ == after_write(old(self)@, plan.chunk@),
    {
        if !self.audio_started {
            self.first_pts_us = plan.chunk.pts_us;
            self.audio_started = true;
        }
        let sample_size: u64 = if self.is_float {
            4
        } else {
            2
        };
        let bytes_per_frame = self.channels as u64 * sample_size;
        let num_samples = (plan.chunk.data.len() as u64 / bytes_per_frame) as i64;
        self.samples_written = self.samples_written + num_samples;
        self.chunks_played = self.chunks_played + 1;
    }

    /// Whether `chunk_written` can record the plan's chunk: a stream is open
    /// and the counters have room for it.
    pub fn can_record_write(&self, plan: &ChunkPlan) -> (b: bool)
        requires
            self.wf(),
        ensures
            b == (self@.stream_open && self@.samples_written + written_frames(self@, plan.chunk@)
                <= i64::MAX && self@.chunks_played < i64::MAX),
    {
        if !self.stream_open || self.chunks_played == i64::MAX {
            return false;
        }
        let sample_size: u64 = if self.is_float {
            4
        } else {
            2
        };
        let bytes_per_frame = self.channels as u64 * sample_size;
        let frames = plan.chunk.data.len() as u64 / bytes_per_frame;
        frames <= (i64::MAX - self.samples_written) as u64
    }

    /// Puts the plan's chunk back at the front of the queue after a device
    /// operation for it failed, so that it is written by a later flush.
    pub fn chunk_failed(&mut self, plan: ChunkPlan)
        requires
            old(self).wf(),
            chunk_ok(plan.chunk@),
        ensures
            final(self).wf(),
            final(self)@ == after_put_back(old(self)@, plan.chunk@),
    {
        let ghost old_q = self@.queue;
        let ghost c = plan.chunk@;
        self.audio_queue.push_front(plan.chunk);
        proof {
            assert(self@.queue =~= seq![c] + old_q);
        }
    }

    /// Whether the audio clock can be computed without leaving `i64`
    /// (see `clock_in_range`).
    pub fn clock_computable(&self) -> (b: bool)
        requires
            self.wf(),
        ensures
            b == clock_in_range(self@),
    {
        if !(self.audio_started && self.stream_open && self.sample_rate > 0) {
            return true;
        }
        if self.samples_written > i64::MAX / 1_000_000 {
            return false;
        }
        proof {
            assert(0 <= self.samples_written * 1_000_000 <= i64::MAX) by (nonlinear_arith)
                requires
                    0 <= self.samples_written <= i64::MAX / 1_000_000,
            ;
        }
        let max_us = self.samples_written * 1_000_000 / self.sample_rate as i64;
        proof {
            assert(max_us >= 0) by (nonlinear_arith)
                requires
                    self.samples_written >= 0,
                    self.samples_written <= i64::MAX / 1_000_000,
                    self.sample_rate > 0,
                    max_us == self.samples_written * 1_000_000 / self.sample_rate as int,
            ;
        }
        match self.first_pts_us.checked_add(max_us) {
            Some(_) => true,
            None => false,
        }
    }

    /// The audio clock in microseconds, given the bytes the device still
    /// holds (negative counts as none): see `audio_clock`.
    pub fn audio_clock_us(&self, stream_queued_bytes: i32) -> (us: i64)
        requires
            self.wf(),
            clock_in_range(self@),
        ensures
            us == audio_clock(self@, stream_queued_bytes as int),
    {
        if !self.audio_started || !self.stream_open {
            return 0;
        }
        let played = self.frames_played(stream_queued_bytes);
        if self.sample_rate > 0 {
            proof {
                lemma_clock_bounds(
                    played as int,
                    self.samples_written as int,
                    self.sample_rate as int,
                    self.first_pts_us as int,
                );
            }
            self.first_pts_us + played * 1_000_000 / self.sample_rate as i64
        } else {
            0
        }
    }

    /// Frames the device has consumed: see `played_frames`.
    fn frames_played(&self, stream_queued_bytes: i32) -> (n: i64)
        requires
            self.wf(),
        ensures
            n == played_frames(self@, stream_queued_bytes as int),
            0 <= n <= self@.samples_written,
    {
        let sample_size: i64 = if self.is_float {
            4
        } else {
            2
        };
        let bytes_per_frame = self.channels as i64 * sample_size;
        let queued: i64 = if stream_queued_bytes < 0 {
            0
        } else {
            stream_queued_bytes as i64
        };
        let queued_frames = if bytes_per_frame > 0 {
            queued / bytes_per_frame
        } else {
            0
        };
        proof {
            if bytes_per_frame > 0 {
                assert(queued_frames >= 0) by (nonlinear_arith)
                    requires
                        queued >= 0,
                        bytes_per_frame > 0,
                        queued_frames == queued / bytes_per_frame,
                ;
            }
        }
        if self.samples_written - queued_frames < 0 {
            0
        } else {
            self.samples_written - queued_frames
        }
    }

    /// Total bytes of the queued chunks.
    fn queued_bytes_total(&self) -> (n: i64)
        requires
            self.wf(),
            queued_bytes(self@.queue) <= i64::MAX,
        ensures
            n == queued_bytes(self@.queue),
    {
        let ghost q = self@.queue;
        let len = self.audio_queue.len();
        let mut total: i64 = 0;
        let mut i: usize = 0;
        while i < len
            invariant
                len == self.audio_queue@.len(),
                q == self@.queue,
                q.len() == len,
                i <= len,
                total == queued_bytes(q.take(i as int)),
                queued_bytes(q) <= i64::MAX,
            decreases len - i,
        {
            proof {
                lemma_queued_bytes_prefix(q, i as int + 1);
                assert(q.take(i as int + 1).drop_last() =~= q.take(i as int));
                assert(q[i as int] == self.audio_queue@[i as int]@);
                lemma_queued_bytes_nonneg(q.take(i as int));
            }
            total = total + self.audio_queue[i].data.len() as i64;
            i = i + 1;
        }
        proof {
            assert(q.take(len as int) =~= q);
        }
        total
    }

    /// Total bytes of the queued chunks, when they fit in `i64`.
    fn queued_bytes_checked(&self) -> (r: Option<i64>)
        requires
            self.wf(),
        ensures
            r == (if queued_bytes(self@.queue) <= i64::MAX {
                Some(queued_bytes(self@.queue) as i64)
            } else {
                None::<i64>
            }),
    {
        let ghost q = self@.queue;
        let len = self.audio_queue.len();
        let mut total: i64 = 0;
        let mut i: usize = 0;
        while i < len
            invariant
                len == self.audio_queue@.len(),
                q == self@.queue,
                q.len() == len,
                i <= len,
                total == queued_bytes(q.take(i as int)),
            decreases len - i,
        {
            proof {
                lemma_queued_bytes_prefix(q, i as int + 1);
                assert(q.take(i as int + 1).drop_last() =~= q.take(i as int));
                assert(q[i as int] == self.audio_queue@[i as int]@);
                lemma_queued_bytes_nonneg(q.take(i as int));
            }
            let n = self.audio_queue[i].data.len() as u64;
            if n > (i64::MAX - total) as u64 {
                return None;
            }
            total = total + n as i64;
            i = i + 1;
        }
        proof {
            assert(q.take(len as int) =~= q);
        }
        Some(total)
    }

    /// Whether `counters` can be computed: the audio clock fits in `i64`
    /// and the queued bytes leave room for the device's own.
    pub fn counters_computable(&self) -> (b: bool)
        requires
            self.wf(),
        ensures
            b == (clock_in_range(self@) && queued_bytes(self@.queue) + i32::MAX <= i64::MAX),
    {
        if !self.clock_computable() {
            return false;
        }
        proof {
            lemma_queued_bytes_nonneg(self@.queue);
        }
        match self.queued_bytes_checked() {
            Some(n) => n <= i64::MAX - 2147483647,
            None => false,
        }
    }

    /// Frames buffered in the queue and in the device (`stream_queued_bytes`,
    /// negative counting as none), when the stream format is known: `None`
    /// before any stream was opened.
    pub fn buffered_frames(&self, stream_queued_bytes: i32) -> (r: Option<i64>)
        requires
            self.wf(),
            queued_bytes(self@.queue) + i32::MAX <= i64::MAX,
        ensures
            r == buffered_frames_of(self@, stream_queued_bytes as int),
    {
        if self.sample_rate > 0 {
            let sample_size: i64 = if self.is_float {
                4
            } else {
                2
            };
            let bytes_per_frame = self.channels as i64 * sample_size;
            let queued = self.queued_bytes_total();
            let device: i64 = if stream_queued_bytes < 0 {
                0
            } else {
                stream_queued_bytes as i64
            };
            proof {
                lemma_queued_bytes_nonneg(self@.queue);
            }
            let total = queued + device;
            if bytes_per_frame > 0 {
                Some(total / bytes_per_frame)
            } else {
                None
            }
        } else {
            None
        }
    }

    /// Nanoseconds since playback first started (zero before it did).
    pub fn elapsed_ns(&self, now_ns: u64) -> (ns: u64)
        requires
            self@.has_played ==> self@.play_start_time_ns <= now_ns,
        ensures
            ns == (if self@.has_played {
                now_ns - self@.play_start_time_ns
            } else {
                0int
            }),
    {
        if self.has_played {
            now_ns - self.play_start_time_ns
        } else {
            0
        }
    }

    /// The player's integer statistics, given the bytes the device still
    /// holds (zero without a stream).
    pub fn counters(&self, stream_queued_bytes: i32) -> (c: AudioCounters)
        requires
            self.wf(),
            clock_in_range(self@),
            queued_bytes(self@.queue) + i32::MAX <= i64::MAX,
        ensures
            c.audio_queue_size == self@.queue.len(),
            c.buffered_frames == buffered_frames_of(self@, stream_queued_bytes as int),
            c.chunks_played == self@.chunks_played,
            c.audio_clock_us == audio_clock(self@, stream_queued_bytes as int),
            c.sample_rate == self@.sample_rate,
            c.channels == self@.channels,
            c.is_float == self@.is_float,
            c.total_samples_enqueued == self@.total_samples_enqueued,
            c.total_samples_played == played_frames(self@, stream_queued_bytes as int),
    {
        AudioCounters {
            audio_queue_size: self.audio_queue.len(),
            buffered_frames: self.buffered_frames(stream_queued_bytes),
            chunks_played: self.chunks_played,
            audio_clock_us: self.audio_clock_us(stream_queued_bytes),
            sample_rate: self.sample_rate,
            channels: self.channels,
            is_float: self.is_float,
            total_samples_enqueued: self.total_samples_enqueued,
            total_samples_played: self.frames_played(stream_queued_bytes),
        }
    }

}

/// While the device drains, the audio clock does not run backward: with
/// fewer bytes left in the device the clock is at least as far.
pub proof fn lemma_audio_clock_monotone(v: AudioPlayerView, more_queued: int, less_queued: int)
    requires
        audio_wf(v),
        less_queued <= more_queued,
    ensures
        audio_clock(v, more_queued) <= audio_clock(v, less_queued),
{
    let bpf = stream_frame_bytes(v.channels as int, v.is_float);
    if v.audio_started && v.stream_open && v.sample_rate > 0 {
        let qm = if more_queued < 0 {
            0
        } else {
            more_queued
        };
        let ql = if less_queued < 0 {
            0
        } else {
            less_queued
        };
        assert(bpf > 0) by (nonlinear_arith)
            requires
                v.channels > 0,
                bpf == v.channels * (if v.is_float {
                    4int
                } else {
                    2int
                }),
        ;
        assert(ql / bpf <= qm / bpf) by (nonlinear_arith)
            requires
                0 <= ql <= qm,
                bpf > 0,
        ;
        let pm = played_frames(v, more_queued);
        let pl = played_frames(v, less_queued);
        assert(pm <= pl);
        assert(pm * 1_000_000 / (v.sample_rate as int) <= pl * 1_000_000 / (v.sample_rate as int))
            by (nonlinear_arith)
            requires
                0 <= pm <= pl,
                v.sample_rate > 0,
        ;
    }
}

/// While every written frame is still in the device, the clock reads the
/// presentation time of the first frame of the current stream.
pub proof fn lemma_audio_clock_at_start(v: AudioPlayerView, stream_queued: int)
    requires
        audio_wf(v),
        v.audio_started,
        v.stream_open,
        stream_queued >= v.samples_written * stream_frame_bytes(v.channels as int, v.is_float),
    ensures
        audio_clock(v, stream_queued) == v.first_pts_us,
{
    let bpf = stream_frame_bytes(v.channels as int, v.is_float);
    assert(bpf > 0) by (nonlinear_arith)
        requires
            v.channels > 0,
            bpf == v.channels * (if v.is_float {
                4int
            } else {
                2int
            }),
    ;
    assert(stream_queued / bpf >= v.samples_written) by (nonlinear_arith)
        requires
            stream_queued >= v.samples_written * bpf,
            bpf > 0,
            v.samples_written >= 0,
    ;
}

/// Writing a chunk into a stream opened for it restarts the clock at that
/// chunk's presentation time, whatever the previous stream's clock was: a
/// format change never rewinds the clock to an older stream's start.
pub proof fn lemma_reopen_restarts_clock(v: AudioPlayerView, c: ChunkView, stream_queued: int)
    requires
        audio_wf(v),
        chunk_ok(c),
        c.data.len() <= i64::MAX,
        v.chunks_played < i64::MAX,
        stream_queued >= c.data.len(),
    ensures
        audio_clock(after_write(after_open(v, c), c), stream_queued) == c.pts_us,
{
    let w = after_write(after_open(v, c), c);
    let bpf = stream_frame_bytes(c.channels as int, c.format == AudioFormat::F32);
    assert(bpf == frame_bytes(c.channels as int, c.format));
    assert(bpf > 0) by (nonlinear_arith)
        requires
            c.channels > 0,
            bpf == c.channels * (if c.format == AudioFormat::F32 {
                4int
            } else {
                2int
            }),
    ;
    assert(w.samples_written == (c.data.len() as int) / bpf);
    assert((c.data.len() as int) / bpf * bpf <= c.data.len()) by (nonlinear_arith)
        requires
            bpf > 0,
            c.data.len() >= 0,
    ;
    lemma_audio_clock_at_start(w, stream_queued);
}

/// A chunk taken for writing and put back after a failed device operation
/// leaves the queue exactly as it was.
pub proof fn lemma_take_put_back_restores_queue(v: AudioPlayerView, reopen: bool)
    requires
        v.queue.len() > 0,
    ensures
        after_put_back(after_take(v, reopen), v.queue[0]).queue == v.queue,
{
    assert(seq![v.queue[0]] + v.queue.drop_first() =~= v.queue);
}

/// Chunks leave the queue in the order they joined it: a chunk queued
/// behind others is taken after them, and one queued into an empty queue
/// is the next one taken.
pub proof fn lemma_queue_fifo(v: AudioPlayerView, c: ChunkView, reopen: bool)
    ensures
        v.queue.len() == 0 ==> after_enqueue(v, c).queue[0] == c,
        v.queue.len() > 0 ==> after_enqueue(v, c).queue[0] == v.queue[0],
        v.queue.len() > 0 ==> after_take(after_enqueue(v, c), reopen).queue == after_take(
            v,
            reopen,
        ).queue.push(c),
{
    if v.queue.len() > 0 {
        assert(v.queue.push(c).drop_first() =~= v.queue.drop_first().push(c));
    }
}

/// Within the bounds `counters` needs, the statistics' counts are never
/// negative: the frames played, and the frames buffered, which are known
/// only when a stream rate is (so a duration derived from them divides by a
/// positive rate).
pub proof fn lemma_audio_counts_nonneg(v: AudioPlayerView, stream_queued: int)
    requires
        audio_wf(v),
        queued_bytes(v.queue) + i32::MAX <= i64::MAX,
        stream_queued <= i32::MAX,
    ensures
        played_frames(v, stream_queued) >= 0,
        buffered_frames_of(v, stream_queued) matches Some(n) ==> n >= 0 && v.sample_rate > 0,
        v.sample_rate <= 0 ==> buffered_frames_of(v, stream_queued) is None,
{
    let bpf = stream_frame_bytes(v.channels as int, v.is_float);
    lemma_queued_bytes_nonneg(v.queue);
    if v.sample_rate > 0 && bpf > 0 {
        let device = if stream_queued < 0 {
            0
        } else {
            stream_queued
        };
        assert(0 <= (queued_bytes(v.queue) + device) / bpf <= queued_bytes(v.queue) + device)
            by (nonlinear_arith)
            requires
                queued_bytes(v.queue) + device >= 0,
                bpf > 0,
        ;
    }
}

/// A flush opens a new stream exactly when it must: when none is open, or
/// when the chunk's rate, channel count or sample type differs from the
/// open stream's. So once a stream was opened for a chunk, the chunks that
/// follow in the same format are written into it, and a chunk in another
/// format gets a new one.
pub proof fn lemma_reopen_only_on_format_change(v: AudioPlayerView, c: ChunkView, d: ChunkView)
    ensures
        !v.stream_open ==> needs_reopen(v, c),
        v.stream_open && c.sample_rate == v.sample_rate && c.channels == v.channels && (c.format
            == AudioFormat::F32) == v.is_float ==> !needs_reopen(v, c),
        v.stream_open && (c.sample_rate != v.sample_rate || c.channels != v.channels || (c.format
            == AudioFormat::F32) != v.is_float) ==> needs_reopen(v, c),
        ({
            let w = after_write(after_open(v, c), c);
            &&& w.stream_open
            &&& (d.sample_rate == c.sample_rate && d.channels == c.channels && d.format == c.format
                ==> !needs_reopen(w, d) && !needs_reopen(after_take(w, false), d))
            &&& (d.sample_rate != c.sample_rate || d.channels != c.channels || d.format != c.format
                ==> needs_reopen(w, d))
        }),
{
}

/// The audio clock counts played frames at the stream's rate: after a chunk
/// of `n` whole frames (of `channels` samples of 2 bytes, or 4 for float)
/// was written into a stream opened for it, with `q` bytes still in the
/// device, the clock reads the chunk's timestamp plus the duration of the
/// `n - q / frame` frames played, in microseconds.
pub proof fn lemma_clock_counts_played_frames(v: AudioPlayerView, c: ChunkView, q: int)
    requires
        chunk_ok(c),
        0 <= q,
    ensures
        ({
            let frame = c.channels * (if c.format == AudioFormat::F32 {
                4int
            } else {
                2int
            });
            let n = (c.data.len() as int) / frame;
            let played = if n - q / frame < 0 {
                0
            } else {
                n - q / frame
            };
            (c.data.len() as int) <= i64::MAX ==> audio_clock(after_write(after_open(v, c), c), q)
                == c.pts_us + played * 1_000_000 / (c.sample_rate as int)
        }),
{
    let frame = c.channels * (if c.format == AudioFormat::F32 {
        4int
    } else {
        2int
    });
    assert(frame > 0) by (nonlinear_arith)
        requires
            c.channels > 0,
            frame == c.channels * (if c.format == AudioFormat::F32 {
                4int
            } else {
                2int
            }),
    ;
    assert(0 <= (c.data.len() as int) / frame <= c.data.len()) by (nonlinear_arith)
        requires
            frame > 0,
            c.data.len() >= 0,
    ;
}

/// `enqueue_audio` admits exactly the chunks that are non-empty, at a
/// positive rate and channel count, and a whole number of frames of
/// `channels` samples of 2 bytes (4 for float).
pub proof fn lemma_enqueue_audio_admits(len: int, sample_rate: int, channels: int, format: AudioFormat)
    ensures
        (enqueue_audio_check(len, sample_rate, channels, format) is None) <==> (len != 0
            && sample_rate > 0 && channels > 0 && len % (channels * (if format == AudioFormat::F32 {
            4int
        } else {
            2int
        })) == 0),
{
}

/// Play, pause and stop: play turns playback on and records the first
/// start time; pause turns it off and keeps everything else; stop turns it
/// off, empties the queue and zeroes the clock and the counts, keeping only
/// the open stream and its format.
pub proof fn lemma_play_pause_stop_effects(v: AudioPlayerView, now_ns: u64)
    ensures
        after_play(v, now_ns).playing && after_play(v, now_ns).has_played,
        after_play(v, now_ns).play_start_time_ns == (if v.play_start_time_ns == 0 {
            now_ns
        } else {
            v.play_start_time_ns
        }),
        after_play(v, now_ns).queue == v.queue,
        !after_pause(v).playing,
        after_pause(v).queue == v.queue && after_pause(v).has_played == v.has_played,
        after_pause(v).samples_written == v.samples_written,
        ({
            let s = after_stop(v);
            &&& !s.playing && !s.has_played && !s.audio_started
            &&& s.queue.len() == 0
            &&& s.samples_written == 0 && s.chunks_played == 0
            &&& s.total_samples_enqueued == 0 && s.play_start_time_ns == 0
            &&& s.stream_open == v.stream_open && s.sample_rate == v.sample_rate
            &&& s.channels == v.channels && s.is_float == v.is_float
        }),
{
}

/// After a stop the player accepts input again: chunks are queued, not
/// refused, until playback is next paused.
pub proof fn lemma_stop_accepts_input(v: AudioPlayerView)
    ensures
        !refuses_input(after_stop(v)),
        after_stop(v).queue.len() == 0,
        !after_stop(v).playing,
{
}

/// While paused after playback began, a chunk that passes the argument
/// checks is refused with `NotPlaying` (a pause before any playback refuses
/// nothing); playing again makes such chunks accepted.
pub proof fn lemma_pause_refuses_input(
    v: AudioPlayerView,
    now_ns: u64,
    len: int,
    sample_rate: int,
    channels: int,
    format: AudioFormat,
)
    requires
        enqueue_audio_check(len, sample_rate, channels, format) is None,
    ensures
        enqueue_audio_outcome(after_pause(v), len, sample_rate, channels, format) == (if v.has_played {
            Some(ErrorView::NotPlaying)
        } else {
            None::<ErrorView>
        }),
        enqueue_audio_outcome(after_play(v, now_ns), len, sample_rate, channels, format) is None,
{
}

} // verus!
