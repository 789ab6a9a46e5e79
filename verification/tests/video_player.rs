use raw_player::{Error, Event, VideoFormat, VideoPlayer, KEYCODE_ESCAPE, KEYCODE_S};

const MS: u64 = 1_000_000;
const PTS_STEP_US: i64 = 33_333;

fn enqueue_black_i420(player: &mut VideoPlayer<()>, width: i32, height: i32, pts_us: i64) {
    let y = vec![0u8; (width * height) as usize];
    let uv_size = ((width / 2) * (height / 2)) as usize;
    let u = vec![128u8; uv_size];
    let v = vec![128u8; uv_size];
    assert!(player.has_counter_room());
    player
        .enqueue_video_i420(&y, &u, &v, width, height, pts_us)
        .expect("I420 enqueue failed");
}

fn prepare_video_only_player(frame_count: usize) -> VideoPlayer<()> {
    let Ok(mut player) = VideoPlayer::<()>::new(64, 64, "test-video-only-pause") else {
        panic!("VideoPlayer::new failed");
    };
    player.set_vsync(0);
    // Keep queue overflow apart from sync drops.
    player.set_max_video_queue_size(frame_count + 8);
    for i in 0..frame_count {
        enqueue_black_i420(&mut player, 16, 16, i as i64 * PTS_STEP_US);
    }
    player
}

/// One tick of the render loop at `now_ns` without audio: draws at most
/// one frame and records its presentation.
fn tick(player: &mut VideoPlayer<()>, now_ns: u64) -> Option<i64> {
    assert!(player.has_counter_room());
    let frame = player.render_next_frame(0, false, now_ns)?;
    if player.needs_texture(frame.width, frame.height, frame.format) {
        player.texture_released();
        player.texture_created(frame.width, frame.height, frame.format);
    }
    assert!(player.can_record_presentation(0, 0, 0, now_ns, now_ns));
    player.frame_presented(frame.pts_us, 0, 0, 0, now_ns, now_ns);
    Some(frame.pts_us)
}

fn dropped(player: &VideoPlayer<()>) -> i64 {
    player.counters(0).dropped_frames
}

fn queued(player: &VideoPlayer<()>) -> usize {
    player.counters(0).video_queue_size
}

#[test]
fn video_only_pause_play_does_not_sync_drop() {
    let mut player = prepare_video_only_player(10);
    let t0 = 1_000 * MS;
    player.play(Ok(()), t0).expect("play failed");
    assert_eq!(tick(&mut player, t0), Some(0));

    let dropped0 = dropped(&player);
    let q0 = queued(&player);
    assert!(q0 >= 1, "queue empty before pause: q0={q0}");
    player.pause(Ok(()), t0 + 10 * MS, false).expect("pause failed");

    // 200 ms pass while paused.
    let resume = t0 + 210 * MS;
    player.play(Ok(()), resume).expect("resume failed");
    assert_eq!(tick(&mut player, resume), Some(PTS_STEP_US));

    let dropped1 = dropped(&player);
    let q1 = queued(&player);
    assert_eq!(
        dropped1 - dropped0,
        0,
        "sync drops after resume: before={dropped0}, after={dropped1}"
    );
    assert!(q1 > 0, "queue empty after resume: q1={q1}");
}

#[test]
fn video_only_repeated_pause_play_does_not_accumulate_skew() {
    let mut player = prepare_video_only_player(20);
    let mut now = 5_000 * MS;
    player.play(Ok(()), now).expect("play failed");
    assert_eq!(tick(&mut player, now), Some(0));

    for round in 1..=2 {
        let dropped0 = dropped(&player);
        let q0 = queued(&player);
        assert!(q0 >= 1, "round {round}: queue empty before pause: q0={q0}");
        now += 5 * MS;
        player.pause(Ok(()), now, false).expect("pause failed");

        now += 200 * MS;
        player.play(Ok(()), now).expect("resume failed");
        tick(&mut player, now);

        let dropped1 = dropped(&player);
        assert_eq!(
            dropped1 - dropped0,
            0,
            "round {round}: sync drops: before={dropped0}, after={dropped1}"
        );
        assert!(queued(&player) > 0, "round {round}: queue empty after resume");
    }
}

#[test]
fn audio_video_pause_play_does_not_worsen_sync_drops() {
    let Ok(mut player) = VideoPlayer::<()>::new(64, 64, "test-av-pause") else {
        panic!("VideoPlayer::new failed");
    };
    player.set_vsync(0);
    player.set_max_video_queue_size(24);
    for i in 0..12 {
        enqueue_black_i420(&mut player, 16, 16, i as i64 * PTS_STEP_US);
    }
    let t0 = 77 * MS;
    player.play(Ok(()), t0).expect("play failed");
    // The audio clock drives the video while audio runs.
    let frame = player.render_next_frame(0, true, t0).expect("a frame is due");
    assert_eq!(frame.pts_us, 0);
    player.frame_presented(frame.pts_us, 0, 0, 0, t0, t0);

    let dropped0 = dropped(&player);
    assert!(queued(&player) >= 1);
    player.pause(Ok(()), t0 + MS, true).expect("pause failed");
    // The audio clock stands still while the device is paused.
    player.play(Ok(()), t0 + 201 * MS).expect("resume failed");
    let frame = player.render_next_frame(20_000, true, t0 + 201 * MS).expect("a frame is due");
    assert_eq!(frame.pts_us, PTS_STEP_US);
    assert_eq!(dropped(&player) - dropped0, 0);
}

#[test]
fn late_frames_are_dropped_and_early_ones_repeated() {
    let mut player = prepare_video_only_player(6);
    player.play(Ok(()), 1).unwrap();
    // Audio clock at 140 ms: frames at 0, 33, 66 and 99 ms are more than
    // 40 ms late; the one at 133 ms is drawn.
    let frame = player.render_next_frame(140_000, true, 1).expect("a frame is due");
    assert_eq!(frame.pts_us, 4 * PTS_STEP_US);
    let c = player.counters(140_000);
    assert_eq!(c.dropped_frames, 4);
    assert_eq!(c.video_queue_size, 1);
    // The next frame (166 ms) is more than 40 ms early: nothing is drawn.
    assert!(player.render_next_frame(100_000, true, 1).is_none());
    let c = player.counters(100_000);
    assert_eq!(c.repeated_frames, 1);
    assert_eq!(c.video_queue_size, 1);
    // All remaining frames late: the queue empties, nothing is drawn.
    assert!(player.render_next_frame(10_000_000, true, 1).is_none());
    let c = player.counters(0);
    assert_eq!(c.dropped_frames, 5);
    assert_eq!(c.video_queue_size, 0);
}

#[test]
fn nothing_is_drawn_before_play() {
    let mut player = prepare_video_only_player(3);
    assert!(player.render_next_frame(0, false, 10).is_none());
    assert_eq!(queued(&player), 3);
    assert!(!player.is_playing());
}

#[test]
fn queue_overflow_drops_oldest_frames() {
    let Ok(mut player) = VideoPlayer::<()>::new(32, 32, "overflow") else {
        panic!("new failed");
    };
    assert_eq!(player.max_video_queue_size(), 5);
    player.set_max_video_queue_size(3);
    for i in 0..5 {
        enqueue_black_i420(&mut player, 2, 2, i * 10);
    }
    let c = player.counters(0);
    assert_eq!(c.video_queue_size, 3);
    assert_eq!(c.dropped_frames, 2);
    assert_eq!(c.total_frames_enqueued, 5);
    // The newest frames are kept: first in the queue is pts 20.
    player.play(Ok(()), 1).unwrap();
    let f = player.render_next_frame(20, true, 1).unwrap();
    assert_eq!(f.pts_us, 20);
    assert_eq!(player.counters(0).video_buffer_us, Some(10));
}

#[test]
fn enqueue_refused_while_paused() {
    let mut player = prepare_video_only_player(1);
    player.play(Ok(()), 1).unwrap();
    player.pause(Ok(()), 2, false).unwrap();
    let y = vec![0u8; 4];
    let r = player.enqueue_video_i420(&y, &[0], &[0], 2, 2, 0);
    assert!(matches!(r, Err(Error::NotPlaying)));
    // Checks come first.
    let r = player.enqueue_video_i420(&y, &[0], &[0], 3, 2, 0);
    assert!(matches!(r, Err(Error::InvalidArgument(_))));
    player.stop(Ok(())).unwrap();
    assert_eq!(queued(&player), 0);
    player.enqueue_video_i420(&y, &[0], &[0], 2, 2, 0).unwrap();
    assert_eq!(queued(&player), 1);
}

#[test]
fn all_layouts_enqueue() {
    let Ok(mut player) = VideoPlayer::<()>::new(32, 32, "layouts") else {
        panic!("new failed");
    };
    player.set_max_video_queue_size(0);
    player.enqueue_video_i420_strided(&[0; 8], &[0; 2], &[0; 2], 2, 2, 4, 2, 0).unwrap();
    player.enqueue_video_nv12(&[0; 4], &[0; 2], 2, 2, 1).unwrap();
    player.enqueue_video_nv12_strided(&[0; 8], &[0; 4], 2, 2, 4, 4, 2).unwrap();
    player.enqueue_video_yuy2(&[0; 8], 2, 2, 3).unwrap();
    player.enqueue_video_yuy2_strided(&[0; 12], 2, 2, 6, 4).unwrap();
    player.enqueue_video_rgba(&[0; 16], 2, 2, 5).unwrap();
    player.enqueue_video_bgra(&[0; 16], 2, 2, 6).unwrap();
    player.enqueue_video_bgra_owned(vec![0; 16], 2, 2, 7).unwrap();
    player.enqueue_video_pixel_buffer((), VideoFormat::NV12, 2, 2, 2, 2, 8).unwrap();
    assert!(player
        .enqueue_video_pixel_buffer((), VideoFormat::Rgba, 2, 2, 8, 8, 9)
        .is_err());
    assert!(player.enqueue_video_rgba(&[0; 15], 2, 2, 10).is_err());
    // Zero means unbounded.
    assert_eq!(queued(&player), 9);
    assert_eq!(player.counters(0).dropped_frames, 0);
    player.drain_video();
    assert_eq!(queued(&player), 0);
}

#[test]
fn events_close_resize_and_toggle_overlay() {
    let Ok(mut player) = VideoPlayer::<()>::new(32, 32, "events") else {
        panic!("new failed");
    };
    assert!(!player.stats_overlay());
    let events = vec![
        Event::KeyDown { keycode: KEYCODE_S },
        Event::WindowResized { width: 100, height: 50 },
        Event::KeyDown { keycode: KEYCODE_ESCAPE },
    ];
    let keys = player.apply_events(&events).expect("window stays open");
    assert_eq!(keys, vec![KEYCODE_S, KEYCODE_ESCAPE]);
    assert!(player.stats_overlay());
    assert_eq!(player.width(), 100);
    assert_eq!(player.height(), 50);
    assert!(player.is_open());

    let keys = player.apply_events(&vec![Event::KeyDown { keycode: KEYCODE_S }, Event::Quit]);
    assert!(keys.is_none());
    assert!(!player.is_open());
    // A closed window ignores events.
    assert!(player.apply_events(&vec![Event::KeyUp { keycode: KEYCODE_S }]).is_none());
}

#[test]
fn title_and_settings() {
    let Ok(mut player) = VideoPlayer::<()>::new(32, 32, "first") else {
        panic!("new failed");
    };
    assert_eq!(player.title(), "first");
    player.set_title("second").unwrap();
    assert_eq!(player.title(), "second");
    assert!(player.set_title("bad\0title").is_err());
    assert_eq!(player.title(), "second");
    player.set_stats_overlay(true);
    assert!(player.stats_overlay());
    player.set_vsync(2);
    assert_eq!(player.vsync_interval(), 2);
    assert!(VideoPlayer::<()>::new(32, 32, "nul\0").is_err());
    player.close();
    assert!(!player.is_open());
}

#[test]
fn frame_rate_sampled_once_a_second() {
    let mut player = prepare_video_only_player(0);
    let start = 10 * MS;
    assert!(player.frame_presented(1, 0, 0, 0, start, start).is_none());
    assert!(player.frame_presented(2, 0, 0, 0, start + 500 * MS, start + 500 * MS).is_none());
    let s = player.frame_presented(3, 0, 0, 0, start + 1_000 * MS, start + 1_000 * MS);
    assert_eq!(s, Some((3, 1_000 * MS)));
    assert_eq!(player.counters(0).total_frames_rendered, 3);
    assert_eq!(player.counters(0).video_pts_us, 3);
}

#[test]
fn overlay_whole_number_lines() {
    let mut player = prepare_video_only_player(2);
    player.texture_created(16, 16, VideoFormat::I420);
    let (format, frames, pts) = player.overlay_lines(-123);
    assert_eq!(format, "Format: I420 16x16");
    assert_eq!(frames, "Frames: enq=2 rend=0 drop=0 rep=0 queue=2");
    assert_eq!(pts, "Video PTS: 0us  Audio PTS: -123us");
}

#[test]
fn clock_and_counter_guards() {
    let mut player = prepare_video_only_player(1);
    assert!(player.time_ok_at(0));
    assert!(player.started_by(0));
    player.play(Ok(()), 1_000).unwrap();
    assert!(!player.started_by(999));
    assert!(player.started_by(1_000));
    assert_eq!(player.elapsed_ns(1_500), 500);
    tick(&mut player, 2_000);
    assert!(!player.time_ok_at(1_999));
    assert!(player.time_ok_at(2_000));
    assert!(player.counters_computable(i64::MIN));
    player.frame_presented(5, 0, 0, 0, 3_000, 3_000);
    assert!(player.counters_computable(i64::MAX));
    assert!(!player.counters_computable(i64::MIN));
}
