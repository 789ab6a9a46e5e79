use raw_player::{AudioFormat, AudioPlayer, Error};

fn silence_s16(sample_rate: i32, channels: i32, duration_ms: usize) -> Vec<u8> {
    let frames = sample_rate as usize * duration_ms / 1000;
    vec![0u8; frames * channels as usize * 2]
}

fn invalid_message(r: Result<(), Error>) -> String {
    match r {
        Err(Error::InvalidArgument(m)) => m,
        other => panic!("expected InvalidArgument, got {:?}", other),
    }
}

/// play -> pause -> stop -> enqueue again -> play again succeeds.
#[test]
fn play_pause_stop_success_path_allows_replay() {
    let mut player = AudioPlayer::new();
    let sample_rate = 48_000;
    let channels = 2;
    let data = silence_s16(sample_rate, channels, 100);

    player
        .enqueue_audio(&data, 0, sample_rate, channels, AudioFormat::S16)
        .expect("first enqueue failed");
    player.play(Ok(()), 1_000).expect("play failed");
    assert!(player.is_playing(), "playing after play");

    player.pause(Ok(())).expect("pause failed");
    assert!(!player.is_playing(), "not playing after pause");

    player.stop(Ok(())).expect("stop failed");
    assert!(!player.is_playing(), "not playing after stop");

    // After a stop, data can be queued and played again.
    player
        .enqueue_audio(&data, 0, sample_rate, channels, AudioFormat::S16)
        .expect("enqueue after stop failed");
    player.play(Ok(()), 2_000).expect("second play failed");
    assert!(player.is_playing(), "playing after second play");
}

#[test]
fn enqueue_audio_rejections() {
    let mut player = AudioPlayer::new();
    assert_eq!(
        invalid_message(player.enqueue_audio(&[], 0, 48_000, 2, AudioFormat::S16)),
        "data is empty"
    );
    assert_eq!(
        invalid_message(player.enqueue_audio(&[0; 4], 0, 0, 2, AudioFormat::S16)),
        "sample_rate must be positive"
    );
    assert_eq!(
        invalid_message(player.enqueue_audio(&[0; 4], 0, 48_000, -1, AudioFormat::S16)),
        "channels must be positive"
    );
    assert_eq!(
        invalid_message(player.enqueue_audio(&[0; 9], 0, 48_000, 2, AudioFormat::F32)),
        "data size is not aligned to frame size"
    );
    assert_eq!(player.queue_len(), 0);
    player.enqueue_audio(&[0; 8], 0, 48_000, 2, AudioFormat::F32).unwrap();
    assert_eq!(player.queue_len(), 1);
}

#[test]
fn pause_refuses_input_and_stop_accepts_it() {
    let mut player = AudioPlayer::new();
    let data = silence_s16(48_000, 1, 10);
    // A pause before any playback refuses nothing.
    player.pause(Ok(())).unwrap();
    player.enqueue_audio(&data, 0, 48_000, 1, AudioFormat::S16).unwrap();
    assert_eq!(player.queue_len(), 1);
    player.stop(Ok(())).unwrap();

    player.play(Ok(()), 5).unwrap();
    player.pause(Ok(())).unwrap();
    let total = player.total_samples_enqueued();
    // Refused while paused, with nothing changed.
    let r = player.enqueue_audio(&data, 0, 48_000, 1, AudioFormat::S16);
    assert!(matches!(r, Err(Error::NotPlaying)));
    assert_eq!(player.queue_len(), 0);
    assert_eq!(player.total_samples_enqueued(), total);
    // The argument checks still come first.
    assert_eq!(
        invalid_message(player.enqueue_audio(&[0; 3], 0, 48_000, 1, AudioFormat::S16)),
        "data size is not aligned to frame size"
    );
    player.stop(Ok(())).unwrap();
    player.enqueue_audio(&data, 0, 48_000, 1, AudioFormat::S16).unwrap();
    assert_eq!(player.queue_len(), 1);
    // Playing again accepts input too.
    player.play(Ok(()), 6).unwrap();
    player.pause(Ok(())).unwrap();
    player.play(Ok(()), 7).unwrap();
    player.enqueue_audio(&data, 0, 48_000, 1, AudioFormat::S16).unwrap();
    assert_eq!(player.queue_len(), 2);
}

#[test]
fn device_failure_changes_nothing() {
    let mut player = AudioPlayer::new();
    let err = player.play(Err(Error::Sdl("busy".to_string())), 7).unwrap_err();
    assert_eq!(err.message(), "busy");
    assert!(!player.is_playing());
    player.play(Ok(()), 7).unwrap();
    let err = player.pause(Err(Error::Sdl("no".to_string()))).unwrap_err();
    assert_eq!(err.message(), "no");
    assert!(player.is_playing());
    let err = player.stop(Err(Error::Sdl("no".to_string()))).unwrap_err();
    assert_eq!(err.message(), "no");
    assert!(player.is_playing());
}

#[test]
fn audio_clock_follows_played_frames() {
    let mut player = AudioPlayer::new();
    // 4800 stereo S16 frames = 100 ms at 48 kHz.
    let data = silence_s16(48_000, 2, 100);
    player.enqueue_audio(&data, 1_000_000, 48_000, 2, AudioFormat::S16).unwrap();
    player.play(Ok(()), 10).unwrap();
    assert!(!player.is_started());
    assert_eq!(player.audio_clock_us(0), 0);

    let plan = player.next_chunk().expect("a chunk is queued");
    assert!(plan.reopen);
    assert!(plan.resume);
    player.stream_opened(&plan);
    assert!(player.can_record_write(&plan));
    player.chunk_written(plan);
    assert!(player.is_started());
    assert!(player.clock_computable());
    // Everything played.
    assert_eq!(player.audio_clock_us(0), 1_100_000);
    // Half of it (2400 frames of 4 bytes) still in the device.
    assert_eq!(player.audio_clock_us(9_600), 1_050_000);
    // More queued than written: the clock does not go below its start.
    assert_eq!(player.audio_clock_us(i32::MAX), 1_000_000);

    assert!(player.counters_computable());
    let c = player.counters(9_600);
    assert_eq!(c.audio_queue_size, 0);
    assert_eq!(c.chunks_played, 1);
    assert_eq!(c.audio_clock_us, 1_050_000);
    assert_eq!(c.sample_rate, 48_000);
    assert_eq!(c.channels, 2);
    assert!(!c.is_float);
    assert_eq!(c.total_samples_enqueued, 4_800);
    assert_eq!(c.total_samples_played, 2_400);
    assert_eq!(c.buffered_frames, Some(2_400));
    assert_eq!(player.elapsed_ns(110), 100);
}

#[test]
fn reopen_restarts_clock_at_new_chunk() {
    let mut player = AudioPlayer::new();
    let a = silence_s16(48_000, 2, 100);
    let b = silence_s16(44_100, 2, 100);
    player.enqueue_audio(&a, 0, 48_000, 2, AudioFormat::S16).unwrap();
    player.enqueue_audio(&b, 500_000, 44_100, 2, AudioFormat::S16).unwrap();
    player.play(Ok(()), 1).unwrap();
    let p = player.next_chunk().unwrap();
    player.stream_opened(&p);
    player.chunk_written(p);
    let p = player.next_chunk().unwrap();
    assert!(p.reopen, "a new rate needs a new stream");
    player.stream_opened(&p);
    player.chunk_written(p);
    // 4410 frames at 44.1 kHz = 100 ms after 500 ms.
    assert_eq!(player.audio_clock_us(0), 600_000);
    assert!(player.next_chunk().is_none());
}

#[test]
fn failed_chunk_is_put_back_in_front() {
    let mut player = AudioPlayer::new();
    player.enqueue_audio(&[1, 0, 2, 0], 10, 8_000, 1, AudioFormat::S16).unwrap();
    player.enqueue_audio(&[3, 0], 20, 8_000, 1, AudioFormat::S16).unwrap();
    let p = player.next_chunk().unwrap();
    assert_eq!(p.chunk.pts_us, 10);
    assert_eq!(player.queue_len(), 1);
    assert!(!p.resume);
    player.chunk_failed(p);
    assert_eq!(player.queue_len(), 2);
    let p = player.next_chunk().unwrap();
    assert_eq!(p.chunk.pts_us, 10);
    assert_eq!(p.chunk.data, vec![1, 0, 2, 0]);
}

#[test]
fn f32_stream_counts_four_byte_samples() {
    let mut player = AudioPlayer::new();
    // 1000 mono float frames at 1 kHz = 1 s.
    player.enqueue_audio(&vec![0u8; 4_000], 0, 1_000, 1, AudioFormat::F32).unwrap();
    let p = player.next_chunk().unwrap();
    player.stream_opened(&p);
    player.chunk_written(p);
    assert_eq!(player.audio_clock_us(0), 1_000_000);
    assert_eq!(player.audio_clock_us(2_000), 500_000);
    assert_eq!(AudioFormat::F32.sample_size(), 4);
    assert_eq!(AudioFormat::S16.sample_size(), 2);
    assert!(AudioFormat::F32.is_float());
    assert!(!AudioFormat::S16.is_float());
}

#[test]
fn chunks_leave_in_arrival_order() {
    let mut player = AudioPlayer::new();
    for pts in [30, 10, 20] {
        player.enqueue_audio(&[0, 0], pts, 8_000, 1, AudioFormat::S16).unwrap();
    }
    let mut order = Vec::new();
    while let Some(p) = player.next_chunk() {
        if p.reopen {
            player.stream_opened(&p);
        }
        order.push(p.chunk.pts_us);
        player.chunk_written(p);
    }
    assert_eq!(order, vec![30, 10, 20]);
    assert_eq!(player.total_samples_enqueued(), 3);
}

#[test]
fn counts_before_any_stream() {
    let mut player = AudioPlayer::new();
    player.enqueue_audio(&[0; 8], 0, 48_000, 2, AudioFormat::S16).unwrap();
    assert!(player.counters_computable());
    let c = player.counters(0);
    assert_eq!(c.buffered_frames, None);
    assert_eq!(c.sample_rate, 0);
    assert_eq!(c.total_samples_played, 0);
    assert_eq!(c.audio_queue_size, 1);
    assert_eq!(c.total_samples_enqueued, 2);
}
