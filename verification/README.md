# raw_player

A player for decoded video frames (I420, NV12, YUY2, RGBA, BGRA) and PCM
audio (S16, F32) that keeps video in sync with the audio clock using
presentation timestamps.

## Layout

- `src/` is the player's core, specified and proved with Verus:
  - `validate`, `pixel_buffer`: the size, pitch and layout checks of every
    frame format, with their exact error messages;
  - `texture`, `window`, `renderer`: the checks a texture upload, a window
    title or a renderer backend must pass, and the GPU backend choice;
  - `audio_player`: the PCM queue, the stream bookkeeping and the audio
    clock; device operations are performed by the caller, whose outcomes the
    player takes as arguments, so a failed operation changes nothing;
  - `video_player`: the frame queue and its bound, the A/V sync decision of
    each tick (drop late frames, hold early ones, draw the one that is due),
    the video-only clock with pause compensation, event handling, and the
    frame, timing and frame-rate statistics;
  - `event`, `error`, `text`: event decoding, the error type, and decimal
    formatting for messages.
- `app/` drives SDL3: windows, renderers, textures, the audio stream, event
  polling, the render loop and the floating-point statistics.
- `tests/` exercises the core on concrete values.
