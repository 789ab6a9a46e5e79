//! raw_player: the verified core of a player for raw video frames and raw
//! audio, timed by presentation timestamps.
use vstd::prelude::*;

pub mod audio_format;
pub mod text;
pub mod error;
pub mod video_format;
pub mod validate;
pub mod pixel_buffer;
pub mod window;
pub mod renderer;
pub mod texture;
pub mod event;
pub mod audio_player;
pub mod video_frame;
pub mod video_player;

pub use audio_format::AudioFormat;
pub use audio_player::{AudioCounters, AudioPlayer};
pub use error::{Error, Result};
pub use event::{Event, KEYCODE_ESCAPE, KEYCODE_S};
pub use pixel_buffer::plane_buffer_len;
pub use renderer::Renderer;
pub use texture::Texture;
pub use validate::{
    validate_bgra, validate_i420, validate_i420_strided, validate_nv12, validate_nv12_strided,
    validate_rgba, validate_yuy2, validate_yuy2_strided,
};
pub use video_format::VideoFormat;
pub use video_frame::{FrameData, VideoFrame};
pub use video_player::{VideoCounters, VideoPlayer};
pub use window::Window;

verus! {

/// Blend mode: alpha blending.
pub const BLENDMODE_BLEND: u32 = 1;

/// Size in pixels of a character of the debug-text font.
pub const DEBUG_TEXT_FONT_CHARACTER_SIZE: i32 = 8;

} // verus!
