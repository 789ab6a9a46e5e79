//! PCM sample formats.
use vstd::prelude::*;

verus! {

/// Sample encoding of interleaved PCM data.
#[derive(Debug, Clone, Copy, PartialEq, Eq, Structural)]
pub enum AudioFormat {
    /// Signed 16-bit samples in native byte order.
    S16,
    /// 32-bit IEEE float samples in native byte order.
    F32,
}

/// The backend's code for signed 16-bit native-endian samples.
pub const SDL_AUDIO_S16: u32 = 0x8010;

/// The backend's code for 32-bit float native-endian samples.
pub const SDL_AUDIO_F32: u32 = 0x8120;

impl AudioFormat {
    /// Bytes taken by one sample of one channel.
    pub open spec fn spec_sample_size(self) -> nat {
        match self {
            AudioFormat::S16 => 2,
            AudioFormat::F32 => 4,
        }
    }

    /// Size in bytes of one sample of one channel: 2 for `S16`, 4 for `F32`.
    pub fn sample_size(self) -> (size: usize)
        ensures
            size == self.spec_sample_size(),
    {
        match self {
            AudioFormat::S16 => 2,
            AudioFormat::F32 => 4,
        }
    }

    /// Whether the samples are floating point.
    pub fn is_float(self) -> (b: bool)
        ensures
            b == (self == AudioFormat::F32),
    {
        match self {
            AudioFormat::S16 => false,
            AudioFormat::F32 => true,
        }
    }

    /// The backend's code for this format.
    pub fn to_sdl(self) -> (code: u32)
        ensures
            self == AudioFormat::S16 ==> code == SDL_AUDIO_S16,
            self == AudioFormat::F32 ==> code == SDL_AUDIO_F32,
    {
        match self {
            AudioFormat::S16 => SDL_AUDIO_S16,
            AudioFormat::F32 => SDL_AUDIO_F32,
        }
    }
}

} // verus!
