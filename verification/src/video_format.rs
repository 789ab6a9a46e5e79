//! Raw video frame layouts.
use vstd::prelude::*;

verus! {

/// Layout of a raw video frame.
#[derive(Debug, Clone, Copy, PartialEq, Eq, Structural)]
pub enum VideoFormat {
    /// Planar YUV 4:2:0: a Y plane and separate U and V planes of half width and height.
    I420,
    /// Semi-planar YUV 4:2:0: a Y plane and one interleaved UV plane of half height.
    NV12,
    /// Packed YUV 4:2:2: two bytes per pixel.
    YUY2,
    /// Packed RGBA: four bytes per pixel.
    Rgba,
    /// Packed BGRA: four bytes per pixel.
    Bgra,
}

/// The backend's code for planar I420 (`IYUV`).
pub const SDL_PIXELFORMAT_IYUV: u32 = 0x56555949;

/// The backend's code for NV12.
pub const SDL_PIXELFORMAT_NV12: u32 = 0x3231564e;

/// The backend's code for YUY2.
pub const SDL_PIXELFORMAT_YUY2: u32 = 0x32595559;

/// The backend's code for 32-bit RGBA.
pub const SDL_PIXELFORMAT_RGBA8888: u32 = 0x16462004;

/// The backend's code for 32-bit ARGB, which on a little-endian machine has
/// the byte order B, G, R, A in memory.
pub const SDL_PIXELFORMAT_ARGB8888: u32 = 0x16362004;

/// The display name of a format.
pub open spec fn format_name(f: VideoFormat) -> Seq<char> {
    match f {
        VideoFormat::I420 => "I420"@,
        VideoFormat::NV12 => "NV12"@,
        VideoFormat::YUY2 => "YUY2"@,
        VideoFormat::Rgba => "RGBA"@,
        VideoFormat::Bgra => "BGRA"@,
    }
}

/// The backend's pixel format code for a layout.
pub open spec fn pixel_format_code(f: VideoFormat) -> u32 {
    match f {
        VideoFormat::I420 => SDL_PIXELFORMAT_IYUV,
        VideoFormat::NV12 => SDL_PIXELFORMAT_NV12,
        VideoFormat::YUY2 => SDL_PIXELFORMAT_YUY2,
        VideoFormat::Rgba => SDL_PIXELFORMAT_RGBA8888,
        VideoFormat::Bgra => SDL_PIXELFORMAT_ARGB8888,
    }
}

impl VideoFormat {
    /// The backend's pixel format code for this layout (BGRA bytes map to
    /// the backend's ARGB word on a little-endian machine).
    pub fn to_sdl_pixel_format(self) -> (code: u32)
        ensures
            code == pixel_format_code(self),
    {
        match self {
            VideoFormat::I420 => SDL_PIXELFORMAT_IYUV,
            VideoFormat::NV12 => SDL_PIXELFORMAT_NV12,
            VideoFormat::YUY2 => SDL_PIXELFORMAT_YUY2,
            VideoFormat::Rgba => SDL_PIXELFORMAT_RGBA8888,
            VideoFormat::Bgra => SDL_PIXELFORMAT_ARGB8888,
        }
    }

    /// The display name of this layout.
    pub fn name(self) -> (s: &'static str)
        ensures
            s@ == format_name(self),
    {
        match self {
            VideoFormat::I420 => "I420",
            VideoFormat::NV12 => "NV12",
            VideoFormat::YUY2 => "YUY2",
            VideoFormat::Rgba => "RGBA",
            VideoFormat::Bgra => "BGRA",
        }
    }
}

} // verus!
