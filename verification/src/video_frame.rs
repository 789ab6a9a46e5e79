//! Queued video frames.
use vstd::prelude::*;

use crate::pixel_buffer::pixel_buffer_frame_check;
use crate::validate::{
    dims_check, i420_strided_check, nv12_strided_check, packed_4bpp_check, yuy2_strided_check,
};
use crate::video_format::VideoFormat;

verus! {

/// The pixel data of a frame. `P` is the handle of an externally owned
/// pixel buffer, for frames that are read in place at render time.
pub enum FrameData<P> {
    /// I420: Y, U and V planes.
    Planar { y: Vec<u8>, u: Vec<u8>, v: Vec<u8> },
    /// NV12: a Y plane and an interleaved UV plane.
    SemiPlanar { y: Vec<u8>, uv: Vec<u8> },
    /// YUY2, RGBA or BGRA: one interleaved plane.
    Packed(Vec<u8>),
    /// An externally owned buffer, read in place when the frame is drawn.
    PixelBuffer(P),
}

/// Bytes the frame owns: the sum of its plane lengths (none for an
/// external buffer).
pub open spec fn data_bytes<P>(d: FrameData<P>) -> int {
    match d {
        FrameData::Planar { y, u, v } => (y@.len() + u@.len() + v@.len()) as int,
        FrameData::SemiPlanar { y, uv } => (y@.len() + uv@.len()) as int,
        FrameData::Packed(data) => data@.len() as int,
        FrameData::PixelBuffer(_) => 0,
    }
}

impl<P> FrameData<P> {
    /// Bytes the frame owns: the sum of its plane lengths, zero for an
    /// external buffer.
    pub fn size_bytes(&self) -> (n: u64)
        requires
            data_bytes(*self) <= u64::MAX,
        ensures
            n == data_bytes(*self),
    {
        match self {
            FrameData::Planar { y, u, v } => y.len() as u64 + u.len() as u64 + v.len() as u64,
            FrameData::SemiPlanar { y, uv } => y.len() as u64 + uv.len() as u64,
            FrameData::Packed(data) => data.len() as u64,
            FrameData::PixelBuffer(_) => 0,
        }
    }
}

/// A frame waiting to be drawn: its presentation time in microseconds, its
/// size and layout, the row pitches it is uploaded with, and its data.
pub struct VideoFrame<P> {
    pub pts_us: i64,
    pub width: i32,
    pub height: i32,
    pub y_pitch: i32,
    pub uv_pitch: i32,
    pub format: VideoFormat,
    pub data: FrameData<P>,
}

/// A frame as the player admits it: its dimensions pass the common rule,
/// and its data has the layout its format names, with exactly the sizes its
/// pitches call for (an external buffer must be I420 or NV12 with even
/// dimensions; its planes are checked when it is drawn).
pub open spec fn frame_ok<P>(f: VideoFrame<P>) -> bool {
    &&& dims_check(f.width as int, f.height as int) is None
    &&& match f.data {
        FrameData::Planar { y, u, v } => f.format == VideoFormat::I420 && i420_strided_check(
            y@.len() as int,
            u@.len() as int,
            v@.len() as int,
            f.width as int,
            f.height as int,
            f.y_pitch as int,
            f.uv_pitch as int,
        ) is None,
        FrameData::SemiPlanar { y, uv } => f.format == VideoFormat::NV12 && nv12_strided_check(
            y@.len() as int,
            uv@.len() as int,
            f.width as int,
            f.height as int,
            f.y_pitch as int,
            f.uv_pitch as int,
        ) is None,
        FrameData::Packed(data) => match f.format {
            VideoFormat::YUY2 => yuy2_strided_check(
                data@.len() as int,
                f.width as int,
                f.height as int,
                f.y_pitch as int,
            ) is None,
            VideoFormat::Rgba => packed_4bpp_check(
                data@.len() as int,
                f.width as int,
                f.height as int,
                "RGBA"@,
            ) is None && f.y_pitch == f.width * 4,
            VideoFormat::Bgra => packed_4bpp_check(
                data@.len() as int,
                f.width as int,
                f.height as int,
                "BGRA"@,
            ) is None && f.y_pitch == f.width * 4,
            _ => false,
        },
        FrameData::PixelBuffer(_) => pixel_buffer_frame_check(
            f.format,
            f.width as int,
            f.height as int,
        ) is None,
    }
}

} // verus!
