//! Streaming textures: their size and layout, and the checks that every
//! upload must pass before the backend may read the caller's buffers.
//!
//! An upload always replaces the whole texture, so the backend reads
//! `height` rows of the luma or packed plane and `height / 2` rows of each
//! chroma plane, `pitch` bytes apart. The checks make sure those bytes exist.
use vstd::prelude::*;

use crate::error::{invalid, outcome, Error, ErrorView, Result};
use crate::renderer::Renderer;
use crate::text::{decimal, push_decimal, push_unsigned};
use crate::validate::{check_dimensions, dims_check, too_large_error, too_large_msg, MAX_DIMENSION};
use crate::video_format::VideoFormat;

verus! {

/// The first error of two checks run in order.
pub open spec fn or_else(first: Option<ErrorView>, second: Option<ErrorView>) -> Option<ErrorView> {
    if first is Some {
        first
    } else {
        second
    }
}

/// The dimension rule applied at upload time.
pub open spec fn update_dims_check(width: int, height: int) -> Option<ErrorView> {
    if width <= 0 || height <= 0 {
        invalid(
            "texture dimensions must be positive: "@ + decimal(width) + "x"@ + decimal(height),
        )
    } else if width > MAX_DIMENSION || height > MAX_DIMENSION {
        invalid(too_large_msg(width, height))
    } else {
        None
    }
}

/// A pitch must be positive and at least `min_pitch`.
pub open spec fn pitch_check(pitch: int, min_pitch: int, name: Seq<char>) -> Option<ErrorView> {
    if pitch <= 0 {
        invalid(name + " must be positive: "@ + decimal(pitch))
    } else if pitch < min_pitch {
        invalid(name + " too small: "@ + decimal(pitch) + " < "@ + decimal(min_pitch))
    } else {
        None
    }
}

/// A plane must hold at least `pitch * rows` bytes.
pub open spec fn plane_len_check(len: int, pitch: int, rows: int, name: Seq<char>) -> Option<ErrorView> {
    if pitch < 0 {
        invalid(name + " pitch is not representable as usize: "@ + decimal(pitch))
    } else if rows < 0 {
        invalid(name + " rows is not representable as usize: "@ + decimal(rows))
    } else if pitch * rows > usize::MAX {
        invalid(name + " plane minimum length overflow"@)
    } else if len < pitch * rows {
        invalid(name + " plane too short: "@ + decimal(len) + " < "@ + decimal(pitch * rows))
    } else {
        None
    }
}

/// Outcome of `update_yuv` on a texture of the given layout and size.
pub open spec fn yuv_update_check(
    format: VideoFormat,
    width: int,
    height: int,
    y_len: int,
    y_pitch: int,
    u_len: int,
    u_pitch: int,
    v_len: int,
    v_pitch: int,
) -> Option<ErrorView> {
    if update_dims_check(width, height) is Some {
        update_dims_check(width, height)
    } else if format != VideoFormat::I420 {
        invalid("update_yuv requires I420 texture format"@)
    } else if width % 2 != 0 || height % 2 != 0 {
        invalid("I420 requires even width and height"@)
    } else {
        or_else(
            pitch_check(y_pitch, width, "y_pitch"@),
            or_else(
                pitch_check(u_pitch, width / 2, "u_pitch"@),
                or_else(
                    pitch_check(v_pitch, width / 2, "v_pitch"@),
                    or_else(
                        plane_len_check(y_len, y_pitch, height, "Y"@),
                        or_else(
                            plane_len_check(u_len, u_pitch, height / 2, "U"@),
                            plane_len_check(v_len, v_pitch, height / 2, "V"@),
                        ),
                    ),
                ),
            ),
        )
    }
}

/// Outcome of `update_nv12` on a texture of the given layout and size.
pub open spec fn nv12_update_check(
    format: VideoFormat,
    width: int,
    height: int,
    y_len: int,
    y_pitch: int,
    uv_len: int,
    uv_pitch: int,
) -> Option<ErrorView> {
    if update_dims_check(width, height) is Some {
        update_dims_check(width, height)
    } else if format != VideoFormat::NV12 {
        invalid("update_nv12 requires NV12 texture format"@)
    } else if width % 2 != 0 || height % 2 != 0 {
        invalid("NV12 requires even width and height"@)
    } else {
        or_else(
            pitch_check(y_pitch, width, "y_pitch"@),
            or_else(
                pitch_check(uv_pitch, width, "uv_pitch"@),
                or_else(
                    plane_len_check(y_len, y_pitch, height, "Y"@),
                    plane_len_check(uv_len, uv_pitch, height / 2, "UV"@),
                ),
            ),
        )
    }
}

/// Bytes per pixel of a packed layout (`None` for the planar ones).
pub open spec fn packed_bytes_per_pixel(format: VideoFormat) -> Option<int> {
    match format {
        VideoFormat::YUY2 => Some(2),
        VideoFormat::Rgba => Some(4),
        VideoFormat::Bgra => Some(4),
        _ => None,
    }
}

/// Outcome of `update_packed` on a texture of the given layout and size.
pub open spec fn packed_update_check(
    format: VideoFormat,
    width: int,
    height: int,
    len: int,
    pitch: int,
) -> Option<ErrorView> {
    if update_dims_check(width, height) is Some {
        update_dims_check(width, height)
    } else if format == VideoFormat::YUY2 && width % 2 != 0 {
        invalid("YUY2 requires even width"@)
    } else if packed_bytes_per_pixel(format) is None {
        invalid("update_packed requires YUY2, RGBA, or BGRA texture format"@)
    } else {
        or_else(
            pitch_check(pitch, width * packed_bytes_per_pixel(format)->0, "pitch"@),
            plane_len_check(len, pitch, height, "packed"@),
        )
    }
}

/// A streaming texture: its size and pixel layout.
pub struct Texture {
    width: i32,
    height: i32,
    format: VideoFormat,
}

impl Texture {
    pub closed spec fn spec_width(&self) -> i32 {
        self.width
    }

    pub closed spec fn spec_height(&self) -> i32 {
        self.height
    }

    pub closed spec fn spec_format(&self) -> VideoFormat {
        self.format
    }

    /// A streaming texture of the given layout and size. Non-positive
    /// dimensions and dimensions above `MAX_DIMENSION` are refused before
    /// the backend is asked; odd sizes are accepted here and refused at
    /// upload time where the layout needs even ones.
    pub fn new(renderer: &Renderer, format: VideoFormat, width: i32, height: i32) -> (r: Result<
        Texture,
    >)
        ensures
            outcome(r) == dims_check(width as int, height as int),
            r matches Ok(t) ==> t.spec_width() == width && t.spec_height() == height
                && t.spec_format() == format,
    {
        check_dimensions(width, height)?;
        Ok(Texture { width, height, format })
    }

    /// An I420 texture of the given size.
    pub fn new_yuv(renderer: &Renderer, width: i32, height: i32) -> (r: Result<Texture>)
        ensures
            outcome(r) == dims_check(width as int, height as int),
            r matches Ok(t) ==> t.spec_width() == width && t.spec_height() == height
                && t.spec_format() == VideoFormat::I420,
    {
        Self::new(renderer, VideoFormat::I420, width, height)
    }

    pub fn width(&self) -> (w: i32)
        ensures
            w == self.spec_width(),
    {
        self.width
    }

    pub fn height(&self) -> (h: i32)
        ensures
            h == self.spec_height(),
    {
        self.height
    }

    pub fn format(&self) -> (f: VideoFormat)
        ensures
            f == self.spec_format(),
    {
        self.format
    }

    /// Checks a full I420 upload: the texture is I420 with even, positive
    /// dimensions at most `MAX_DIMENSION`; the Y pitch covers `width` bytes
    /// and the U and V pitches `width / 2`; the Y plane holds at least
    /// `y_pitch * height` bytes and the U and V planes `pitch * (height / 2)`.
    /// Longer planes are accepted.
    pub fn update_yuv(
        &mut self,
        y_plane: &[u8],
        y_pitch: i32,
        u_plane: &[u8],
        u_pitch: i32,
        v_plane: &[u8],
        v_pitch: i32,
    ) -> (r: Result<()>)
        ensures
            *final(self) == *old(self),
            outcome(r) == yuv_update_check(
                old(self).spec_format(),
                old(self).spec_width() as int,
                old(self).spec_height() as int,
                y_plane@.len() as int,
                y_pitch as int,
                u_plane@.len() as int,
                u_pitch as int,
                v_plane@.len() as int,
                v_pitch as int,
            ),
    {
        self.validate_dimensions_for_update()?;
        if self.format != VideoFormat::I420 {
            return Err(Error::invalid_argument("update_yuv requires I420 texture format"));
        }
        if self.width % 2 != 0 || self.height % 2 != 0 {
            return Err(Error::invalid_argument("I420 requires even width and height"));
        }
        let chroma_w = self.width / 2;
        let chroma_h = self.height / 2;
        Self::ensure_pitch_at_least(y_pitch, self.width, "y_pitch")?;
        Self::ensure_pitch_at_least(u_pitch, chroma_w, "u_pitch")?;
        Self::ensure_pitch_at_least(v_pitch, chroma_w, "v_pitch")?;
        Self::ensure_plane_len(y_plane, y_pitch, self.height, "Y")?;
        Self::ensure_plane_len(u_plane, u_pitch, chroma_h, "U")?;
        Self::ensure_plane_len(v_plane, v_pitch, chroma_h, "V")?;
        Ok(())
    }

    /// Checks a full NV12 upload: the texture is NV12 with even, positive
    /// dimensions at most `MAX_DIMENSION`; both pitches cover `width` bytes;
    /// the Y plane holds at least `y_pitch * height` bytes and the UV plane
    /// `uv_pitch * (height / 2)`. Longer planes are accepted.
    pub fn update_nv12(&mut self, y_plane: &[u8], y_pitch: i32, uv_plane: &[u8], uv_pitch: i32) -> (r:
        Result<()>)
        ensures
            *final(self) == *old(self),
            outcome(r) == nv12_update_check(
                old(self).spec_format(),
                old(self).spec_width() as int,
                old(self).spec_height() as int,
                y_plane@.len() as int,
                y_pitch as int,
                uv_plane@.len() as int,
                uv_pitch as int,
            ),
    {
        self.validate_dimensions_for_update()?;
        if self.format != VideoFormat::NV12 {
            return Err(Error::invalid_argument("update_nv12 requires NV12 texture format"));
        }
        if self.width % 2 != 0 || self.height % 2 != 0 {
            return Err(Error::invalid_argument("NV12 requires even width and height"));
        }
        let chroma_h = self.height / 2;
        Self::ensure_pitch_at_least(y_pitch, self.width, "y_pitch")?;
        Self::ensure_pitch_at_least(uv_pitch, self.width, "uv_pitch")?;
        Self::ensure_plane_len(y_plane, y_pitch, self.height, "Y")?;
        Self::ensure_plane_len(uv_plane, uv_pitch, chroma_h, "UV")?;
        Ok(())
    }

    /// Checks a full packed upload (YUY2, RGBA or BGRA texture): YUY2 needs
    /// an even width; the pitch covers `width * bytes_per_pixel` bytes and
    /// the data holds at least `pitch * height` bytes. Longer data is accepted.
    pub fn update_packed(&mut self, data: &[u8], pitch: i32) -> (r: Result<()>)
        ensures
            *final(self) == *old(self),
            outcome(r) == packed_update_check(
                old(self).spec_format(),
                old(self).spec_width() as int,
                old(self).spec_height() as int,
                data@.len() as int,
                pitch as int,
            ),
    {
        self.validate_dimensions_for_update()?;
        let bytes_per_pixel: i32 = match self.format {
            VideoFormat::YUY2 => {
                if self.width % 2 != 0 {
                    return Err(Error::invalid_argument("YUY2 requires even width"));
                }
                2i32
            },
            VideoFormat::Rgba | VideoFormat::Bgra => 4i32,
            VideoFormat::I420 | VideoFormat::NV12 => {
                return Err(
                    Error::invalid_argument(
                        "update_packed requires YUY2, RGBA, or BGRA texture format",
                    ),
                );
            },
        };
        let min_pitch = match self.width.checked_mul(bytes_per_pixel) {
            Some(p) => p,
            None => {
                return Err(Error::invalid_argument("pitch lower bound overflow"));
            },
        };
        Self::ensure_pitch_at_least(pitch, min_pitch, "pitch")?;
        Self::ensure_plane_len(data, pitch, self.height, "packed")?;
        Ok(())
    }

    /// Refuses non-positive or oversized dimensions before any length is
    /// computed from them.
    fn validate_dimensions_for_update(&self) -> (r: Result<()>)
        ensures
            outcome(r) == update_dims_check(self.width as int, self.height as int),
    {
        if self.width <= 0 || self.height <= 0 {
            let mut s = String::from_str("texture dimensions must be positive: ");
            push_decimal(&mut s, self.width as i64);
            s.append("x");
            push_decimal(&mut s, self.height as i64);
            return Err(Error::invalid_argument_owned(s));
        }
        if self.width > MAX_DIMENSION || self.height > MAX_DIMENSION {
            return Err(too_large_error(self.width, self.height));
        }
        Ok(())
    }

    /// A pitch must be positive and at least the row's byte size.
    fn ensure_pitch_at_least(pitch: i32, min_pitch: i32, name: &str) -> (r: Result<()>)
        ensures
            outcome(r) == pitch_check(pitch as int, min_pitch as int, name@),
    {
        if pitch <= 0 {
            let mut s = String::from_str(name);
            s.append(" must be positive: ");
            push_decimal(&mut s, pitch as i64);
            return Err(Error::invalid_argument_owned(s));
        }
        if pitch < min_pitch {
            let mut s = String::from_str(name);
            s.append(" too small: ");
            push_decimal(&mut s, pitch as i64);
            s.append(" < ");
            push_decimal(&mut s, min_pitch as i64);
            return Err(Error::invalid_argument_owned(s));
        }
        Ok(())
    }

    /// A plane must hold at least `pitch * rows` bytes.
    fn ensure_plane_len(plane: &[u8], pitch: i32, rows: i32, name: &str) -> (r: Result<()>)
        ensures
            outcome(r) == plane_len_check(plane@.len() as int, pitch as int, rows as int, name@),
    {
        if pitch < 0 {
            let mut s = String::from_str(name);
            s.append(" pitch is not representable as usize: ");
            push_decimal(&mut s, pitch as i64);
            return Err(Error::invalid_argument_owned(s));
        }
        if rows < 0 {
            let mut s = String::from_str(name);
            s.append(" rows is not representable as usize: ");
            push_decimal(&mut s, rows as i64);
            return Err(Error::invalid_argument_owned(s));
        }
        let pitch_usize = pitch as usize;
        let rows_usize = rows as usize;
        let min_len = match pitch_usize.checked_mul(rows_usize) {
            Some(n) => n,
            None => {
                let mut s = String::from_str(name);
                s.append(" plane minimum length overflow");
                return Err(Error::invalid_argument_owned(s));
            },
        };
        if plane.len() < min_len {
            let mut s = String::from_str(name);
            s.append(" plane too short: ");
            push_unsigned(&mut s, plane.len() as u64);
            s.append(" < ");
            push_unsigned(&mut s, min_len as u64);
            return Err(Error::invalid_argument_owned(s));
        }
        Ok(())
    }
}

/// Uploads accept any buffer at least as long as one they accept: growing
/// any plane never turns an accepted upload into a refused one.
pub proof fn lemma_update_accepts_longer_planes(
    format: VideoFormat,
    width: int,
    height: int,
    y_len: int,
    y_pitch: int,
    u_len: int,
    u_pitch: int,
    v_len: int,
    v_pitch: int,
    y_more: int,
    u_more: int,
    v_more: int,
)
    requires
        y_len <= y_more,
        u_len <= u_more,
        v_len <= v_more,
    ensures
        yuv_update_check(format, width, height, y_len, y_pitch, u_len, u_pitch, v_len, v_pitch) is None
            ==> yuv_update_check(format, width, height, y_more, y_pitch, u_more, u_pitch, v_more, v_pitch) is None,
        nv12_update_check(format, width, height, y_len, y_pitch, u_len, u_pitch) is None
            ==> nv12_update_check(format, width, height, y_more, y_pitch, u_more, u_pitch) is None,
        packed_update_check(format, width, height, y_len, y_pitch) is None
            ==> packed_update_check(format, width, height, y_more, y_pitch) is None,
{
}

/// A frame that passed the enqueue-time size check of its layout also
/// passes the upload check of a texture of that layout and size, with the
/// pitches the player uploads it with: the player never renders a frame
/// that its texture would refuse.
pub proof fn lemma_validated_frames_upload(
    width: int,
    height: int,
    y_len: int,
    u_len: int,
    v_len: int,
    y_pitch: int,
    uv_pitch: int,
)
    requires
        0 <= y_len <= usize::MAX,
        0 <= u_len <= usize::MAX,
        0 <= v_len <= usize::MAX,
    ensures
        crate::validate::i420_strided_check(y_len, u_len, v_len, width, height, y_pitch, uv_pitch)
            is None ==> yuv_update_check(
            VideoFormat::I420,
            width,
            height,
            y_len,
            y_pitch,
            u_len,
            uv_pitch,
            v_len,
            uv_pitch,
        ) is None,
        crate::validate::nv12_strided_check(y_len, u_len, width, height, y_pitch, uv_pitch) is None
            ==> nv12_update_check(VideoFormat::NV12, width, height, y_len, y_pitch, u_len, uv_pitch)
            is None,
        crate::validate::yuy2_strided_check(y_len, width, height, y_pitch) is None
            ==> packed_update_check(VideoFormat::YUY2, width, height, y_len, y_pitch) is None,
        crate::validate::packed_4bpp_check(y_len, width, height, "RGBA"@) is None
            ==> packed_update_check(VideoFormat::Rgba, width, height, y_len, width * 4) is None,
        crate::validate::packed_4bpp_check(y_len, width, height, "BGRA"@) is None
            ==> packed_update_check(VideoFormat::Bgra, width, height, y_len, width * 4) is None,
{
    assert(width * height * 4 == (width * 4) * height) by (nonlinear_arith);
}

/// An upload that passes its check never makes the backend read past a
/// buffer: the texture has the layout the upload is for and a valid size,
/// each pitch covers a row, and every plane holds its pitch times the rows
/// the backend reads (`height` for luma and packed data, `height / 2` for
/// chroma).
pub proof fn lemma_accepted_uploads_fit(
    format: VideoFormat,
    width: int,
    height: int,
    y_len: int,
    y_pitch: int,
    u_len: int,
    u_pitch: int,
    v_len: int,
    v_pitch: int,
)
    ensures
        yuv_update_check(format, width, height, y_len, y_pitch, u_len, u_pitch, v_len, v_pitch)
            is None ==> {
            &&& format == VideoFormat::I420
            &&& 0 < width <= MAX_DIMENSION && 0 < height <= MAX_DIMENSION
            &&& width % 2 == 0 && height % 2 == 0
            &&& y_pitch >= width && u_pitch >= width / 2 && v_pitch >= width / 2
            &&& y_len >= y_pitch * height
            &&& u_len >= u_pitch * (height / 2)
            &&& v_len >= v_pitch * (height / 2)
        },
        nv12_update_check(format, width, height, y_len, y_pitch, u_len, u_pitch) is None ==> {
            &&& format == VideoFormat::NV12
            &&& 0 < width <= MAX_DIMENSION && 0 < height <= MAX_DIMENSION
            &&& width % 2 == 0 && height % 2 == 0
            &&& y_pitch >= width && u_pitch >= width
            &&& y_len >= y_pitch * height
            &&& u_len >= u_pitch * (height / 2)
        },
        packed_update_check(format, width, height, y_len, y_pitch) is None ==> {
            &&& (format == VideoFormat::YUY2 || format == VideoFormat::Rgba || format
                == VideoFormat::Bgra)
            &&& 0 < width <= MAX_DIMENSION && 0 < height <= MAX_DIMENSION
            &&& (format == VideoFormat::YUY2 ==> width % 2 == 0 && y_pitch >= width * 2)
            &&& (format != VideoFormat::YUY2 ==> y_pitch >= width * 4)
            &&& y_len >= y_pitch * height
        },
{
}

} // verus!
