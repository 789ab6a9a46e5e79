//! Checks on externally owned pixel buffers (the zero-copy frame path).
//!
//! Such a buffer is described by the plane heights and row strides that its
//! owner reports; these checks decide, from those plain values, whether the
//! backend may read a frame of the declared size out of it.
use vstd::prelude::*;

use crate::error::{invalid, outcome, Error, ErrorView, Result};
use crate::text::{decimal, push_decimal, push_unsigned};
use crate::validate::{check_dimensions, dims_check, MAX_DIMENSION};
use crate::video_format::{format_name, VideoFormat};

verus! {

pub open spec fn plane_len_overflow_msg() -> Seq<char> {
    "CVPixelBuffer plane byte length overflow (stride * height)"@
}

pub open spec fn stride_too_large_msg(stride: int) -> Seq<char> {
    "CVPixelBuffer plane stride "@ + decimal(stride) + " exceeds i32::MAX"@
}

pub open spec fn unsupported_format_msg(format: VideoFormat) -> Seq<char> {
    "PixelBuffer does not support format: "@ + format_name(format)
}

/// Rows needed in a half-height chroma plane: `height` rounded up, halved.
pub open spec fn chroma_rows(height: int) -> int {
    (height + 1) / 2
}

pub open spec fn nv12_height_msg(y: int, uv: int, need_y: int, need_uv: int) -> Seq<char> {
    "NV12 PixelBuffer plane height insufficient: Y="@ + decimal(y) + ", UV="@ + decimal(uv)
        + ", required Y>="@ + decimal(need_y) + ", UV>="@ + decimal(need_uv)
}

pub open spec fn nv12_stride_msg(y: int, uv: int, need: int) -> Seq<char> {
    "NV12 PixelBuffer stride insufficient: Y="@ + decimal(y) + ", UV="@ + decimal(uv)
        + ", required >= "@ + decimal(need)
}

pub open spec fn i420_height_msg(y: int, u: int, v: int, need_y: int, need_uv: int) -> Seq<char> {
    "I420 PixelBuffer plane height insufficient: Y="@ + decimal(y) + ", U="@ + decimal(u) + ", V="@
        + decimal(v) + ", required Y>="@ + decimal(need_y) + ", UV>="@ + decimal(need_uv)
}

pub open spec fn i420_stride_msg(y: int, u: int, v: int, need_y: int, need_uv: int) -> Seq<char> {
    "I420 PixelBuffer stride insufficient: Y="@ + decimal(y) + ", U="@ + decimal(u) + ", V="@
        + decimal(v) + ", required Y>="@ + decimal(need_y) + ", UV>="@ + decimal(need_uv)
}

/// Outcome of converting a reported stride to the backend's `i32` pitch.
pub open spec fn stride_check(stride: int) -> Option<ErrorView> {
    if stride > i32::MAX {
        invalid(stride_too_large_msg(stride))
    } else {
        None
    }
}

/// Outcome of the enqueue-time check of a pixel-buffer frame.
pub open spec fn pixel_buffer_frame_check(format: VideoFormat, width: int, height: int) -> Option<ErrorView> {
    if dims_check(width, height) is Some {
        dims_check(width, height)
    } else if format != VideoFormat::I420 && format != VideoFormat::NV12 {
        invalid(unsupported_format_msg(format))
    } else if width % 2 != 0 || height % 2 != 0 {
        if format == VideoFormat::I420 {
            invalid("I420 requires even width and height"@)
        } else {
            invalid("NV12 requires even width and height"@)
        }
    } else {
        None
    }
}

/// Outcome of the render-time check of an NV12 pixel buffer.
pub open spec fn nv12_planes_check(
    width: int,
    height: int,
    y_rows: int,
    uv_rows: int,
    y_stride: int,
    uv_stride: int,
) -> Option<ErrorView> {
    if stride_check(y_stride) is Some {
        stride_check(y_stride)
    } else if stride_check(uv_stride) is Some {
        stride_check(uv_stride)
    } else if y_rows < height || uv_rows < chroma_rows(height) {
        invalid(nv12_height_msg(y_rows, uv_rows, height, chroma_rows(height)))
    } else if y_stride < width || uv_stride < width {
        invalid(nv12_stride_msg(y_stride, uv_stride, width))
    } else {
        None
    }
}

/// Outcome of the render-time check of an I420 pixel buffer.
pub open spec fn i420_planes_check(
    width: int,
    height: int,
    y_rows: int,
    u_rows: int,
    v_rows: int,
    y_stride: int,
    u_stride: int,
    v_stride: int,
) -> Option<ErrorView> {
    if stride_check(y_stride) is Some {
        stride_check(y_stride)
    } else if stride_check(u_stride) is Some {
        stride_check(u_stride)
    } else if stride_check(v_stride) is Some {
        stride_check(v_stride)
    } else if y_rows < height || u_rows < chroma_rows(height) || v_rows < chroma_rows(height) {
        invalid(i420_height_msg(y_rows, u_rows, v_rows, height, chroma_rows(height)))
    } else if y_stride < width || u_stride < chroma_rows(width) || v_stride < chroma_rows(width) {
        invalid(i420_stride_msg(y_stride, u_stride, v_stride, width, chroma_rows(width)))
    } else {
        None
    }
}

/// Byte length `stride * height` of one plane, or an error when the product
/// does not fit in `usize`.
pub fn plane_buffer_len(stride: usize, height: usize) -> (r: Result<usize>)
    ensures
        stride * height <= usize::MAX ==> r == Ok::<usize, Error>((stride * height) as usize),
        stride * height > usize::MAX ==> outcome(r) == invalid(plane_len_overflow_msg()),
{
    match stride.checked_mul(height) {
        Some(len) => Ok(len),
        None => Err(
            Error::invalid_argument("CVPixelBuffer plane byte length overflow (stride * height)"),
        ),
    }
}

/// Converts a reported row stride to the backend's `i32` pitch, refusing
/// strides above `i32::MAX`.
pub fn plane_stride(stride: usize) -> (r: Result<i32>)
    ensures
        stride <= i32::MAX ==> r == Ok::<i32, Error>(stride as i32),
        outcome(r) == stride_check(stride as int),
{
    if stride > 2147483647usize {
        let mut s = String::from_str("CVPixelBuffer plane stride ");
        push_unsigned(&mut s, stride as u64);
        s.append(" exceeds i32::MAX");
        Err(Error::invalid_argument_owned(s))
    } else {
        Ok(stride as i32)
    }
}

/// Enqueue-time check of a pixel-buffer frame: the common dimension rule,
/// then a planar layout (I420 or NV12), then even width and height.
pub fn validate_pixel_buffer_frame(format: VideoFormat, width: i32, height: i32) -> (r: Result<()>)
    ensures
        outcome(r) == pixel_buffer_frame_check(format, width as int, height as int),
{
    check_dimensions(width, height)?;
    match format {
        VideoFormat::I420 | VideoFormat::NV12 => {},
        _ => {
            let mut s = String::from_str("PixelBuffer does not support format: ");
            s.append(format.name());
            return Err(Error::invalid_argument_owned(s));
        },
    }
    if width % 2 != 0 || height % 2 != 0 {
        if format == VideoFormat::I420 {
            return Err(Error::invalid_argument("I420 requires even width and height"));
        } else {
            return Err(Error::invalid_argument("NV12 requires even width and height"));
        }
    }
    Ok(())
}

fn push_labelled(s: &mut String, label: &str, n: usize)
    ensures
        final(s)@ == old(s)@ + label@ + decimal(n as int),
{
    s.append(label);
    push_unsigned(s, n as u64);
}

fn push_labelled_i32(s: &mut String, label: &str, n: i32)
    ensures
        final(s)@ == old(s)@ + label@ + decimal(n as int),
{
    s.append(label);
    push_decimal(s, n as i64);
}

/// Render-time check of an NV12 pixel buffer for a `width` x `height` frame:
/// both strides fit the backend's pitch type, the planes hold at least
/// `height` and `ceil(height / 2)` rows, and both strides cover `width`
/// bytes. Gives the Y and UV pitches.
pub fn check_nv12_planes(
    width: i32,
    height: i32,
    y_rows: usize,
    uv_rows: usize,
    y_stride: usize,
    uv_stride: usize,
) -> (r: Result<(i32, i32)>)
    requires
        0 < width <= MAX_DIMENSION,
        0 < height <= MAX_DIMENSION,
    ensures
        outcome(r) == nv12_planes_check(
            width as int,
            height as int,
            y_rows as int,
            uv_rows as int,
            y_stride as int,
            uv_stride as int,
        ),
        r matches Ok((yp, uvp)) ==> yp == y_stride && uvp == uv_stride,
{
    let y_pitch = plane_stride(y_stride)?;
    let uv_pitch = plane_stride(uv_stride)?;
    let h = height as usize;
    let chroma_h = (h + 1) / 2;
    if y_rows < h || uv_rows < chroma_h {
        let mut s = String::from_str("NV12 PixelBuffer plane height insufficient: Y=");
        push_unsigned(&mut s, y_rows as u64);
        push_labelled(&mut s, ", UV=", uv_rows);
        push_labelled(&mut s, ", required Y>=", h);
        push_labelled(&mut s, ", UV>=", chroma_h);
        return Err(Error::invalid_argument_owned(s));
    }
    if (y_pitch as usize) < width as usize || (uv_pitch as usize) < width as usize {
        let mut s = String::from_str("NV12 PixelBuffer stride insufficient: Y=");
        push_decimal(&mut s, y_pitch as i64);
        push_labelled_i32(&mut s, ", UV=", uv_pitch);
        push_labelled_i32(&mut s, ", required >= ", width);
        return Err(Error::invalid_argument_owned(s));
    }
    Ok((y_pitch, uv_pitch))
}

/// Render-time check of an I420 pixel buffer for a `width` x `height` frame:
/// all three strides fit the backend's pitch type, the planes hold at least
/// `height`, `ceil(height / 2)` and `ceil(height / 2)` rows, the Y stride
/// covers `width` bytes and each chroma stride covers `ceil(width / 2)`
/// bytes. Gives the Y, U and V pitches.
pub fn check_i420_planes(
    width: i32,
    height: i32,
    y_rows: usize,
    u_rows: usize,
    v_rows: usize,
    y_stride: usize,
    u_stride: usize,
    v_stride: usize,
) -> (r: Result<(i32, i32, i32)>)
    requires
        0 < width <= MAX_DIMENSION,
        0 < height <= MAX_DIMENSION,
    ensures
        outcome(r) == i420_planes_check(
            width as int,
            height as int,
            y_rows as int,
            u_rows as int,
            v_rows as int,
            y_stride as int,
            u_stride as int,
            v_stride as int,
        ),
        r matches Ok((yp, up, vp)) ==> yp == y_stride && up == u_stride && vp == v_stride,
{
    let y_pitch = plane_stride(y_stride)?;
    let u_pitch = plane_stride(u_stride)?;
    let v_pitch = plane_stride(v_stride)?;
    let h = height as usize;
    let chroma_h = (h + 1) / 2;
    let half_w = (width as usize + 1) / 2;
    if y_rows < h || u_rows < chroma_h || v_rows < chroma_h {
        let mut s = String::from_str("I420 PixelBuffer plane height insufficient: Y=");
        push_unsigned(&mut s, y_rows as u64);
        push_labelled(&mut s, ", U=", u_rows);
        push_labelled(&mut s, ", V=", v_rows);
        push_labelled(&mut s, ", required Y>=", h);
        push_labelled(&mut s, ", UV>=", chroma_h);
        return Err(Error::invalid_argument_owned(s));
    }
    if (y_pitch as usize) < width as usize || (u_pitch as usize) < half_w || (v_pitch as usize)
        < half_w {
        let mut s = String::from_str("I420 PixelBuffer stride insufficient: Y=");
        push_decimal(&mut s, y_pitch as i64);
        push_labelled_i32(&mut s, ", U=", u_pitch);
        push_labelled_i32(&mut s, ", V=", v_pitch);
        push_labelled_i32(&mut s, ", required Y>=", width);
        push_labelled(&mut s, ", UV>=", half_w);
        return Err(Error::invalid_argument_owned(s));
    }
    Ok((y_pitch, u_pitch, v_pitch))
}

/// A pixel buffer that passes its render-time check can be uploaded without
/// reading past its planes: every stride fits the backend's `i32` pitch and
/// covers a row (`width` bytes for luma and interleaved chroma, half of it
/// rounded up for each I420 chroma plane), and every plane has at least the
/// rows the frame needs (`height` for luma, half of it rounded up for
/// chroma).
pub proof fn lemma_accepted_planes_fit(
    width: int,
    height: int,
    y_rows: int,
    u_rows: int,
    v_rows: int,
    y_stride: int,
    u_stride: int,
    v_stride: int,
)
    ensures
        nv12_planes_check(width, height, y_rows, u_rows, y_stride, u_stride) is None ==> {
            &&& y_stride <= i32::MAX && u_stride <= i32::MAX
            &&& y_stride >= width && u_stride >= width
            &&& y_rows >= height && 2 * u_rows >= height
        },
        i420_planes_check(width, height, y_rows, u_rows, v_rows, y_stride, u_stride, v_stride)
            is None ==> {
            &&& y_stride <= i32::MAX && u_stride <= i32::MAX && v_stride <= i32::MAX
            &&& y_stride >= width && 2 * u_stride >= width && 2 * v_stride >= width
            &&& y_rows >= height && 2 * u_rows >= height && 2 * v_rows >= height
        },
{
}

} // verus!
