//! Size checks for raw frames handed to the player.
//!
//! Every check rejects non-positive dimensions first, then dimensions above
//! `MAX_DIMENSION`, then the layout's parity rules, pitch rules and finally
//! plane lengths, each with its own message.
use vstd::prelude::*;

use crate::error::{invalid, outcome, Error, ErrorView, Result};
use crate::text::{decimal, push_decimal, push_unsigned};

verus! {

/// Largest accepted width or height: it keeps `width * 4` within `i32`.
pub const MAX_DIMENSION: i32 = 536870911;

pub open spec fn positive_msg() -> Seq<char> {
    "width and height must be positive"@
}

pub open spec fn too_large_msg(width: int, height: int) -> Seq<char> {
    "dimensions too large: "@ + decimal(width) + "x"@ + decimal(height) + " (max "@ + decimal(
        MAX_DIMENSION as int,
    ) + ")"@
}

/// `"<plane> plane size mismatch: expected <e>, got <n>"`.
pub open spec fn plane_mismatch_msg(plane: Seq<char>, expected: int, got: int) -> Seq<char> {
    plane + " plane size mismatch: expected "@ + decimal(expected) + ", got "@ + decimal(got)
}

/// `"<name> data size mismatch: expected <e>, got <n>"`.
pub open spec fn data_mismatch_msg(name: Seq<char>, expected: int, got: int) -> Seq<char> {
    name + " data size mismatch: expected "@ + decimal(expected) + ", got "@ + decimal(got)
}

/// `"<pitch> (<p>) must be >= <bound> (<b>)"`.
pub open spec fn pitch_bound_msg(pitch_name: Seq<char>, pitch: int, bound_name: Seq<char>, bound: int) -> Seq<char> {
    pitch_name + " ("@ + decimal(pitch) + ") must be >= "@ + bound_name + " ("@ + decimal(bound)
        + ")"@
}

/// The common dimension rule: positive, then at most `MAX_DIMENSION`.
pub open spec fn dims_check(width: int, height: int) -> Option<ErrorView> {
    if width <= 0 || height <= 0 {
        invalid(positive_msg())
    } else if width > MAX_DIMENSION || height > MAX_DIMENSION {
        invalid(too_large_msg(width, height))
    } else {
        None
    }
}

pub open spec fn even_dims(width: int, height: int) -> bool {
    width % 2 == 0 && height % 2 == 0
}

/// Outcome of `validate_i420` for the given plane lengths and dimensions.
pub open spec fn i420_check(y: int, u: int, v: int, width: int, height: int) -> Option<ErrorView> {
    if dims_check(width, height) is Some {
        dims_check(width, height)
    } else if !even_dims(width, height) {
        invalid("I420 requires even width and height"@)
    } else if y != width * height {
        invalid(plane_mismatch_msg("Y"@, width * height, y))
    } else if u != (width / 2) * (height / 2) {
        invalid(plane_mismatch_msg("U"@, (width / 2) * (height / 2), u))
    } else if v != (width / 2) * (height / 2) {
        invalid(plane_mismatch_msg("V"@, (width / 2) * (height / 2), v))
    } else {
        None
    }
}

/// Outcome of `validate_nv12`.
pub open spec fn nv12_check(y: int, uv: int, width: int, height: int) -> Option<ErrorView> {
    if dims_check(width, height) is Some {
        dims_check(width, height)
    } else if !even_dims(width, height) {
        invalid("NV12 requires even width and height"@)
    } else if y != width * height {
        invalid(plane_mismatch_msg("Y"@, width * height, y))
    } else if uv != width * (height / 2) {
        invalid(plane_mismatch_msg("UV"@, width * (height / 2), uv))
    } else {
        None
    }
}

/// Outcome of `validate_i420_strided`.
pub open spec fn i420_strided_check(
    y: int,
    u: int,
    v: int,
    width: int,
    height: int,
    y_pitch: int,
    uv_pitch: int,
) -> Option<ErrorView> {
    if dims_check(width, height) is Some {
        dims_check(width, height)
    } else if !even_dims(width, height) {
        invalid("I420 requires even width and height"@)
    } else if y_pitch < width {
        invalid(pitch_bound_msg("y_pitch"@, y_pitch, "width"@, width))
    } else if uv_pitch < width / 2 {
        invalid(pitch_bound_msg("uv_pitch"@, uv_pitch, "width/2"@, width / 2))
    } else if y != y_pitch * height {
        invalid(plane_mismatch_msg("Y"@, y_pitch * height, y))
    } else if u != uv_pitch * (height / 2) {
        invalid(plane_mismatch_msg("U"@, uv_pitch * (height / 2), u))
    } else if v != uv_pitch * (height / 2) {
        invalid(plane_mismatch_msg("V"@, uv_pitch * (height / 2), v))
    } else {
        None
    }
}

/// Outcome of `validate_nv12_strided`.
pub open spec fn nv12_strided_check(
    y: int,
    uv: int,
    width: int,
    height: int,
    y_pitch: int,
    uv_pitch: int,
) -> Option<ErrorView> {
    if dims_check(width, height) is Some {
        dims_check(width, height)
    } else if !even_dims(width, height) {
        invalid("NV12 requires even width and height"@)
    } else if y_pitch < width {
        invalid(pitch_bound_msg("y_pitch"@, y_pitch, "width"@, width))
    } else if uv_pitch < width {
        invalid(pitch_bound_msg("uv_pitch"@, uv_pitch, "width"@, width))
    } else if y != y_pitch * height {
        invalid(plane_mismatch_msg("Y"@, y_pitch * height, y))
    } else if uv != uv_pitch * (height / 2) {
        invalid(plane_mismatch_msg("UV"@, uv_pitch * (height / 2), uv))
    } else {
        None
    }
}

/// Outcome of `validate_yuy2_strided`.
pub open spec fn yuy2_strided_check(len: int, width: int, height: int, pitch: int) -> Option<
    ErrorView,
> {
    if dims_check(width, height) is Some {
        dims_check(width, height)
    } else if width % 2 != 0 {
        invalid("YUY2 requires even width"@)
    } else if pitch < width * 2 {
        invalid(pitch_bound_msg("pitch"@, pitch, "width*2"@, width * 2))
    } else if len != pitch * height {
        invalid(data_mismatch_msg("YUY2"@, pitch * height, len))
    } else {
        None
    }
}

/// Outcome of `validate_yuy2`.
pub open spec fn yuy2_check(len: int, width: int, height: int) -> Option<ErrorView> {
    if dims_check(width, height) is Some {
        dims_check(width, height)
    } else if width % 2 != 0 {
        invalid("YUY2 requires even width"@)
    } else if len != width * height * 2 {
        invalid(data_mismatch_msg("YUY2"@, width * height * 2, len))
    } else {
        None
    }
}

/// Outcome of the four-bytes-per-pixel check under the given format name.
pub open spec fn packed_4bpp_check(len: int, width: int, height: int, name: Seq<char>) -> Option<
    ErrorView,
> {
    if dims_check(width, height) is Some {
        dims_check(width, height)
    } else if len != width * height * 4 {
        invalid(data_mismatch_msg(name, width * height * 4, len))
    } else {
        None
    }
}

/// `a * b` stays within `[0, c * d]` when `0 <= a <= c` and `0 <= b <= d`.
pub proof fn lemma_mul_le(a: int, b: int, c: int, d: int)
    by (nonlinear_arith)
    requires
        0 <= a <= c,
        0 <= b <= d,
    ensures
        0 <= a * b <= c * d,
{
}

pub(crate) fn too_large_error(width: i32, height: i32) -> (e: Error)
    ensures
        e@ == ErrorView::InvalidArgument(too_large_msg(width as int, height as int)),
{
    let mut s = String::from_str("dimensions too large: ");
    push_decimal(&mut s, width as i64);
    s.append("x");
    push_decimal(&mut s, height as i64);
    s.append(" (max ");
    push_decimal(&mut s, MAX_DIMENSION as i64);
    s.append(")");
    Error::invalid_argument_owned(s)
}

fn plane_mismatch_error(plane: &str, expected: u64, got: usize) -> (e: Error)
    ensures
        e@ == ErrorView::InvalidArgument(plane_mismatch_msg(plane@, expected as int, got as int)),
{
    let mut s = String::from_str(plane);
    s.append(" plane size mismatch: expected ");
    push_unsigned(&mut s, expected);
    s.append(", got ");
    push_unsigned(&mut s, got as u64);
    Error::invalid_argument_owned(s)
}

fn data_mismatch_error(name: &str, expected: u64, got: usize) -> (e: Error)
    ensures
        e@ == ErrorView::InvalidArgument(data_mismatch_msg(name@, expected as int, got as int)),
{
    let mut s = String::from_str(name);
    s.append(" data size mismatch: expected ");
    push_unsigned(&mut s, expected);
    s.append(", got ");
    push_unsigned(&mut s, got as u64);
    Error::invalid_argument_owned(s)
}

fn pitch_bound_error(pitch_name: &str, pitch: i32, bound_name: &str, bound: i32) -> (e: Error)
    ensures
        e@ == ErrorView::InvalidArgument(
            pitch_bound_msg(pitch_name@, pitch as int, bound_name@, bound as int),
        ),
{
    let mut s = String::from_str(pitch_name);
    s.append(" (");
    push_decimal(&mut s, pitch as i64);
    s.append(") must be >= ");
    s.append(bound_name);
    s.append(" (");
    push_decimal(&mut s, bound as i64);
    s.append(")");
    Error::invalid_argument_owned(s)
}

/// The common dimension rule shared by every frame check.
pub fn check_dimensions(width: i32, height: i32) -> (r: Result<()>)
    ensures
        outcome(r) == dims_check(width as int, height as int),
{
    if width <= 0 || height <= 0 {
        return Err(Error::invalid_argument("width and height must be positive"));
    }
    if width > MAX_DIMENSION || height > MAX_DIMENSION {
        return Err(too_large_error(width, height));
    }
    Ok(())
}

/// Checks the sizes of an I420 frame: three planes of exactly
/// `width * height`, `(width / 2) * (height / 2)` and `(width / 2) * (height / 2)` bytes.
pub fn validate_i420(y: &[u8], u: &[u8], v: &[u8], width: i32, height: i32) -> (r: Result<()>)
    ensures
        outcome(r) == i420_check(y@.len() as int, u@.len() as int, v@.len() as int, width as int, height as int),
{
    check_dimensions(width, height)?;
    if width % 2 != 0 || height % 2 != 0 {
        return Err(Error::invalid_argument("I420 requires even width and height"));
    }
    let w = width as u64;
    let h = height as u64;
    proof {
        lemma_mul_le(w as int, h as int, MAX_DIMENSION as int, MAX_DIMENSION as int);
        lemma_mul_le(w as int / 2, h as int / 2, MAX_DIMENSION as int, MAX_DIMENSION as int);
    }
    let expected_y = w * h;
    let expected_uv = (w / 2) * (h / 2);
    if y.len() as u64 != expected_y {
        return Err(plane_mismatch_error("Y", expected_y, y.len()));
    }
    if u.len() as u64 != expected_uv {
        return Err(plane_mismatch_error("U", expected_uv, u.len()));
    }
    if v.len() as u64 != expected_uv {
        return Err(plane_mismatch_error("V", expected_uv, v.len()));
    }
    Ok(())
}

/// Checks the sizes of an NV12 frame: a Y plane of exactly `width * height`
/// bytes and an interleaved UV plane of exactly `width * (height / 2)` bytes.
pub fn validate_nv12(y: &[u8], uv: &[u8], width: i32, height: i32) -> (r: Result<()>)
    ensures
        outcome(r) == nv12_check(y@.len() as int, uv@.len() as int, width as int, height as int),
{
    check_dimensions(width, height)?;
    if width % 2 != 0 || height % 2 != 0 {
        return Err(Error::invalid_argument("NV12 requires even width and height"));
    }
    let w = width as u64;
    let h = height as u64;
    proof {
        lemma_mul_le(w as int, h as int, MAX_DIMENSION as int, MAX_DIMENSION as int);
        lemma_mul_le(w as int, h as int / 2, MAX_DIMENSION as int, MAX_DIMENSION as int);
    }
    let expected_y = w * h;
    let expected_uv = w * (h / 2);
    if y.len() as u64 != expected_y {
        return Err(plane_mismatch_error("Y", expected_y, y.len()));
    }
    if uv.len() as u64 != expected_uv {
        return Err(plane_mismatch_error("UV", expected_uv, uv.len()));
    }
    Ok(())
}

/// Checks the sizes of an I420 frame whose rows are `y_pitch` and `uv_pitch`
/// bytes apart: the pitches must cover a row, and the planes must hold exactly
/// `y_pitch * height` and `uv_pitch * (height / 2)` bytes.
pub fn validate_i420_strided(
    y: &[u8],
    u: &[u8],
    v: &[u8],
    width: i32,
    height: i32,
    y_pitch: i32,
    uv_pitch: i32,
) -> (r: Result<()>)
    ensures
        outcome(r) == i420_strided_check(
            y@.len() as int,
            u@.len() as int,
            v@.len() as int,
            width as int,
            height as int,
            y_pitch as int,
            uv_pitch as int,
        ),
{
    check_dimensions(width, height)?;
    if width % 2 != 0 || height % 2 != 0 {
        return Err(Error::invalid_argument("I420 requires even width and height"));
    }
    if y_pitch < width {
        return Err(pitch_bound_error("y_pitch", y_pitch, "width", width));
    }
    if uv_pitch < width / 2 {
        return Err(pitch_bound_error("uv_pitch", uv_pitch, "width/2", width / 2));
    }
    let h = height as u64;
    proof {
        lemma_mul_le(y_pitch as int, h as int, i32::MAX as int, MAX_DIMENSION as int);
        lemma_mul_le(uv_pitch as int, h as int / 2, i32::MAX as int, MAX_DIMENSION as int);
    }
    let expected_y = y_pitch as u64 * h;
    let expected_uv = uv_pitch as u64 * (h / 2);
    if y.len() as u64 != expected_y {
        return Err(plane_mismatch_error("Y", expected_y, y.len()));
    }
    if u.len() as u64 != expected_uv {
        return Err(plane_mismatch_error("U", expected_uv, u.len()));
    }
    if v.len() as u64 != expected_uv {
        return Err(plane_mismatch_error("V", expected_uv, v.len()));
    }
    Ok(())
}

/// Checks the sizes of an NV12 frame whose rows are `y_pitch` and `uv_pitch`
/// bytes apart: both pitches must cover `width` bytes, and the planes must
/// hold exactly `y_pitch * height` and `uv_pitch * (height / 2)` bytes.
pub fn validate_nv12_strided(
    y: &[u8],
    uv: &[u8],
    width: i32,
    height: i32,
    y_pitch: i32,
    uv_pitch: i32,
) -> (r: Result<()>)
    ensures
        outcome(r) == nv12_strided_check(
            y@.len() as int,
            uv@.len() as int,
            width as int,
            height as int,
            y_pitch as int,
            uv_pitch as int,
        ),
{
    check_dimensions(width, height)?;
    if width % 2 != 0 || height % 2 != 0 {
        return Err(Error::invalid_argument("NV12 requires even width and height"));
    }
    if y_pitch < width {
        return Err(pitch_bound_error("y_pitch", y_pitch, "width", width));
    }
    if uv_pitch < width {
        return Err(pitch_bound_error("uv_pitch", uv_pitch, "width", width));
    }
    let h = height as u64;
    proof {
        lemma_mul_le(y_pitch as int, h as int, i32::MAX as int, MAX_DIMENSION as int);
        lemma_mul_le(uv_pitch as int, h as int / 2, i32::MAX as int, MAX_DIMENSION as int);
    }
    let expected_y = y_pitch as u64 * h;
    let expected_uv = uv_pitch as u64 * (h / 2);
    if y.len() as u64 != expected_y {
        return Err(plane_mismatch_error("Y", expected_y, y.len()));
    }
    if uv.len() as u64 != expected_uv {
        return Err(plane_mismatch_error("UV", expected_uv, uv.len()));
    }
    Ok(())
}

/// Checks the size of a YUY2 frame whose rows are `pitch` bytes apart: the
/// width must be even, the pitch must cover `width * 2` bytes, and the data
/// must hold exactly `pitch * height` bytes.
pub fn validate_yuy2_strided(data: &[u8], width: i32, height: i32, pitch: i32) -> (r: Result<()>)
    ensures
        outcome(r) == yuy2_strided_check(data@.len() as int, width as int, height as int, pitch as int),
{
    check_dimensions(width, height)?;
    if width % 2 != 0 {
        return Err(Error::invalid_argument("YUY2 requires even width"));
    }
    if pitch < width * 2 {
        return Err(pitch_bound_error("pitch", pitch, "width*2", width * 2));
    }
    proof {
        lemma_mul_le(pitch as int, height as int, i32::MAX as int, MAX_DIMENSION as int);
    }
    let expected = pitch as u64 * height as u64;
    if data.len() as u64 != expected {
        return Err(data_mismatch_error("YUY2", expected, data.len()));
    }
    Ok(())
}

/// Checks the size of a YUY2 frame: even width and exactly
/// `width * height * 2` bytes.
pub fn validate_yuy2(data: &[u8], width: i32, height: i32) -> (r: Result<()>)
    ensures
        outcome(r) == yuy2_check(data@.len() as int, width as int, height as int),
{
    check_dimensions(width, height)?;
    if width % 2 != 0 {
        return Err(Error::invalid_argument("YUY2 requires even width"));
    }
    proof {
        lemma_mul_le(width as int, height as int, MAX_DIMENSION as int, MAX_DIMENSION as int);
    }
    let expected = width as u64 * height as u64 * 2;
    if data.len() as u64 != expected {
        return Err(data_mismatch_error("YUY2", expected, data.len()));
    }
    Ok(())
}

/// Checks the size of a four-bytes-per-pixel frame: exactly
/// `width * height * 4` bytes; `format_name` names the layout in the message.
fn validate_packed_4bpp(data: &[u8], width: i32, height: i32, format_name: &str) -> (r: Result<()>)
    ensures
        outcome(r) == packed_4bpp_check(data@.len() as int, width as int, height as int, format_name@),
{
    check_dimensions(width, height)?;
    proof {
        lemma_mul_le(width as int, height as int, MAX_DIMENSION as int, MAX_DIMENSION as int);
    }
    let expected = width as u64 * height as u64 * 4;
    if data.len() as u64 != expected {
        return Err(data_mismatch_error(format_name, expected, data.len()));
    }
    Ok(())
}

/// Checks the size of an RGBA frame: exactly `width * height * 4` bytes.
pub fn validate_rgba(data: &[u8], width: i32, height: i32) -> (r: Result<()>)
    ensures
        outcome(r) == packed_4bpp_check(data@.len() as int, width as int, height as int, "RGBA"@),
{
    validate_packed_4bpp(data, width, height, "RGBA")
}

/// Checks the size of a BGRA frame: exactly `width * height * 4` bytes.
pub fn validate_bgra(data: &[u8], width: i32, height: i32) -> (r: Result<()>)
    ensures
        outcome(r) == packed_4bpp_check(data@.len() as int, width as int, height as int, "BGRA"@),
{
    validate_packed_4bpp(data, width, height, "BGRA")
}

/// RGBA and BGRA frames obey the same size rule: a buffer passes one check
/// exactly when it passes the other.
pub proof fn lemma_rgba_bgra_agree(len: int, width: int, height: int)
    ensures
        (packed_4bpp_check(len, width, height, "RGBA"@) is None) <==> (packed_4bpp_check(
            len,
            width,
            height,
            "BGRA"@,
        ) is None),
{
}

/// A frame whose planes have the unpadded sizes of its layout is accepted
/// exactly when its dimensions are positive, at most `MAX_DIMENSION`, and
/// even where the layout subsamples: I420 and NV12 in both directions,
/// YUY2 horizontally.
pub proof fn lemma_exact_sizes_accepted(width: int, height: int)
    ensures
        (i420_check(width * height, (width / 2) * (height / 2), (width / 2) * (height / 2), width, height) is None)
            <==> (dims_check(width, height) is None && even_dims(width, height)),
        (nv12_check(width * height, width * (height / 2), width, height) is None) <==> (dims_check(width, height) is None
            && even_dims(width, height)),
        (yuy2_check(width * height * 2, width, height) is None) <==> (dims_check(width, height) is None && width % 2 == 0),
        (packed_4bpp_check(width * height * 4, width, height, "RGBA"@) is None) <==> dims_check(width, height) is None,
{
}

/// An unstrided frame is the strided frame whose pitches are the row sizes:
/// `validate_i420` and `validate_i420_strided` with `y_pitch = width` and
/// `uv_pitch = width / 2` accept the same planes, as do the NV12 and YUY2 pairs.
pub proof fn lemma_unstrided_is_tight_strided(y: int, u: int, v: int, len: int, width: int, height: int)
    ensures
        (i420_check(y, u, v, width, height) is None) <==> (i420_strided_check(y, u, v, width, height, width, width / 2) is None),
        (nv12_check(y, u, width, height) is None) <==> (nv12_strided_check(y, u, width, height, width, width) is None),
        (yuy2_check(len, width, height) is None) <==> (yuy2_strided_check(len, width, height, width * 2) is None),
{
    assert(width * height * 2 == (width * 2) * height) by (nonlinear_arith);
}

/// Frame validation accepts exactly the frames whose dimensions are
/// positive, at most `MAX_DIMENSION` and even where the layout subsamples,
/// whose pitches cover a row, and whose planes have exactly the sizes their
/// pitches and row counts give (`width` and `width / 2` bytes a row for the
/// unstrided I420 planes, `width` for NV12, `2 * width` for YUY2, `4 * width`
/// for RGBA and BGRA).
pub proof fn lemma_accepted_frames_exact(
    y: int,
    u: int,
    v: int,
    width: int,
    height: int,
    y_pitch: int,
    uv_pitch: int,
    name: Seq<char>,
)
    ensures
        ({
            let dims_ok = 0 < width <= MAX_DIMENSION && 0 < height <= MAX_DIMENSION;
            let even = width % 2 == 0 && height % 2 == 0;
            &&& (i420_check(y, u, v, width, height) is None) <==> (dims_ok && even && y == width
                * height && u == (width / 2) * (height / 2) && v == (width / 2) * (height / 2))
            &&& (nv12_check(y, u, width, height) is None) <==> (dims_ok && even && y == width * height
                && u == width * (height / 2))
            &&& (i420_strided_check(y, u, v, width, height, y_pitch, uv_pitch) is None) <==> (dims_ok
                && even && y_pitch >= width && uv_pitch >= width / 2 && y == y_pitch * height && u
                == uv_pitch * (height / 2) && v == uv_pitch * (height / 2))
            &&& (nv12_strided_check(y, u, width, height, y_pitch, uv_pitch) is None) <==> (dims_ok
                && even && y_pitch >= width && uv_pitch >= width && y == y_pitch * height && u
                == uv_pitch * (height / 2))
            &&& (yuy2_strided_check(y, width, height, y_pitch) is None) <==> (dims_ok && width % 2
                == 0 && y_pitch >= 2 * width && y == y_pitch * height)
            &&& (yuy2_check(y, width, height) is None) <==> (dims_ok && width % 2 == 0 && y == 2
                * width * height)
            &&& (packed_4bpp_check(y, width, height, name) is None) <==> (dims_ok && y == 4 * width
                * height)
        }),
{
    assert(width * height * 2 == 2 * width * height) by (nonlinear_arith);
    assert(width * height * 4 == 4 * width * height) by (nonlinear_arith);
}

} // verus!
