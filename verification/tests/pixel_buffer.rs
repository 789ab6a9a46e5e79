use raw_player::pixel_buffer::{
    check_i420_planes, check_nv12_planes, plane_stride, validate_pixel_buffer_frame,
};
use raw_player::{plane_buffer_len, Error, VideoFormat};

fn invalid_message(r: Result<impl std::fmt::Debug, Error>) -> String {
    match r {
        Err(Error::InvalidArgument(m)) => m,
        other => panic!("expected InvalidArgument, got {:?}", other),
    }
}

#[test]
fn plane_buffer_len_ok() {
    assert_eq!(plane_buffer_len(640, 480).unwrap(), 640 * 480);
}

#[test]
fn plane_buffer_len_overflow_is_err() {
    assert!(plane_buffer_len(usize::MAX, 2).is_err());
}

#[test]
fn plane_buffer_len_overflow_message() {
    assert_eq!(
        invalid_message(plane_buffer_len(usize::MAX, 2)),
        "CVPixelBuffer plane byte length overflow (stride * height)"
    );
    assert_eq!(plane_buffer_len(0, usize::MAX).unwrap(), 0);
    assert_eq!(plane_buffer_len(usize::MAX, 1).unwrap(), usize::MAX);
}

#[test]
fn plane_stride_limits() {
    assert_eq!(plane_stride(0).unwrap(), 0);
    assert_eq!(plane_stride(2147483647).unwrap(), i32::MAX);
    assert_eq!(
        invalid_message(plane_stride(2147483648)),
        "CVPixelBuffer plane stride 2147483648 exceeds i32::MAX"
    );
}

#[test]
fn pixel_buffer_frame_checks() {
    assert!(validate_pixel_buffer_frame(VideoFormat::I420, 16, 16).is_ok());
    assert!(validate_pixel_buffer_frame(VideoFormat::NV12, 2, 4).is_ok());
    assert_eq!(
        invalid_message(validate_pixel_buffer_frame(VideoFormat::Rgba, 16, 16)),
        "PixelBuffer does not support format: RGBA"
    );
    assert_eq!(
        invalid_message(validate_pixel_buffer_frame(VideoFormat::YUY2, 16, 16)),
        "PixelBuffer does not support format: YUY2"
    );
    assert_eq!(
        invalid_message(validate_pixel_buffer_frame(VideoFormat::I420, 15, 16)),
        "I420 requires even width and height"
    );
    assert_eq!(
        invalid_message(validate_pixel_buffer_frame(VideoFormat::NV12, 16, 15)),
        "NV12 requires even width and height"
    );
    assert_eq!(
        invalid_message(validate_pixel_buffer_frame(VideoFormat::NV12, 0, 16)),
        "width and height must be positive"
    );
}

#[test]
fn nv12_planes_checked_at_render() {
    assert_eq!(check_nv12_planes(16, 16, 16, 8, 16, 16).unwrap(), (16, 16));
    assert_eq!(check_nv12_planes(15, 15, 15, 8, 32, 32).unwrap(), (32, 32));
    assert_eq!(
        invalid_message(check_nv12_planes(16, 16, 15, 8, 16, 16)),
        "NV12 PixelBuffer plane height insufficient: Y=15, UV=8, required Y>=16, UV>=8"
    );
    assert_eq!(
        invalid_message(check_nv12_planes(16, 16, 16, 8, 16, 8)),
        "NV12 PixelBuffer stride insufficient: Y=16, UV=8, required >= 16"
    );
    assert_eq!(
        invalid_message(check_nv12_planes(16, 16, 16, 8, 3_000_000_000, 16)),
        "CVPixelBuffer plane stride 3000000000 exceeds i32::MAX"
    );
}

#[test]
fn i420_planes_checked_at_render() {
    assert_eq!(check_i420_planes(16, 16, 16, 8, 8, 16, 8, 8).unwrap(), (16, 8, 8));
    // The V plane keeps its own stride.
    assert_eq!(check_i420_planes(16, 16, 16, 8, 8, 16, 8, 12).unwrap(), (16, 8, 12));
    assert_eq!(
        invalid_message(check_i420_planes(16, 16, 16, 8, 8, 16, 8, 7)),
        "I420 PixelBuffer stride insufficient: Y=16, U=8, V=7, required Y>=16, UV>=8"
    );
    assert_eq!(
        invalid_message(check_i420_planes(16, 16, 16, 8, 7, 16, 8, 8)),
        "I420 PixelBuffer plane height insufficient: Y=16, U=8, V=7, required Y>=16, UV>=8"
    );
    assert_eq!(check_i420_planes(15, 15, 15, 8, 8, 15, 8, 8).unwrap(), (15, 8, 8));
}
