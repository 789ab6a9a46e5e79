use raw_player::{
    validate_bgra, validate_i420, validate_i420_strided, validate_nv12, validate_nv12_strided,
    validate_rgba, validate_yuy2, validate_yuy2_strided, Error,
};

const EVEN_DIMS: [i32; 5] = [2, 4, 16, 640, 1024];
const POSITIVE_DIMS: [i32; 6] = [1, 3, 7, 16, 641, 1024];

fn invalid_message(r: Result<(), Error>) -> String {
    match r {
        Err(Error::InvalidArgument(m)) => m,
        other => panic!("expected InvalidArgument, got {:?}", other),
    }
}

#[test]
fn valid_i420_accepts_correct_size() {
    for w in EVEN_DIMS {
        for h in EVEN_DIMS {
            let y = vec![0u8; (w * h) as usize];
            let uv_size = ((w / 2) * (h / 2)) as usize;
            let u = vec![0u8; uv_size];
            let v = vec![0u8; uv_size];
            assert!(validate_i420(&y, &u, &v, w, h).is_ok());
        }
    }
}

#[test]
fn i420_rejects_odd_sizes_and_wrong_planes() {
    for h in EVEN_DIMS {
        let y = vec![0u8; (3 * h) as usize];
        assert!(validate_i420(&y, &[0], &[0], 3, h).is_err());
        let y = vec![0u8; (h * 3) as usize];
        assert!(validate_i420(&y, &[0], &[0], h, 3).is_err());
    }
    for w in EVEN_DIMS {
        for h in EVEN_DIMS {
            let y = vec![0u8; (w * h) as usize + 1];
            let uv_size = ((w / 2) * (h / 2)) as usize;
            let u = vec![0u8; uv_size];
            let v = vec![0u8; uv_size];
            assert!(validate_i420(&y, &u, &v, w, h).is_err());
        }
    }
}

#[test]
fn nv12_sizes() {
    for w in EVEN_DIMS {
        for h in EVEN_DIMS {
            let y = vec![0u8; (w * h) as usize];
            let uv = vec![0u8; (w * (h / 2)) as usize];
            assert!(validate_nv12(&y, &uv, w, h).is_ok());
            let uv_long = vec![0u8; (w * (h / 2)) as usize + 1];
            assert!(validate_nv12(&y, &uv_long, w, h).is_err());
        }
        let y = vec![0u8; (w * 5) as usize];
        assert!(validate_nv12(&y, &[0], w, 5).is_err());
    }
}

#[test]
fn yuy2_sizes() {
    for w in EVEN_DIMS {
        for h in POSITIVE_DIMS {
            let data = vec![0u8; (w * h * 2) as usize];
            assert!(validate_yuy2(&data, w, h).is_ok());
            let longer = vec![0u8; (w * h * 2) as usize + 1];
            assert!(validate_yuy2(&longer, w, h).is_err());
        }
    }
    for h in POSITIVE_DIMS {
        let data = vec![0u8; (3 * h * 2) as usize];
        assert!(validate_yuy2(&data, 3, h).is_err());
    }
}

#[test]
fn bgra_and_rgba_agree() {
    for w in POSITIVE_DIMS {
        for h in POSITIVE_DIMS {
            let correct = vec![0u8; (w * h * 4) as usize];
            let wrong = vec![0u8; (w * h * 4) as usize + 1];
            assert!(validate_rgba(&correct, w, h).is_ok());
            assert!(validate_bgra(&correct, w, h).is_ok());
            assert!(validate_rgba(&wrong, w, h).is_err());
            assert!(validate_bgra(&wrong, w, h).is_err());
        }
    }
}

#[test]
fn all_validators_reject_zero_and_negative_dimensions() {
    for len in [0usize, 1, 16, 255] {
        let data = vec![7u8; len];
        assert!(validate_i420(&data, &data, &data, 0, 4).is_err());
        assert!(validate_i420(&data, &data, &data, 4, 0).is_err());
        assert!(validate_nv12(&data, &data, 0, 4).is_err());
        assert!(validate_nv12(&data, &data, 4, 0).is_err());
        assert!(validate_yuy2(&data, 0, 4).is_err());
        assert!(validate_yuy2(&data, 4, 0).is_err());
        assert!(validate_rgba(&data, 0, 4).is_err());
        assert!(validate_rgba(&data, 4, 0).is_err());
        assert!(validate_i420(&data, &data, &data, -2, 4).is_err());
        assert!(validate_nv12(&data, &data, -2, 4).is_err());
        assert!(validate_yuy2(&data, -2, 4).is_err());
        assert!(validate_rgba(&data, -2, 4).is_err());
        assert!(validate_bgra(&data, -2, 4).is_err());
    }
}

#[test]
fn validation_messages() {
    assert_eq!(
        invalid_message(validate_i420(&[0; 15], &[0; 4], &[0; 4], 4, 4)),
        "Y plane size mismatch: expected 16, got 15"
    );
    assert_eq!(
        invalid_message(validate_i420(&[0; 16], &[0; 4], &[0; 3], 4, 4)),
        "V plane size mismatch: expected 4, got 3"
    );
    assert_eq!(
        invalid_message(validate_i420(&[0; 16], &[0; 4], &[0; 4], 3, 4)),
        "I420 requires even width and height"
    );
    assert_eq!(
        invalid_message(validate_nv12(&[0; 16], &[0; 7], 4, 4)),
        "UV plane size mismatch: expected 8, got 7"
    );
    assert_eq!(
        invalid_message(validate_yuy2(&[0; 8], 3, 1)),
        "YUY2 requires even width"
    );
    assert_eq!(
        invalid_message(validate_yuy2(&[0; 7], 2, 2)),
        "YUY2 data size mismatch: expected 8, got 7"
    );
    assert_eq!(
        invalid_message(validate_rgba(&[0; 3], 1, 1)),
        "RGBA data size mismatch: expected 4, got 3"
    );
    assert_eq!(
        invalid_message(validate_bgra(&[0; 5], 1, 1)),
        "BGRA data size mismatch: expected 4, got 5"
    );
    assert_eq!(
        invalid_message(validate_rgba(&[], 0, 1)),
        "width and height must be positive"
    );
    assert_eq!(
        invalid_message(validate_rgba(&[], 536_870_912, 1)),
        "dimensions too large: 536870912x1 (max 536870911)"
    );
}

#[test]
fn strided_validators() {
    // 4x4 I420 with padded rows.
    assert!(validate_i420_strided(&[0; 32], &[0; 8], &[0; 8], 4, 4, 8, 4).is_ok());
    assert_eq!(
        invalid_message(validate_i420_strided(&[0; 32], &[0; 8], &[0; 8], 4, 4, 3, 4)),
        "y_pitch (3) must be >= width (4)"
    );
    assert_eq!(
        invalid_message(validate_i420_strided(&[0; 32], &[0; 8], &[0; 8], 4, 4, 8, 1)),
        "uv_pitch (1) must be >= width/2 (2)"
    );
    assert_eq!(
        invalid_message(validate_i420_strided(&[0; 31], &[0; 8], &[0; 8], 4, 4, 8, 4)),
        "Y plane size mismatch: expected 32, got 31"
    );
    assert!(validate_nv12_strided(&[0; 24], &[0; 12], 4, 4, 6, 6).is_ok());
    assert_eq!(
        invalid_message(validate_nv12_strided(&[0; 24], &[0; 12], 4, 4, 6, 3)),
        "uv_pitch (3) must be >= width (4)"
    );
    assert_eq!(
        invalid_message(validate_nv12_strided(&[0; 24], &[0; 11], 4, 4, 6, 6)),
        "UV plane size mismatch: expected 12, got 11"
    );
    assert!(validate_yuy2_strided(&[0; 20], 4, 2, 10).is_ok());
    assert_eq!(
        invalid_message(validate_yuy2_strided(&[0; 20], 4, 2, 7)),
        "pitch (7) must be >= width*2 (8)"
    );
    assert_eq!(
        invalid_message(validate_yuy2_strided(&[0; 19], 4, 2, 10)),
        "YUY2 data size mismatch: expected 20, got 19"
    );
    // Tight strides behave as the plain validators.
    assert_eq!(
        validate_i420_strided(&[0; 16], &[0; 4], &[0; 4], 4, 4, 4, 2).is_ok(),
        validate_i420(&[0; 16], &[0; 4], &[0; 4], 4, 4).is_ok()
    );
}
