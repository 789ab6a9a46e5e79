use raw_player::{Error, Renderer, Texture, VideoFormat, Window};

/// Upper bound on a dimension, so that `width * 4` fits in `i32`.
const MAX_DIMENSION: i32 = i32::MAX / 4;

fn assert_invalid_argument(err: Error) {
    match err {
        Error::InvalidArgument(_) => {}
        other => panic!("expected InvalidArgument, got: {}", other.display_string()),
    }
}

fn assert_invalid_argument_message(err: Error, expected: &str) {
    match &err {
        Error::InvalidArgument(_) => {
            assert_eq!(err.message(), expected, "InvalidArgument message differs");
        }
        other => panic!("expected InvalidArgument, got: {}", other.display_string()),
    }
}

#[test]
fn texture_new_and_update_contracts() {
    let window = Window::new("texture-test", 64, 64).expect("Window::new failed");
    let renderer = Renderer::new(&window).expect("Renderer::new failed");

    // --- dimension checks of Texture::new / new_yuv ---
    for (w, h) in [(0, 1), (1, 0), (-1, 16), (16, -1), (0, 0), (i32::MIN, 16)] {
        let Err(err) = Texture::new(&renderer, VideoFormat::Rgba, w, h) else {
            panic!("non-positive dimensions must be Err: {w}x{h}");
        };
        assert_invalid_argument_message(err, "width and height must be positive");
    }
    let Err(err) = Texture::new_yuv(&renderer, 0, 16) else {
        panic!("new_yuv with a non-positive dimension must be Err");
    };
    assert_invalid_argument_message(err, "width and height must be positive");

    let too_wide = MAX_DIMENSION + 1;
    let Err(err) = Texture::new(&renderer, VideoFormat::Rgba, too_wide, 16) else {
        panic!("too wide must be Err");
    };
    assert_invalid_argument_message(
        err,
        &format!("dimensions too large: {too_wide}x16 (max {MAX_DIMENSION})"),
    );
    let Err(err) = Texture::new(&renderer, VideoFormat::Rgba, 16, too_wide) else {
        panic!("too high must be Err");
    };
    assert_invalid_argument_message(
        err,
        &format!("dimensions too large: 16x{too_wide} (max {MAX_DIMENSION})"),
    );

    let Ok(rgba) = Texture::new(&renderer, VideoFormat::Rgba, 16, 16) else {
        panic!("RGBA 16x16");
    };
    assert_eq!(rgba.width(), 16);
    assert_eq!(rgba.height(), 16);
    assert_eq!(rgba.format(), VideoFormat::Rgba);

    let Ok(i420_ok) = Texture::new(&renderer, VideoFormat::I420, 16, 16) else {
        panic!("I420 16x16");
    };
    assert_eq!(i420_ok.width(), 16);
    assert_eq!(i420_ok.height(), 16);
    assert_eq!(i420_ok.format(), VideoFormat::I420);

    let Ok(yuv) = Texture::new_yuv(&renderer, 16, 16) else {
        panic!("new_yuv 16x16");
    };
    assert_eq!(yuv.width(), 16);
    assert_eq!(yuv.height(), 16);
    assert_eq!(yuv.format(), VideoFormat::I420);

    // --- update_yuv: short / exact / longer planes ---
    {
        let Ok(mut tex) = Texture::new(&renderer, VideoFormat::I420, 16, 16) else {
            panic!("Texture::new");
        };
        let y_pitch = 16;
        let uv_pitch = 8;
        let y_min = (y_pitch * 16) as usize;
        let uv_min = (uv_pitch * 8) as usize;

        let y_short = vec![0u8; y_min - 1];
        let u = vec![128u8; uv_min];
        let v = vec![128u8; uv_min];
        assert_invalid_argument(
            tex.update_yuv(&y_short, y_pitch, &u, uv_pitch, &v, uv_pitch)
                .expect_err("short Y is Err"),
        );

        let y = vec![0u8; y_min];
        tex.update_yuv(&y, y_pitch, &u, uv_pitch, &v, uv_pitch)
            .expect("exact minimum is Ok");

        let y_extra = vec![0u8; y_min + 8];
        let u_extra = vec![128u8; uv_min + 4];
        let v_extra = vec![128u8; uv_min + 4];
        tex.update_yuv(&y_extra, y_pitch, &u_extra, uv_pitch, &v_extra, uv_pitch)
            .expect("longer planes are Ok");
    }

    // --- update_nv12 ---
    {
        let Ok(mut tex) = Texture::new(&renderer, VideoFormat::NV12, 16, 16) else {
            panic!("Texture::new");
        };
        let y_pitch = 16;
        let uv_pitch = 16;
        let y_min = (y_pitch * 16) as usize;
        let uv_min = (uv_pitch * 8) as usize;

        let y = vec![0u8; y_min];
        let uv_short = vec![0u8; uv_min - 1];
        assert_invalid_argument(
            tex.update_nv12(&y, y_pitch, &uv_short, uv_pitch)
                .expect_err("short UV is Err"),
        );

        let uv = vec![0u8; uv_min];
        tex.update_nv12(&y, y_pitch, &uv, uv_pitch)
            .expect("exact minimum is Ok");

        let y_extra = vec![0u8; y_min + 16];
        let uv_extra = vec![0u8; uv_min + 8];
        tex.update_nv12(&y_extra, y_pitch, &uv_extra, uv_pitch)
            .expect("longer planes are Ok");
    }

    // --- update_packed (YUY2) ---
    {
        let Ok(mut tex) = Texture::new(&renderer, VideoFormat::YUY2, 16, 8) else {
            panic!("Texture::new");
        };
        let pitch = 32; // width * 2
        let min_len = (pitch * 8) as usize;

        let short = vec![0u8; min_len - 1];
        assert_invalid_argument(tex.update_packed(&short, pitch).expect_err("short is Err"));

        let exact = vec![0u8; min_len];
        tex.update_packed(&exact, pitch).expect("exact minimum is Ok");

        let extra = vec![0u8; min_len + 32];
        tex.update_packed(&extra, pitch).expect("longer data is Ok");
    }

    // --- negative / too small pitches ---
    {
        let Ok(mut i420) = Texture::new(&renderer, VideoFormat::I420, 16, 16) else {
            panic!("I420");
        };
        let y = vec![0u8; 16 * 16];
        let u = vec![128u8; 8 * 8];
        let v = vec![128u8; 8 * 8];
        assert_invalid_argument(
            i420.update_yuv(&y, -1, &u, 8, &v, 8)
                .expect_err("negative y_pitch is Err"),
        );
        assert_invalid_argument(
            i420.update_yuv(&y, 16, &u, 7, &v, 8)
                .expect_err("too small u_pitch is Err"),
        );

        let Ok(mut nv12) = Texture::new(&renderer, VideoFormat::NV12, 16, 16) else {
            panic!("NV12");
        };
        let uv = vec![0u8; 16 * 8];
        assert_invalid_argument(
            nv12.update_nv12(&y, 16, &uv, 15)
                .expect_err("too small uv_pitch is Err"),
        );

        let Ok(mut yuy2) = Texture::new(&renderer, VideoFormat::YUY2, 16, 8) else {
            panic!("YUY2");
        };
        let packed = vec![0u8; 32 * 8];
        assert_invalid_argument(
            yuy2.update_packed(&packed, 31)
                .expect_err("too small pitch is Err"),
        );
    }

    // --- format mismatch ---
    {
        let Ok(mut i420) = Texture::new(&renderer, VideoFormat::I420, 16, 16) else {
            panic!("I420");
        };
        let y = vec![0u8; 16 * 16];
        let uv = vec![0u8; 16 * 8];
        let packed = vec![0u8; 32 * 16];
        let u = vec![128u8; 8 * 8];
        let v = vec![128u8; 8 * 8];
        assert_invalid_argument(
            i420.update_nv12(&y, 16, &uv, 16)
                .expect_err("update_nv12 on I420 is Err"),
        );
        assert_invalid_argument(
            i420.update_packed(&packed, 32)
                .expect_err("update_packed on I420 is Err"),
        );

        let Ok(mut nv12) = Texture::new(&renderer, VideoFormat::NV12, 16, 16) else {
            panic!("NV12");
        };
        assert_invalid_argument(
            nv12.update_yuv(&y, 16, &u, 8, &v, 8)
                .expect_err("update_yuv on NV12 is Err"),
        );
        assert_invalid_argument(
            nv12.update_packed(&packed, 32)
                .expect_err("update_packed on NV12 is Err"),
        );

        let Ok(mut yuy2) = Texture::new(&renderer, VideoFormat::YUY2, 16, 8) else {
            panic!("YUY2");
        };
        assert_invalid_argument(
            yuy2.update_yuv(&y, 16, &u, 8, &v, 8)
                .expect_err("update_yuv on YUY2 is Err"),
        );
    }

    // --- odd sizes can be created but are refused at upload ---
    {
        let Ok(mut tex) = Texture::new(&renderer, VideoFormat::I420, 15, 16) else {
            panic!("odd-width I420");
        };
        let y = vec![0u8; 15 * 16];
        let u = vec![128u8; 8 * 8];
        let v = vec![128u8; 8 * 8];
        assert_invalid_argument(
            tex.update_yuv(&y, 15, &u, 7, &v, 7)
                .expect_err("update_yuv on odd-width I420 is Err"),
        );

        let Ok(mut tex) = Texture::new(&renderer, VideoFormat::NV12, 16, 15) else {
            panic!("odd-height NV12");
        };
        let y = vec![0u8; 16 * 15];
        let uv = vec![0u8; 16 * 7];
        assert_invalid_argument(
            tex.update_nv12(&y, 16, &uv, 16)
                .expect_err("update_nv12 on odd-height NV12 is Err"),
        );
    }

    // --- RGBA packed minimum length ---
    {
        let Ok(mut tex) = Texture::new(&renderer, VideoFormat::Rgba, 8, 4) else {
            panic!("RGBA");
        };
        let pitch = 32; // width * 4
        let min_len = (pitch * 4) as usize;
        assert_invalid_argument(
            tex.update_packed(&vec![0u8; min_len - 1], pitch)
                .expect_err("short RGBA is Err"),
        );
        tex.update_packed(&vec![0u8; min_len], pitch)
            .expect("RGBA exact minimum is Ok");
    }
}

#[test]
fn texture_update_messages() {
    let window = Window::new("messages", 32, 32).expect("Window::new failed");
    let renderer = Renderer::new(&window).expect("Renderer::new failed");
    let Ok(mut tex) = Texture::new(&renderer, VideoFormat::I420, 16, 16) else {
        panic!("I420");
    };
    let y = vec![0u8; 16 * 16];
    let u = vec![0u8; 8 * 8];
    let v = vec![0u8; 8 * 8];
    let e = tex.update_yuv(&y[..255], 16, &u, 8, &v, 8).unwrap_err();
    assert_eq!(e.message(), "Y plane too short: 255 < 256");
    let e = tex.update_yuv(&y, 16, &u, 7, &v, 8).unwrap_err();
    assert_eq!(e.message(), "u_pitch too small: 7 < 8");
    let e = tex.update_yuv(&y, 0, &u, 8, &v, 8).unwrap_err();
    assert_eq!(e.message(), "y_pitch must be positive: 0");
    let e = tex.update_packed(&y, 64).unwrap_err();
    assert_eq!(e.message(), "update_packed requires YUY2, RGBA, or BGRA texture format");
    let e = tex.update_nv12(&y, 16, &u, 16).unwrap_err();
    assert_eq!(e.message(), "update_nv12 requires NV12 texture format");
}
