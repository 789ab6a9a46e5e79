use raw_player::event::{
    SDL_EVENT_KEY_DOWN, SDL_EVENT_KEY_UP, SDL_EVENT_QUIT, SDL_EVENT_WINDOW_CLOSE_REQUESTED,
    SDL_EVENT_WINDOW_RESIZED,
};
use raw_player::renderer::Renderer;
use raw_player::{AudioFormat, Event, VideoFormat, Window, BLENDMODE_BLEND, DEBUG_TEXT_FONT_CHARACTER_SIZE};

#[test]
fn video_format_names_and_codes() {
    assert_eq!(VideoFormat::I420.name(), "I420");
    assert_eq!(VideoFormat::NV12.name(), "NV12");
    assert_eq!(VideoFormat::YUY2.name(), "YUY2");
    assert_eq!(VideoFormat::Rgba.name(), "RGBA");
    assert_eq!(VideoFormat::Bgra.name(), "BGRA");
    assert_eq!(VideoFormat::I420.to_sdl_pixel_format(), 0x56555949);
    assert_eq!(VideoFormat::NV12.to_sdl_pixel_format(), 0x3231564e);
    assert_eq!(VideoFormat::YUY2.to_sdl_pixel_format(), 0x32595559);
    assert_eq!(VideoFormat::Rgba.to_sdl_pixel_format(), 0x16462004);
    assert_eq!(VideoFormat::Bgra.to_sdl_pixel_format(), 0x16362004);
}

#[test]
fn audio_format_codes() {
    assert_eq!(AudioFormat::S16.to_sdl(), 0x8010);
    assert_eq!(AudioFormat::F32.to_sdl(), 0x8120);
}

#[test]
fn constants() {
    assert_eq!(BLENDMODE_BLEND, 1);
    assert_eq!(DEBUG_TEXT_FONT_CHARACTER_SIZE, 8);
}

#[test]
fn events_decode() {
    assert_eq!(Event::decode(SDL_EVENT_QUIT, 0, 0, 0), Event::Quit);
    assert_eq!(
        Event::decode(SDL_EVENT_KEY_DOWN, 0x73, 0, 0),
        Event::KeyDown { keycode: 0x73 }
    );
    assert_eq!(
        Event::decode(SDL_EVENT_KEY_UP, 0x1b, 0, 0),
        Event::KeyUp { keycode: 0x1b }
    );
    assert_eq!(
        Event::decode(SDL_EVENT_WINDOW_RESIZED, 0, 640, 480),
        Event::WindowResized { width: 640, height: 480 }
    );
    assert_eq!(
        Event::decode(SDL_EVENT_WINDOW_CLOSE_REQUESTED, 0, 0, 0),
        Event::WindowClose
    );
    assert_eq!(Event::decode(0x400, 0, 0, 0), Event::Other);
}

#[test]
fn window_model() {
    let mut w = Window::new("title", 640, 480).unwrap();
    assert_eq!(w.title(), "title");
    assert_eq!(w.requested_size(), (640, 480));
    w.set_size(320, 240);
    assert_eq!(w.requested_size(), (320, 240));
    assert!(w.set_title("a\0b").is_err());
    assert_eq!(w.title(), "title");
    w.set_title("next").unwrap();
    assert_eq!(w.title(), "next");
    let e = Window::new("x\0", 1, 1).err().unwrap();
    assert_eq!(e.message(), "title contains null byte");
}

#[test]
fn renderer_backends() {
    let w = Window::new("r", 10, 10).unwrap();
    let r = Renderer::new(&w).unwrap();
    assert_eq!(r.requested_backend(), None);
    let r = Renderer::new_with_name(&w, "opengl").unwrap();
    assert_eq!(r.requested_backend(), Some("opengl"));
    let e = Renderer::new_with_name(&w, "gl\0").err().unwrap();
    assert_eq!(e.message(), "name contains null byte");
    assert!(Renderer::check_debug_text("fps").is_ok());
    assert_eq!(
        Renderer::check_debug_text("a\0").unwrap_err().message(),
        "text contains null byte"
    );
}

#[test]
fn gpu_renderer_falls_back() {
    let w = Window::new("g", 10, 10).unwrap();
    let all = vec!["opengl".to_string(), "vulkan".to_string(), "gpu".to_string()];
    let r = Renderer::new_gpu(&w, "linux", &all).unwrap();
    assert_eq!(r.requested_backend(), Some("gpu"));
    let no_gpu = vec!["opengl".to_string(), "vulkan".to_string(), "metal".to_string()];
    let r = Renderer::new_gpu(&w, "linux", &no_gpu).unwrap();
    assert_eq!(r.requested_backend(), Some("vulkan"));
    let r = Renderer::new_gpu(&w, "macos", &no_gpu).unwrap();
    assert_eq!(r.requested_backend(), Some("metal"));
    let r = Renderer::new_gpu(&w, "windows", &no_gpu).unwrap();
    assert_eq!(r.requested_backend(), None);
    let r = Renderer::new_gpu(&w, "linux", &vec!["opengl".to_string()]).unwrap();
    assert_eq!(r.requested_backend(), None);
}
