use raw_player::Error;

#[test]
fn error_is_std_error() {
    let err = Error::Sdl("test".to_string());
    assert_eq!(err.display_string(), "SDL error: test");
}

#[test]
fn error_display_forms() {
    assert_eq!(
        Error::invalid_argument("bad").display_string(),
        "Invalid argument: bad"
    );
    assert_eq!(Error::NotPlaying.display_string(), "Player is not playing");
}

#[test]
fn error_messages() {
    assert_eq!(Error::Sdl("x".to_string()).message(), "x");
    assert_eq!(Error::invalid_argument("y").message(), "y");
    assert_eq!(Error::NotPlaying.message(), "player is not playing");
    assert_eq!(
        Error::invalid_argument_owned("owned".to_string()).message(),
        "owned"
    );
}

#[test]
fn backend_errors() {
    assert_eq!(Error::from_sdl_message(Some("boom")).display_string(), "SDL error: boom");
    assert_eq!(Error::from_sdl_message(None).message(), "Unknown SDL error");
}
