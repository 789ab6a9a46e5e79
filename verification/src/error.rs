//! The library's error type.
use vstd::prelude::*;

verus! {

/// Errors reported by the player and its building blocks.
#[derive(Debug, Clone)]
pub enum Error {
    /// A failure reported by the media backend, with its message.
    Sdl(String),
    /// An argument was rejected before any backend call, with the reason.
    InvalidArgument(String),
    /// Playback is paused, so the data cannot be accepted.
    NotPlaying,
}

/// An error as a mathematical value: its variant and its message.
pub enum ErrorView {
    Sdl(Seq<char>),
    InvalidArgument(Seq<char>),
    NotPlaying,
}

impl View for Error {
    type V = ErrorView;

    open spec fn view(&self) -> ErrorView {
        match self {
            Error::Sdl(m) => ErrorView::Sdl(m@),
            Error::InvalidArgument(m) => ErrorView::InvalidArgument(m@),
            Error::NotPlaying => ErrorView::NotPlaying,
        }
    }
}

/// Result type of the library.
pub type Result<T> = core::result::Result<T, Error>;

/// What a fallible check reports: `None` when it passes, else its error.
pub open spec fn outcome<T>(r: Result<T>) -> Option<ErrorView> {
    match r {
        Ok(_) => None,
        Err(e) => Some(e@),
    }
}

/// An `InvalidArgument` error carrying `msg`.
pub open spec fn invalid(msg: Seq<char>) -> Option<ErrorView> {
    Some(ErrorView::InvalidArgument(msg))
}

/// The message that `Error::message` gives for an error.
pub open spec fn message_of(e: ErrorView) -> Seq<char> {
    match e {
        ErrorView::Sdl(m) => m,
        ErrorView::InvalidArgument(m) => m,
        ErrorView::NotPlaying => "player is not playing"@,
    }
}

/// The text of an error as the `Display` form writes it.
pub open spec fn display_of(e: ErrorView) -> Seq<char> {
    match e {
        ErrorView::Sdl(m) => "SDL error: "@ + m,
        ErrorView::InvalidArgument(m) => "Invalid argument: "@ + m,
        ErrorView::NotPlaying => "Player is not playing"@,
    }
}

impl Error {
    /// An `InvalidArgument` error with the given message.
    pub fn invalid_argument(msg: &str) -> (e: Error)
        ensures
            e@ == ErrorView::InvalidArgument(msg@),
    {
        Error::InvalidArgument(String::from_str(msg))
    }

    /// A backend error carrying the backend's last error message, or a
    /// generic message when the backend gave none.
    pub fn from_sdl_message(msg: Option<&str>) -> (e: Error)
        ensures
            e@ == ErrorView::Sdl(
                match msg {
                    Some(m) => m@,
                    None => "Unknown SDL error"@,
                },
            ),
    {
        match msg {
            Some(m) => Error::Sdl(String::from_str(m)),
            None => Error::Sdl(String::from_str("Unknown SDL error")),
        }
    }

    /// An `InvalidArgument` error that takes ownership of its message.
    pub fn invalid_argument_owned(msg: String) -> (e: Error)
        ensures
            e@ == ErrorView::InvalidArgument(msg@),
    {
        Error::InvalidArgument(msg)
    }

    /// The error's message, without the variant prefix.
    pub fn message(&self) -> (m: &str)
        ensures
            m@ == message_of(self@),
    {
        match self {
            Error::Sdl(msg) => msg.as_str(),
            Error::InvalidArgument(msg) => msg.as_str(),
            Error::NotPlaying => "player is not playing",
        }
    }

    /// The error as its `Display` form writes it: the message behind a
    /// prefix that names the variant.
    pub fn display_string(&self) -> (s: String)
        ensures
            s@ == display_of(self@),
    {
        match self {
            Error::Sdl(msg) => {
                let mut s = String::from_str("SDL error: ");
                s.append(msg.as_str());
                s
            },
            Error::InvalidArgument(msg) => {
                let mut s = String::from_str("Invalid argument: ");
                s.append(msg.as_str());
                s
            },
            Error::NotPlaying => String::from_str("Player is not playing"),
        }
    }
}

} // verus!
