//! Input and window events.
use vstd::prelude::*;

verus! {

/// An input or window event.
#[derive(Debug, Clone, Copy, PartialEq, Eq, Structural)]
pub enum Event {
    /// The application was asked to quit.
    Quit,
    /// A key was pressed.
    KeyDown { keycode: u32 },
    /// A key was released.
    KeyUp { keycode: u32 },
    /// The window was resized to the given size.
    WindowResized { width: i32, height: i32 },
    /// The window's close button was pressed.
    WindowClose,
    /// Any other event.
    Other,
}

/// Keycode of the Escape key.
pub const KEYCODE_ESCAPE: u32 = 0x1b;

/// Keycode of the S key.
pub const KEYCODE_S: u32 = 0x73;

/// The backend's event type codes.
pub const SDL_EVENT_QUIT: u32 = 0x100;

pub const SDL_EVENT_KEY_DOWN: u32 = 0x300;

pub const SDL_EVENT_KEY_UP: u32 = 0x301;

pub const SDL_EVENT_WINDOW_RESIZED: u32 = 0x206;

pub const SDL_EVENT_WINDOW_CLOSE_REQUESTED: u32 = 0x210;

/// The event that a raw backend event denotes, given its type code, its key
/// code (meaningful for key events) and its two data words (the new size,
/// for a resize).
pub open spec fn decoded_event(event_type: u32, keycode: u32, data1: i32, data2: i32) -> Event {
    if event_type == SDL_EVENT_QUIT {
        Event::Quit
    } else if event_type == SDL_EVENT_KEY_DOWN {
        Event::KeyDown { keycode }
    } else if event_type == SDL_EVENT_KEY_UP {
        Event::KeyUp { keycode }
    } else if event_type == SDL_EVENT_WINDOW_RESIZED {
        Event::WindowResized { width: data1, height: data2 }
    } else if event_type == SDL_EVENT_WINDOW_CLOSE_REQUESTED {
        Event::WindowClose
    } else {
        Event::Other
    }
}

impl Event {
    /// Decodes a raw backend event.
    pub fn decode(event_type: u32, keycode: u32, data1: i32, data2: i32) -> (e: Event)
        ensures
            e == decoded_event(event_type, keycode, data1, data2),
    {
        if event_type == SDL_EVENT_QUIT {
            Event::Quit
        } else if event_type == SDL_EVENT_KEY_DOWN {
            Event::KeyDown { keycode }
        } else if event_type == SDL_EVENT_KEY_UP {
            Event::KeyUp { keycode }
        } else if event_type == SDL_EVENT_WINDOW_RESIZED {
            Event::WindowResized { width: data1, height: data2 }
        } else if event_type == SDL_EVENT_WINDOW_CLOSE_REQUESTED {
            Event::WindowClose
        } else {
            Event::Other
        }
    }
}

} // verus!
