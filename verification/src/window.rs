//! The window a player draws into, as the library tracks it.
use vstd::prelude::*;

use crate::error::{invalid, outcome, Error, ErrorView, Result};
use crate::text::contains_nul;

verus! {

pub open spec fn title_nul_msg() -> Seq<char> {
    "title contains null byte"@
}

/// Outcome of handing `title` to the backend as a window title: it must not
/// hold a NUL character.
pub open spec fn title_check(title: Seq<char>) -> Option<ErrorView> {
    if title.contains('\0') {
        invalid(title_nul_msg())
    } else {
        None
    }
}

/// A window's title and the size it was requested with.
pub struct Window {
    title: String,
    width: i32,
    height: i32,
}

impl Window {
    pub closed spec fn spec_title(&self) -> Seq<char> {
        self.title@
    }

    pub closed spec fn spec_width(&self) -> i32 {
        self.width
    }

    pub closed spec fn spec_height(&self) -> i32 {
        self.height
    }

    /// A window with the given title and requested size; refused when the
    /// title holds a NUL character.
    pub fn new(title: &str, width: i32, height: i32) -> (r: Result<Window>)
        ensures
            outcome(r) == title_check(title@),
            r matches Ok(w) ==> w.spec_title() == title@ && w.spec_width() == width
                && w.spec_height() == height,
    {
        if contains_nul(title) {
            return Err(Error::invalid_argument("title contains null byte"));
        }
        Ok(Window { title: String::from_str(title), width, height })
    }

    /// The current title.
    pub fn title(&self) -> (t: &str)
        ensures
            t@ == self.spec_title(),
    {
        self.title.as_str()
    }

    /// The size the window was last asked to have.
    pub fn requested_size(&self) -> (s: (i32, i32))
        ensures
            s == (self.spec_width(), self.spec_height()),
    {
        (self.width, self.height)
    }

    /// Records a new requested size.
    pub fn set_size(&mut self, width: i32, height: i32)
        ensures
            final(self).spec_width() == width,
            final(self).spec_height() == height,
            final(self).spec_title() == old(self).spec_title(),
    {
        self.width = width;
        self.height = height;
    }

    /// Replaces the title; refused, with the title unchanged, when the new
    /// title holds a NUL character.
    pub fn set_title(&mut self, title: &str) -> (r: Result<()>)
        ensures
            outcome(r) == title_check(title@),
            r is Ok ==> final(self).spec_title() == title@,
            r is Err ==> final(self).spec_title() == old(self).spec_title(),
            final(self).spec_width() == old(self).spec_width(),
            final(self).spec_height() == old(self).spec_height(),
    {
        if contains_nul(title) {
            return Err(Error::invalid_argument("title contains null byte"));
        }
        self.title = String::from_str(title);
        Ok(())
    }
}

} // verus!
