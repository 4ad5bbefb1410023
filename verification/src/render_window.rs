//! Configuration of a render window.
//!
//! Opening the window and drawing into it is native work; the library
//! states exactly the window's requested size and title, and counts the
//! render passes that were requested.

use vstd::prelude::*;

verus! {

/// Requested state of a render window.
pub struct RenderWindow {
    width: i32,
    height: i32,
    window_name: String,
    render_count: u64,
}

impl RenderWindow {
    /// Requested width in pixels.
    pub closed spec fn width(&self) -> i32 {
        self.width
    }

    /// Requested height in pixels.
    pub closed spec fn height(&self) -> i32 {
        self.height
    }

    /// The window title.
    pub closed spec fn window_name_view(&self) -> Seq<char> {
        self.window_name@
    }

    /// How many render passes have been requested.
    pub closed spec fn render_count(&self) -> u64 {
        self.render_count
    }

    /// Initial configuration: 300 by 300 pixels, an empty title, and no
    /// render requested yet.
    pub fn new() -> (window: Self)
        ensures
            window.width() == 300,
            window.height() == 300,
            window.window_name_view() == Seq::<char>::empty(),
            window.render_count() == 0,
    {
        RenderWindow { width: 300, height: 300, window_name: String::new(), render_count: 0 }
    }

    /// Requests a window size.
    pub fn set_size(&mut self, width: i32, height: i32)
        ensures
            final(self).width() == width,
            final(self).height() == height,
            final(self).window_name_view() == old(self).window_name_view(),
            final(self).render_count() == old(self).render_count(),
    {
        self.width = width;
        self.height = height;
    }

    /// Titles the window.
    pub fn set_window_name(&mut self, name: &str)
        ensures
            final(self).window_name_view() == name@,
            final(self).width() == old(self).width(),
            final(self).height() == old(self).height(),
            final(self).render_count() == old(self).render_count(),
    {
        self.window_name = name.to_owned();
    }

    /// How many render passes have been requested; callers can test it
    /// against the 64-bit limit before rendering.
    pub fn render_count_value(&self) -> (count: u64)
        ensures
            count == self.render_count(),
    {
        self.render_count
    }

    /// Requests one render pass. The one machine limit is that the
    /// 64-bit pass counter must not be exhausted.
    pub fn render(&mut self)
        requires
            old(self).render_count() < u64::MAX,
        ensures
            final(self).render_count() == old(self).render_count() + 1,
            final(self).width() == old(self).width(),
            final(self).height() == old(self).height(),
            final(self).window_name_view() == old(self).window_name_view(),
    {
        self.render_count = self.render_count + 1;
    }
}

} // verus!
