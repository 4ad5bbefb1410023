//! Configuration of a source that turns text into stroke geometry,
//! suited to labels and annotations.

use vstd::prelude::*;

verus! {

/// Configuration of a vector-text source: the text it renders.
pub struct VectorText {
    text: String,
}

impl VectorText {
    /// The text being rendered.
    pub closed spec fn text_view(&self) -> Seq<char> {
        self.text@
    }

    /// A source with no text yet.
    pub fn new() -> (source: Self)
        ensures
            source.text_view() == Seq::<char>::empty(),
    {
        VectorText { text: String::new() }
    }

    /// Sets the text to render.
    pub fn set_text(&mut self, text: &str)
        ensures
            final(self).text_view() == text@,
    {
        self.text = text.to_owned();
    }

    /// The text being rendered.
    pub fn get_text(&mut self) -> (text: String)
        ensures
            *final(self) == *old(self),
            text@ == old(self).text_view(),
    {
        self.text.clone()
    }
}

} // verus!
