//! Plain view data for text content.
//!
//! Rendering is the presentation layer's business; the library only carries
//! the text a view holds.

use vstd::prelude::*;

verus! {

/// A text node view.
#[derive(Debug, Clone)]
pub struct Text {
    content: String,
}

impl Text {
    /// The text this view shows.
    pub closed spec fn spec_content(&self) -> Seq<char> {
        self.content@
    }

    /// Create a text view holding `content`.
    pub fn new(content: String) -> (r: Self)
        ensures
            r.spec_content() == content@,
    {
        Text { content }
    }

    /// The text this view shows.
    pub fn content(&self) -> (r: &String)
        ensures
            r@ == self.spec_content(),
    {
        &self.content
    }
}

/// Convenience function for creating text views.
pub fn text(content: String) -> (r: Text)
    ensures
        r.spec_content() == content@,
{
    Text::new(content)
}

} // verus!
