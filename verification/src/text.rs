//! Plain text between tags.

use vstd::prelude::*;

verus! {

/// A run of text. It is written out as it stands: whoever makes it has
/// already escaped what needs escaping.
#[derive(Debug)]
#[must_use]
pub struct Text {
    content: String,
}

impl View for Text {
    type V = Seq<char>;

    closed spec fn view(&self) -> Seq<char> {
        self.content@
    }
}

impl Text {
    /// The text `content`.
    pub fn new(content: &str) -> (text: Text)
        ensures
            text@ == content@,
    {
        Text { content: String::from_str(content) }
    }

    /// Appends the text to `out`, as it stands.
    pub fn write_to(&self, out: &mut String)
        ensures
            final(out)@ == old(out)@ + self@,
    {
        out.append(self.content.as_str());
    }

    /// The text, as it stands.
    pub fn render(&self) -> (text: String)
        ensures
            text@ == self@,
    {
        self.content.clone()
    }
}

impl Clone for Text {
    fn clone(&self) -> (copy: Text)
        ensures
            copy@ == self@,
    {
        Text { content: self.content.clone() }
    }
}

} // verus!
