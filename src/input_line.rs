//! The editable, not yet submitted command line.
use vstd::prelude::*;

verus! {

/// Relies on `String::push`: appends `c` at the end of `s`.
#[verifier::external_body]
fn push_char(s: &mut String, c: char)
    ensures
        final(s)@ == old(s)@.push(c),
{
    s.push(c);
}

/// The characters typed so far.
pub struct InputLine {
    buffer: String,
}

impl View for InputLine {
    type V = Seq<char>;

    closed spec fn view(&self) -> Seq<char> {
        self.buffer@
    }
}

impl InputLine {
    /// An empty line.
    pub fn new() -> (r: Self)
        ensures
            r@ == Seq::<char>::empty(),
    {
        InputLine { buffer: String::new() }
    }

    /// Appends one character.
    pub fn push(&mut self, c: char)
        ensures
            final(self)@ == old(self)@.push(c),
    {
        push_char(&mut self.buffer, c);
    }

    /// Removes the last character; does nothing on an empty line.
    pub fn pop_back(&mut self)
        ensures
            final(self)@ == (if old(self)@.len() > 0 {
                old(self)@.drop_last()
            } else {
                old(self)@
            }),
    {
        let n = self.buffer.as_str().unicode_len();
        if n > 0 {
            let kept = String::from_str(self.buffer.as_str().substring_char(0, n - 1));
            self.buffer = kept;
        }
    }

    /// Replaces the whole line with `text`.
    pub fn replace(&mut self, text: &str)
        ensures
            final(self)@ == text@,
    {
        self.buffer = String::from_str(text);
    }

    /// Empties the line.
    pub fn clear(&mut self)
        ensures
            final(self)@ == Seq::<char>::empty(),
    {
        self.buffer = String::new();
    }

    /// The line's text.
    pub fn as_text(&self) -> (r: &str)
        ensures
            r@ == self@,
    {
        self.buffer.as_str()
    }
}

} // verus!
