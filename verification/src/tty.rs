//! A terminal-like text pane: a text buffer whose text ends in a cursor
//! mark.

use crate::text::{blank_image, TextBuffer, TextState};
use vstd::prelude::*;

verus! {

/// A text pane that shows a cursor mark after its text.
pub struct TtyWidget {
    buffer: TextBuffer,
}

impl View for TtyWidget {
    type V = TextState;

    closed spec fn view(&self) -> TextState {
        self.buffer@
    }
}

impl TtyWidget {
    /// The pane has its rows, its text shows them as they are, and the
    /// cursor mark follows the text.
    pub open spec fn wf(&self) -> bool {
        &&& self@.wf()
        &&& self@.cursor == Some('\u{00ab}')
    }

    /// The cursor mark.
    pub const CURSOR: char = '\u{00ab}';

    /// A pane of `rows` empty rows, which its text shows.
    pub fn new(rows: usize, cols: usize) -> (widget: TtyWidget)
        ensures
            widget@ == TextState::fresh(rows as nat, cols as nat, Some('\u{00ab}')),
            widget.wf(),
            rows > 0 ==> widget@.image == blank_image(rows as nat).push('\u{00ab}'),
    {
        let widget = TtyWidget { buffer: TextBuffer::new(rows, cols, Some(Self::CURSOR)) };
        assert(rows > 0 ==> widget@.image =~= blank_image(rows as nat).push('\u{00ab}'));
        widget
    }

    /// Empties every row: the text is then a space for each row, with a
    /// line break between two rows, and the cursor mark.
    pub fn clear(&mut self)
        requires
            old(self).wf(),
            old(self)@.rows > 0,
        ensures
            final(self)@ == old(self)@.cleared(),
            final(self).wf(),
            final(self)@.image == blank_image(final(self)@.rows).push('\u{00ab}'),
    {
        self.buffer.clear();
        assert(self@.image =~= blank_image(self@.rows).push('\u{00ab}'));
    }

    /// Drops the first row and starts a new, empty cursor line.
    pub fn scroll(&mut self)
        requires
            old(self).wf(),
            old(self)@.rows > 0,
        ensures
            final(self)@ == old(self)@.scrolled(),
            final(self).wf(),
    {
        self.buffer.scroll()
    }

    /// Removes the last character of the cursor line, if it has one.
    pub fn backspace(&mut self)
        requires
            old(self).wf(),
            old(self)@.rows > 0,
        ensures
            final(self)@ == old(self)@.erased(),
            final(self).wf(),
            old(self)@.lines.last().len() == 0 ==> final(self)@ == old(self)@,
    {
        self.buffer.backspace()
    }

    /// Adds `ch` to the cursor line.
    pub fn write_char(&mut self, ch: char)
        requires
            old(self).wf(),
            old(self)@.rows > 0,
        ensures
            final(self)@ == old(self)@.typed(ch),
            final(self).wf(),
    {
        self.buffer.write_char(ch)
    }

    /// Adds `str` to the cursor line.
    pub fn write_string(&mut self, str: String)
        requires
            old(self).wf(),
            old(self)@.rows > 0,
        ensures
            final(self)@ == old(self)@.written(str@),
            final(self).wf(),
    {
        self.buffer.write(str.as_str())
    }

    /// The text: the rows as they are, joined by line breaks, and the cursor
    /// mark after them.
    pub fn contents(&self) -> (text: String)
        ensures
            text@ == self@.image,
            self.wf() ==> text@ == self@.shows(self@.lines),
    {
        self.buffer.contents()
    }
}

} // verus!
