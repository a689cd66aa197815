//! A plain text pane: a text buffer without a cursor mark.

use crate::text::{blank_image, TextBuffer, TextState};
use vstd::prelude::*;

verus! {

/// A text pane of a fixed number of rows.
pub struct TextWidget {
    buffer: TextBuffer,
}

/// Collects the size of a text pane before it is made.
pub struct TextWidgetBuilder {
    rows: Option<usize>,
    cols: Option<usize>,
}

impl View for TextWidgetBuilder {
    type V = (Option<usize>, Option<usize>);

    /// The number of rows and of columns, as far as they were chosen.
    closed spec fn view(&self) -> (Option<usize>, Option<usize>) {
        (self.rows, self.cols)
    }
}

impl TextWidgetBuilder {
    /// The number of rows of a pane for which none was chosen.
    pub const ROWS: usize = 25;

    /// The number of columns of a pane for which none was chosen.
    pub const COLS: usize = 80;

    /// Nothing chosen yet.
    pub fn new() -> (builder: TextWidgetBuilder)
        ensures
            builder@ == (None::<usize>, None::<usize>),
    {
        TextWidgetBuilder { rows: None, cols: None }
    }

    /// The same choices, with `rows` rows.
    pub fn rows(&self, rows: usize) -> (builder: TextWidgetBuilder)
        ensures
            builder@ == (Some(rows), self@.1),
    {
        TextWidgetBuilder { rows: Some(rows), cols: self.cols }
    }

    /// The same choices, with `cols` columns.
    pub fn cols(&self, cols: usize) -> (builder: TextWidgetBuilder)
        ensures
            builder@ == (self@.0, Some(cols)),
    {
        TextWidgetBuilder { rows: self.rows, cols: Some(cols) }
    }

    /// A fresh pane of the chosen size; 25 rows and 80 columns where none
    /// was chosen.
    pub fn build(&self) -> (widget: TextWidget)
        ensures
            widget@ == TextState::fresh(
                match self@.0 {
                    Some(rows) => rows as nat,
                    None => 25,
                },
                match self@.1 {
                    Some(cols) => cols as nat,
                    None => 80,
                },
                None,
            ),
            widget.wf(),
    {
        let rows: usize = match self.rows {
            Some(rows) => rows,
            None => Self::ROWS,
        };
        let cols: usize = match self.cols {
            Some(cols) => cols,
            None => Self::COLS,
        };
        TextWidget::new(rows, cols)
    }
}

impl View for TextWidget {
    type V = TextState;

    closed spec fn view(&self) -> TextState {
        self.buffer@
    }
}

impl TextWidget {
    /// The pane has its rows, its text shows them as they are, and no mark
    /// follows the text.
    pub open spec fn wf(&self) -> bool {
        &&& self@.wf()
        &&& self@.cursor.is_none()
    }

    /// A pane of `rows` empty rows, which its text shows.
    pub fn new(rows: usize, cols: usize) -> (widget: TextWidget)
        ensures
            widget@ == TextState::fresh(rows as nat, cols as nat, None),
            widget.wf(),
            rows > 0 ==> widget@.image == blank_image(rows as nat),
    {
        let widget = TextWidget { buffer: TextBuffer::new(rows, cols, None) };
        assert(rows > 0 ==> widget@.image =~= blank_image(rows as nat));
        widget
    }

    /// Empties every row: the text is then a space for each row, with a
    /// line break between two rows, and nothing else.
    pub fn clear(&mut self)
        requires
            old(self).wf(),
            old(self)@.rows > 0,
        ensures
            final(self)@ == old(self)@.cleared(),
            final(self).wf(),
            final(self)@.image == blank_image(final(self)@.rows),
    {
        self.buffer.clear();
        assert(self@.image =~= blank_image(self@.rows));
    }

    /// Drops the first row and starts a new, empty cursor line.
    pub fn scroll(&mut self)
        requires
            old(self).wf(),
            old(self)@.rows > 0,
        ensures
            final(self)@ == old(self)@.scrolled(),
            final(self).wf(),
    {
        self.buffer.scroll()
    }

    /// Removes the last character of the cursor line, if it has one.
    pub fn backspace(&mut self)
        requires
            old(self).wf(),
            old(self)@.rows > 0,
        ensures
            final(self)@ == old(self)@.erased(),
            final(self).wf(),
            old(self)@.lines.last().len() == 0 ==> final(self)@ == old(self)@,
    {
        self.buffer.backspace()
    }

    /// Adds `ch` to the cursor line.
    pub fn write_char(&mut self, ch: char)
        requires
            old(self).wf(),
            old(self)@.rows > 0,
        ensures
            final(self)@ == old(self)@.typed(ch),
            final(self).wf(),
    {
        self.buffer.write_char(ch)
    }

    /// Adds `str` to the cursor line.
    pub fn write_string(&mut self, str: String)
        requires
            old(self).wf(),
            old(self)@.rows > 0,
        ensures
            final(self)@ == old(self)@.written(str@),
            final(self).wf(),
    {
        self.buffer.write(str.as_str())
    }

    /// The text: the rows as they are, joined by line breaks.
    pub fn contents(&self) -> (text: String)
        ensures
            text@ == self@.image,
            self.wf() ==> text@ == self@.shows(self@.lines),
    {
        self.buffer.contents()
    }
}

} // verus!
