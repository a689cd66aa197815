//! The pane that shows the detail of one host.

use crate::host::Host;
use crate::text::{blank_image, blank_lines, TextBuffer, TextState};
use vstd::prelude::*;

verus! {

/// The detail pane: a text buffer without a cursor mark.
pub struct InfoBox {
    buffer: TextBuffer,
}

/// Collects the size of a text pane before it is made.
pub struct InfoBoxBuilder {
    rows: Option<usize>,
    cols: Option<usize>,
}

impl View for InfoBoxBuilder {
    type V = (Option<usize>, Option<usize>);

    /// The number of rows and of columns, as far as they were chosen.
    closed spec fn view(&self) -> (Option<usize>, Option<usize>) {
        (self.rows, self.cols)
    }
}

impl InfoBoxBuilder {
    /// The number of rows of a pane for which none was chosen.
    pub const ROWS: usize = 25;

    /// The number of columns of a pane for which none was chosen.
    pub const COLS: usize = 80;

    /// Nothing chosen yet.
    pub fn new() -> (builder: InfoBoxBuilder)
        ensures
            builder@ == (None::<usize>, None::<usize>),
    {
        InfoBoxBuilder { rows: None, cols: None }
    }

    /// The same choices, with `rows` rows.
    pub fn rows(&self, rows: usize) -> (builder: InfoBoxBuilder)
        ensures
            builder@ == (Some(rows), self@.1),
    {
        InfoBoxBuilder { rows: Some(rows), cols: self.cols }
    }

    /// The same choices, with `cols` columns.
    pub fn cols(&self, cols: usize) -> (builder: InfoBoxBuilder)
        ensures
            builder@ == (self@.0, Some(cols)),
    {
        InfoBoxBuilder { rows: self.rows, cols: Some(cols) }
    }

    /// A fresh pane of the chosen size; 25 rows and 80 columns where none
    /// was chosen.
    pub fn build(&self) -> (info_box: InfoBox)
        ensures
            info_box@ == TextState::fresh(
                match self@.0 {
                    Some(rows) => rows as nat,
                    None => 25,
                },
                match self@.1 {
                    Some(cols) => cols as nat,
                    None => 80,
                },
                None,
            ),
            info_box.wf(),
    {
        let rows: usize = match self.rows {
            Some(rows) => rows,
            None => Self::ROWS,
        };
        let cols: usize = match self.cols {
            Some(cols) => cols,
            None => Self::COLS,
        };
        InfoBox::new(rows, cols)
    }
}

/// The rows of a pane of `rows` rows that shows the detail of a host: its
/// name, its group, its label and what was found of it, one to a row, below
/// empty rows; where the pane has fewer than four rows, the last of these.
pub open spec fn detail_lines(
    rows: nat,
    host: Seq<char>,
    group: Seq<char>,
    label: Seq<char>,
    info: Seq<char>,
) -> Seq<Seq<char>> {
    (blank_lines((rows - 1) as nat) + seq![
        "host: "@ + host,
        "group: "@ + group,
        "label: "@ + label,
        "info: "@ + info,
    ]).skip(3)
}

/// `label` followed by `value`.
fn labelled(label: &str, value: &str) -> (line: String)
    ensures
        line@ == label@ + value@,
{
    let mut line = String::new();
    line.append(label);
    line.append(value);
    assert(line@ =~= label@ + value@);
    line
}

impl View for InfoBox {
    type V = TextState;

    closed spec fn view(&self) -> TextState {
        self.buffer@
    }
}

impl InfoBox {
    /// The pane has its rows, its text shows them as they are, and no mark
    /// follows the text.
    pub open spec fn wf(&self) -> bool {
        &&& self@.wf()
        &&& self@.cursor.is_none()
    }

    /// A pane of `rows` empty rows, which its text shows.
    pub fn new(rows: usize, cols: usize) -> (info_box: InfoBox)
        ensures
            info_box@ == TextState::fresh(rows as nat, cols as nat, None),
            info_box.wf(),
            rows > 0 ==> info_box@.image == blank_image(rows as nat),
    {
        let info_box = InfoBox { buffer: TextBuffer::new(rows, cols, None) };
        assert(rows > 0 ==> info_box@.image =~= blank_image(rows as nat));
        info_box
    }

    /// Empties every row: the text is then a space for each row, with a
    /// line break between two rows, and nothing else.
    pub fn clear(&mut self)
        requires
            old(self).wf(),
            old(self)@.rows > 0,
        ensures
            final(self)@ == old(self)@.cleared(),
            final(self).wf(),
            final(self)@.image == blank_image(final(self)@.rows),
    {
        self.buffer.clear();
        assert(self@.image =~= blank_image(self@.rows));
    }

    /// Drops the first row and starts a new, empty cursor line.
    pub fn scroll(&mut self)
        requires
            old(self).wf(),
            old(self)@.rows > 0,
        ensures
            final(self)@ == old(self)@.scrolled(),
            final(self).wf(),
    {
        self.buffer.scroll()
    }

    /// Removes the last character of the cursor line, if it has one.
    pub fn backspace(&mut self)
        requires
            old(self).wf(),
            old(self)@.rows > 0,
        ensures
            final(self)@ == old(self)@.erased(),
            final(self).wf(),
            old(self)@.lines.last().len() == 0 ==> final(self)@ == old(self)@,
    {
        self.buffer.backspace()
    }

    /// Adds `ch` to the cursor line.
    pub fn write_char(&mut self, ch: char)
        requires
            old(self).wf(),
            old(self)@.rows > 0,
        ensures
            final(self)@ == old(self)@.typed(ch),
            final(self).wf(),
    {
        self.buffer.write_char(ch)
    }

    /// Adds `str` to the cursor line.
    pub fn write(&mut self, str: String)
        requires
            old(self).wf(),
            old(self)@.rows > 0,
        ensures
            final(self)@ == old(self)@.written(str@),
            final(self).wf(),
    {
        self.buffer.write(str.as_str())
    }

    /// The text: the rows as they are, joined by line breaks.
    pub fn contents(&self) -> (text: String)
        ensures
            text@ == self@.image,
            self.wf() ==> text@ == self@.shows(self@.lines),
    {
        self.buffer.contents()
    }

    /// Shows the detail of a host in place of what was shown: its name, its
    /// group, its label and `info`, one to a row.
    pub fn show(&mut self, host: &Host, info: &str)
        requires
            old(self).wf(),
            old(self)@.rows > 0,
        ensures
            final(self)@ == old(self)@.with_lines(
                detail_lines(old(self)@.rows, host.host@, host.group@, host.label@, info@),
            ),
            final(self).wf(),
    {
        let ghost rows = self@.rows;
        let ghost above = blank_lines((rows - 1) as nat);
        let ghost a = "host: "@ + host.host@;
        let ghost b = "group: "@ + host.group@;
        let ghost c = "label: "@ + host.label@;
        let ghost d = "info: "@ + info@;
        self.buffer.clear();
        self.buffer.write(labelled("host: ", host.host.as_str()).as_str());
        assert(self@.lines =~= (above + seq![a]));
        self.buffer.scroll();
        self.buffer.write(labelled("group: ", host.group.as_str()).as_str());
        assert(self@.lines =~= (above + seq![a, b]).skip(1));
        self.buffer.scroll();
        self.buffer.write(labelled("label: ", host.label.as_str()).as_str());
        assert(self@.lines =~= (above + seq![a, b, c]).skip(2));
        self.buffer.scroll();
        self.buffer.write(labelled("info: ", info).as_str());
        assert(self@.lines =~= (above + seq![a, b, c, d]).skip(3));
    }
}

} // verus!
