//! The bounded scrolling text buffer: a fixed number of rows, of which the
//! last one is the cursor line, and the block of text that shows them.

use crate::views::strings_view;
use vstd::prelude::*;

verus! {

/// A row as it is shown: an empty row is shown as one space.
pub open spec fn shown(line: Seq<char>) -> Seq<char> {
    if line.len() == 0 {
        seq![' ']
    } else {
        line
    }
}

/// The rows as they are shown, each followed by a line break.
pub open spec fn broken_rows(lines: Seq<Seq<char>>) -> Seq<char>
    decreases lines.len(),
{
    if lines.len() == 0 {
        Seq::empty()
    } else {
        broken_rows(lines.drop_last()) + shown(lines.last()) + seq!['\n']
    }
}

/// The block of text for the rows: the rows as they are shown, joined by
/// line breaks.
pub open spec fn render(lines: Seq<Seq<char>>) -> Seq<char> {
    if lines.len() == 0 {
        Seq::empty()
    } else {
        broken_rows(lines.drop_last()) + shown(lines.last())
    }
}

/// `rows` empty rows.
pub open spec fn blank_lines(rows: nat) -> Seq<Seq<char>> {
    Seq::new(rows, |i: int| Seq::<char>::empty())
}

/// The block of text of `rows` empty rows: a space for each row, and a line
/// break between two rows.
pub open spec fn blank_image(rows: nat) -> Seq<char> {
    if rows == 0 {
        Seq::empty()
    } else {
        Seq::new(
            (2 * rows - 1) as nat,
            |i: int|
                if i % 2 == 0 {
                    ' '
                } else {
                    '\n'
                },
        )
    }
}

/// The rows after one scroll: the first row is gone, an empty row is last.
pub open spec fn scroll_lines(lines: Seq<Seq<char>>) -> Seq<Seq<char>> {
    lines.drop_first().push(Seq::empty())
}

/// The rows with the cursor line replaced.
pub open spec fn with_cursor_line(lines: Seq<Seq<char>>, line: Seq<char>) -> Seq<Seq<char>> {
    lines.update(lines.len() - 1, line)
}

/// A line without its last character; an empty line stays empty.
pub open spec fn erase_last(line: Seq<char>) -> Seq<char> {
    if line.len() == 0 {
        line
    } else {
        line.drop_last()
    }
}

/// What a text buffer is: its size, the mark that follows the text, its rows
/// and the block of text that shows them.
pub struct TextState {
    pub rows: nat,
    pub cols: nat,
    pub cursor: Option<char>,
    pub lines: Seq<Seq<char>>,
    pub image: Seq<char>,
}

impl TextState {
    /// The mark that follows the text.
    pub open spec fn mark(self) -> Seq<char> {
        match self.cursor {
            Some(c) => seq![c],
            None => Seq::empty(),
        }
    }

    /// The text that shows these rows: the rows joined by line breaks and
    /// followed by the mark; nothing where there is no row.
    pub open spec fn shows(self, lines: Seq<Seq<char>>) -> Seq<char> {
        if lines.len() == 0 {
            Seq::empty()
        } else {
            render(lines) + self.mark()
        }
    }

    /// There are exactly `rows` rows, and the text shows them as they are.
    pub open spec fn wf(self) -> bool {
        &&& self.lines.len() == self.rows
        &&& self.image == self.shows(self.lines)
    }

    /// A buffer that was just made: empty rows, and the text that shows
    /// them.
    pub open spec fn fresh(rows: nat, cols: nat, cursor: Option<char>) -> TextState {
        let bare = TextState { rows, cols, cursor, lines: blank_lines(rows), image: Seq::empty() };
        TextState { image: bare.shows(blank_lines(rows)), ..bare }
    }

    /// The buffer with other rows, and the text that shows them.
    pub open spec fn with_lines(self, lines: Seq<Seq<char>>) -> TextState {
        TextState {
            rows: self.rows,
            cols: self.cols,
            cursor: self.cursor,
            lines,
            image: render(lines) + self.mark(),
        }
    }

    /// All rows empty.
    pub open spec fn cleared(self) -> TextState {
        self.with_lines(blank_lines(self.rows))
    }

    /// The first row dropped, an empty cursor line added.
    pub open spec fn scrolled(self) -> TextState {
        self.with_lines(scroll_lines(self.lines))
    }

    /// Scrolled `n` times.
    pub open spec fn scrolled_by(self, n: nat) -> TextState
        decreases n,
    {
        if n == 0 {
            self
        } else {
            self.scrolled_by((n - 1) as nat).scrolled()
        }
    }

    /// The last character of the cursor line removed, if it has one.
    pub open spec fn erased(self) -> TextState {
        self.with_lines(with_cursor_line(self.lines, erase_last(self.lines.last())))
    }

    /// `ch` added to the cursor line.
    pub open spec fn typed(self, ch: char) -> TextState {
        self.with_lines(with_cursor_line(self.lines, self.lines.last().push(ch)))
    }

    /// `text` added to the cursor line.
    pub open spec fn written(self, text: Seq<char>) -> TextState {
        self.with_lines(with_cursor_line(self.lines, self.lines.last() + text))
    }

    /// The characters of `text` added to the cursor line one after the
    /// other.
    pub open spec fn typed_all(self, text: Seq<char>) -> TextState
        decreases text.len(),
    {
        if text.len() == 0 {
            self
        } else {
            self.typed_all(text.drop_last()).typed(text.last())
        }
    }
}

/// `String::push`: the string afterwards is the string before with `ch` as
/// its new last character.
#[verifier::external_body]
fn push_char(line: &mut String, ch: char)
    ensures
        final(line)@ == old(line)@.push(ch),
{
    line.push(ch)
}

/// `String::pop`: an empty string stays as it is and gives `None`; any other
/// loses its last character, which is returned.
#[verifier::external_body]
fn pop_char(line: &mut String) -> (ch: Option<char>)
    ensures
        old(line)@.len() == 0 ==> ch.is_none() && final(line)@ == old(line)@,
        old(line)@.len() > 0 ==> ch == Some(old(line)@.last()) && final(line)@ == old(
            line,
        )@.drop_last(),
{
    line.pop()
}

/// `rows` empty rows.
pub fn blank(rows: usize) -> (lines: Vec<String>)
    ensures
        lines.len() == rows,
        strings_view(lines@) == blank_lines(rows as nat),
{
    let mut lines: Vec<String> = Vec::new();
    let mut i: usize = 0;
    while i < rows
        invariant
            i <= rows,
            lines.len() == i,
            forall|k: int| 0 <= k < i ==> (#[trigger] lines[k])@.len() == 0,
        decreases rows - i,
    {
        lines.push(String::new());
        i += 1;
    }
    assert(strings_view(lines@) =~= blank_lines(rows as nat)) by {
        assert forall|k: int| 0 <= k < rows implies strings_view(lines@)[k] == blank_lines(
            rows as nat,
        )[k] by {
            assert(lines[k]@ =~= Seq::<char>::empty());
        }
    }
    lines
}

/// The block of text for `lines`.
pub fn collapse(lines: &Vec<String>) -> (image: String)
    requires
        lines.len() > 0,
    ensures
        image@ == render(strings_view(lines@)),
{
    let ghost model = strings_view(lines@);
    let mut img = String::new();
    let last: usize = lines.len() - 1;
    let mut i: usize = 0;
    while i < last
        invariant
            i <= last,
            last + 1 == lines.len(),
            model == strings_view(lines@),
            img@ == broken_rows(model.take(i as int)),
        decreases last - i,
    {
        proof {
            reveal_strlit(" ");
            reveal_strlit("\n");
            assert(model.take(i + 1).drop_last() == model.take(i as int));
            assert(model.take(i + 1).last() == lines[i as int]@);
        }
        if lines[i].as_str().is_empty() {
            img.append(" ");
            assert(img@ == broken_rows(model.take(i as int)) + seq![' ']);
        } else {
            img.append(lines[i].as_str());
        }
        img.append("\n");
        assert(img@ == broken_rows(model.take(i as int)) + shown(lines[i as int]@) + seq!['\n']);
        i += 1;
    }
    proof {
        reveal_strlit(" ");
        assert(model.take(last as int) == model.drop_last());
        assert(model.last() == lines[last as int]@);
    }
    if lines[last].as_str().is_empty() {
        img.append(" ");
        assert(img@ == broken_rows(model.drop_last()) + seq![' ']);
    } else {
        img.append(lines[last].as_str());
    }
    img
}

/// A bounded scrolling text buffer.
pub struct TextBuffer {
    image: String,
    lines: Vec<String>,
    rows: usize,
    cols: usize,
    cursor: Option<char>,
}

impl View for TextBuffer {
    type V = TextState;

    closed spec fn view(&self) -> TextState {
        TextState {
            rows: self.rows as nat,
            cols: self.cols as nat,
            cursor: self.cursor,
            lines: strings_view(self.lines@),
            image: self.image@,
        }
    }
}

impl TextBuffer {
    /// A buffer of `rows` empty rows, with the text that shows them. With a
    /// `cursor`, that character follows the text.
    pub fn new(rows: usize, cols: usize, cursor: Option<char>) -> (buffer: TextBuffer)
        ensures
            buffer@ == TextState::fresh(rows as nat, cols as nat, cursor),
            buffer@.wf(),
            rows > 0 ==> buffer@.image == blank_image(rows as nat) + buffer@.mark(),
    {
        proof {
            lemma_blank_image(rows as nat);
        }
        let mut buffer = TextBuffer { image: String::new(), lines: blank(rows), rows, cols, cursor };
        if rows > 0 {
            buffer.collapse();
        }
        buffer
    }

    /// Computes the text from the rows.
    fn collapse(&mut self)
        requires
            old(self)@.lines.len() == old(self)@.rows,
            old(self)@.rows > 0,
        ensures
            final(self)@ == old(self)@.with_lines(old(self)@.lines),
    {
        let mut img = collapse(&self.lines);
        match self.cursor {
            Some(c) => push_char(&mut img, c),
            None => {},
        }
        assert(img@ =~= render(self@.lines) + self@.mark());
        self.image = img;
    }

    /// Empties every row: the text is then a space for each row, with a
    /// line break between two rows, and the mark, if there is one.
    pub fn clear(&mut self)
        requires
            old(self)@.wf(),
            old(self)@.rows > 0,
        ensures
            final(self)@ == old(self)@.cleared(),
            final(self)@.wf(),
            final(self)@.image == blank_image(final(self)@.rows) + final(self)@.mark(),
    {
        self.lines = blank(self.rows);
        self.collapse();
        proof {
            lemma_blank_image(self@.rows);
        }
    }

    /// Drops the first row and starts a new, empty cursor line.
    pub fn scroll(&mut self)
        requires
            old(self)@.wf(),
            old(self)@.rows > 0,
        ensures
            final(self)@ == old(self)@.scrolled(),
            final(self)@.wf(),
    {
        let _ = self.lines.remove(0);
        self.lines.push(String::new());
        assert(strings_view(self.lines@) =~= scroll_lines(old(self)@.lines));
        self.collapse();
    }

    /// Removes the last character of the cursor line. On an empty cursor
    /// line nothing changes.
    pub fn backspace(&mut self)
        requires
            old(self)@.wf(),
            old(self)@.rows > 0,
        ensures
            final(self)@ == old(self)@.erased(),
            final(self)@.wf(),
            old(self)@.lines.last().len() == 0 ==> final(self)@ == old(self)@,
    {
        let last: usize = self.rows - 1;
        let mut line = self.lines.remove(last);
        if !line.as_str().is_empty() {
            let _ = pop_char(&mut line);
        }
        self.lines.push(line);
        assert(strings_view(self.lines@) =~= with_cursor_line(
            old(self)@.lines,
            erase_last(old(self)@.lines.last()),
        ));
        assert(old(self)@.lines.last().len() == 0 ==> strings_view(self.lines@) =~= old(
            self,
        )@.lines);
        self.collapse();
    }

    /// Adds `ch` to the cursor line.
    pub fn write_char(&mut self, ch: char)
        requires
            old(self)@.wf(),
            old(self)@.rows > 0,
        ensures
            final(self)@ == old(self)@.typed(ch),
            final(self)@.wf(),
    {
        let last: usize = self.rows - 1;
        let mut line = self.lines.remove(last);
        push_char(&mut line, ch);
        self.lines.push(line);
        assert(strings_view(self.lines@) =~= with_cursor_line(
            old(self)@.lines,
            old(self)@.lines.last().push(ch),
        ));
        self.collapse();
    }

    /// Adds `text` to the cursor line.
    pub fn write(&mut self, text: &str)
        requires
            old(self)@.wf(),
            old(self)@.rows > 0,
        ensures
            final(self)@ == old(self)@.written(text@),
            final(self)@.wf(),
    {
        let last: usize = self.rows - 1;
        let mut line = self.lines.remove(last);
        line.append(text);
        self.lines.push(line);
        assert(strings_view(self.lines@) =~= with_cursor_line(
            old(self)@.lines,
            old(self)@.lines.last() + text@,
        ));
        self.collapse();
    }

    /// The text: the rows as they are, joined by line breaks and followed by
    /// the mark.
    pub fn contents(&self) -> (text: String)
        ensures
            text@ == self@.image,
            self@.wf() ==> text@ == self@.shows(self@.lines),
    {
        self.image.clone()
    }
}

/// The rows as they are shown with their line breaks, for empty rows: a space
/// and a line break for each.
proof fn lemma_blank_rows(rows: nat)
    ensures
        broken_rows(blank_lines(rows)) == Seq::new(
            2 * rows,
            |i: int|
                if i % 2 == 0 {
                    ' '
                } else {
                    '\n'
                },
        ),
    decreases rows,
{
    let pattern = |i: int|
        if i % 2 == 0 {
            ' '
        } else {
            '\n'
        };
    if rows == 0 {
        assert(broken_rows(blank_lines(rows)) =~= Seq::new(2 * rows, pattern));
    } else {
        lemma_blank_rows((rows - 1) as nat);
        assert(blank_lines(rows).drop_last() =~= blank_lines((rows - 1) as nat));
        assert(broken_rows(blank_lines(rows)) =~= Seq::new(2 * rows, pattern));
    }
}

/// Empty rows give a text of one space for each row, with a line break
/// between two rows: no row is missing, and no line break follows the last.
pub proof fn lemma_blank_image(rows: nat)
    ensures
        render(blank_lines(rows)) == blank_image(rows),
        rows > 0 ==> blank_image(rows).len() == 2 * rows - 1,
{
    if rows > 0 {
        lemma_blank_rows((rows - 1) as nat);
        assert(blank_lines(rows).drop_last() =~= blank_lines((rows - 1) as nat));
        assert(render(blank_lines(rows)) =~= blank_image(rows));
    }
}

/// A row of a buffer that was scrolled `n` times: the row that stood `n`
/// rows further down, or an empty row where there was none.
proof fn lemma_scrolled_rows(s: TextState, n: nat)
    requires
        s.wf(),
        s.rows > 0,
    ensures
        s.scrolled_by(n).wf(),
        s.scrolled_by(n).rows == s.rows,
        s.scrolled_by(n).cols == s.cols,
        s.scrolled_by(n).cursor == s.cursor,
        forall|i: int|
            0 <= i < s.rows ==> #[trigger] s.scrolled_by(n).lines[i] == if i + n < s.rows {
                s.lines[i + n]
            } else {
                Seq::<char>::empty()
            },
    decreases n,
{
    if n > 0 {
        lemma_scrolled_rows(s, (n - 1) as nat);
    }
}

/// Scrolling keeps the number of rows, and after as many scrolls as there
/// are rows, or more, the buffer is as `clear` leaves it: every row is
/// empty, and the text is a space for each row, with a line break between
/// two rows, and the mark.
pub proof fn lemma_scroll_empties(s: TextState, n: nat)
    requires
        s.wf(),
        s.rows > 0,
    ensures
        s.scrolled_by(n).wf(),
        s.scrolled_by(n).rows == s.rows,
        n >= s.rows ==> s.scrolled_by(n).lines == blank_lines(s.rows),
        n >= s.rows ==> s.scrolled_by(n) == s.cleared(),
        n >= s.rows ==> s.scrolled_by(n).image == blank_image(s.rows) + s.mark(),
{
    lemma_scrolled_rows(s, n);
    lemma_blank_image(s.rows);
    if n >= s.rows {
        assert(s.scrolled_by(n).lines =~= blank_lines(s.rows));
        assert(n > 0);
        assert(s.scrolled_by(n) == s.scrolled_by((n - 1) as nat).scrolled());
        lemma_scrolled_rows(s, (n - 1) as nat);
    }
}

/// Every change keeps the number of rows and leaves the text showing the
/// rows as they are; erasing on an empty cursor line changes nothing.
pub proof fn lemma_rows_are_kept(s: TextState, ch: char, text: Seq<char>)
    requires
        s.wf(),
        s.rows > 0,
    ensures
        s.cleared().wf(),
        s.scrolled().wf(),
        s.erased().wf(),
        s.typed(ch).wf(),
        s.written(text).wf(),
        s.lines.last().len() == 0 ==> s.erased() == s,
{
    assert(s.lines.last().len() == 0 ==> s.erased().lines =~= s.lines);
}

/// A buffer that was just made shows its empty rows: a space for each row,
/// with a line break between two rows, and the mark; nothing where it has
/// no row.
pub proof fn lemma_fresh_image(rows: nat, cols: nat, cursor: Option<char>)
    ensures
        TextState::fresh(rows, cols, cursor).wf(),
        rows > 0 ==> TextState::fresh(rows, cols, cursor).image == blank_image(rows)
            + TextState::fresh(rows, cols, cursor).mark(),
        rows > 0 ==> TextState::fresh(rows, cols, cursor) == TextState::fresh(
            rows,
            cols,
            cursor,
        ).cleared(),
        rows == 0 ==> TextState::fresh(rows, cols, cursor).image == Seq::<char>::empty(),
{
    lemma_blank_image(rows);
}

/// To add a text to the cursor line is to add its characters one after the
/// other: the rows and the text that shows them are the same.
pub proof fn lemma_written_is_typed(s: TextState, text: Seq<char>)
    requires
        s.wf(),
        s.rows > 0,
    ensures
        s.written(text) == s.typed_all(text),
    decreases text.len(),
{
    if text.len() == 0 {
        assert(with_cursor_line(s.lines, s.lines.last() + text) =~= s.lines);
    } else {
        let front = text.drop_last();
        lemma_written_is_typed(s, front);
        let before = s.written(front);
        assert(before.lines.last() == s.lines.last() + front);
        assert(s.lines.last() + text =~= (s.lines.last() + front).push(text.last()));
        assert(with_cursor_line(before.lines, before.lines.last().push(text.last()))
            =~= with_cursor_line(s.lines, s.lines.last() + text));
    }
}

} // verus!
