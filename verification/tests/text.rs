use rsnitch::host::Host;
use rsnitch::info_box::{InfoBox, InfoBoxBuilder};
use rsnitch::text::{blank, collapse, TextBuffer};
use rsnitch::text_widget::{TextWidget, TextWidgetBuilder};
use rsnitch::tty::TtyWidget;

fn line_count(text: &str) -> usize {
    text.split('\n').count()
}

#[test]
fn fresh_widget_shows_its_empty_rows() {
    let widget = TextWidget::new(3, 80);
    assert_eq!(widget.contents(), " \n \n ");
    assert_eq!(TextWidget::new(1, 80).contents(), " ");
    assert_eq!(InfoBox::new(2, 80).contents(), " \n ");
    assert_eq!(TtyWidget::new(2, 80).contents(), " \n \u{00ab}");
}

#[test]
fn fresh_widget_without_rows_has_no_text() {
    assert_eq!(TextWidget::new(0, 80).contents(), "");
    assert_eq!(InfoBox::new(0, 80).contents(), "");
    assert_eq!(TtyWidget::new(0, 80).contents(), "");
    assert_eq!(TextBuffer::new(0, 80, Some('_')).contents(), "");
}

#[test]
fn fresh_widget_is_as_clear_leaves_it() {
    let fresh = TextWidget::new(4, 80);
    let mut cleared = TextWidget::new(4, 80);
    cleared.write_string("gone".to_string());
    cleared.scroll();
    cleared.clear();
    assert_eq!(fresh.contents(), cleared.contents());
}

#[test]
fn write_string_is_write_char_for_each_character() {
    let texts = ["", "a", "host: 10.0.0.5", "a\u{00e9}\u{4e16}"];
    for text in texts.iter() {
        let mut whole = TextWidget::new(2, 80);
        let mut each = TextWidget::new(2, 80);
        whole.write_string(text.to_string());
        for ch in text.chars() {
            each.write_char(ch);
        }
        assert_eq!(whole.contents(), each.contents());
        whole.scroll();
        each.scroll();
        whole.write_string(text.to_string());
        for ch in text.chars() {
            each.write_char(ch);
        }
        assert_eq!(whole.contents(), each.contents());
    }
    let mut whole = TtyWidget::new(1, 80);
    let each = TtyWidget::new(1, 80);
    whole.write_string(String::new());
    assert_eq!(whole.contents(), each.contents());
    assert_eq!(whole.contents(), " \u{00ab}");
}

#[test]
fn clear_shows_every_row_as_one_space() {
    let mut widget = TextWidget::new(3, 80);
    widget.clear();
    assert_eq!(widget.contents(), " \n \n ");
}

#[test]
fn clear_of_one_row_is_one_space() {
    let mut widget = TextWidget::new(1, 80);
    widget.clear();
    assert_eq!(widget.contents(), " ");
}

#[test]
fn clear_forgets_what_was_written() {
    let mut widget = TextWidget::new(2, 80);
    widget.write_string("abc".to_string());
    widget.scroll();
    widget.write_string("def".to_string());
    assert_eq!(widget.contents(), "abc\ndef");
    widget.clear();
    assert_eq!(widget.contents(), " \n ");
}

#[test]
fn write_char_adds_to_the_cursor_line() {
    let mut widget = TextWidget::new(2, 80);
    widget.write_char('a');
    assert_eq!(widget.contents(), " \na");
    widget.write_char('b');
    assert_eq!(widget.contents(), " \nab");
}

#[test]
fn write_string_adds_to_the_cursor_line() {
    let mut widget = TextWidget::new(2, 80);
    widget.write_string("hello".to_string());
    widget.write_string(", world".to_string());
    assert_eq!(widget.contents(), " \nhello, world");
}

#[test]
fn write_of_nothing_still_computes_the_text() {
    let mut widget = TextWidget::new(2, 80);
    widget.write_string(String::new());
    assert_eq!(widget.contents(), " \n ");
}

#[test]
fn backspace_removes_the_last_character() {
    let mut widget = TextWidget::new(2, 80);
    widget.write_string("abc".to_string());
    widget.backspace();
    assert_eq!(widget.contents(), " \nab");
}

#[test]
fn backspace_removes_a_whole_character() {
    let mut widget = TextWidget::new(1, 80);
    widget.write_string("a\u{00e9}".to_string());
    widget.backspace();
    assert_eq!(widget.contents(), "a");
    widget.backspace();
    assert_eq!(widget.contents(), " ");
}

#[test]
fn backspace_on_an_empty_cursor_line_changes_nothing() {
    let mut widget = TextWidget::new(2, 80);
    widget.write_string("up".to_string());
    widget.scroll();
    let before = widget.contents();
    widget.backspace();
    assert_eq!(widget.contents(), before);
    widget.backspace();
    widget.backspace();
    assert_eq!(widget.contents(), "up\n ");
}

#[test]
fn scroll_moves_every_row_up() {
    let mut widget = TextWidget::new(3, 80);
    widget.write_string("one".to_string());
    widget.scroll();
    assert_eq!(widget.contents(), " \none\n ");
    widget.write_string("two".to_string());
    widget.scroll();
    assert_eq!(widget.contents(), "one\ntwo\n ");
    widget.write_string("three".to_string());
    widget.scroll();
    assert_eq!(widget.contents(), "two\nthree\n ");
}

#[test]
fn scroll_by_the_number_of_rows_empties_the_buffer() {
    let rows = 4;
    let mut widget = TextWidget::new(rows, 80);
    for k in 0..rows {
        widget.write_string(format!("row {}", k));
        widget.scroll();
    }
    widget.write_string("last".to_string());
    widget.scroll();
    for _ in 0..rows {
        widget.scroll();
    }
    assert_eq!(widget.contents(), " \n \n \n ");
}

#[test]
fn the_number_of_rows_never_changes() {
    let rows = 5;
    let mut widget = TextWidget::new(rows, 80);
    widget.clear();
    assert_eq!(line_count(&widget.contents()), rows);
    for k in 0..12 {
        widget.write_string(format!("line {}", k));
        assert_eq!(line_count(&widget.contents()), rows);
        widget.write_char('!');
        assert_eq!(line_count(&widget.contents()), rows);
        widget.backspace();
        assert_eq!(line_count(&widget.contents()), rows);
        widget.scroll();
        assert_eq!(line_count(&widget.contents()), rows);
    }
    assert_eq!(widget.contents(), "line 8\nline 9\nline 10\nline 11\n ");
}

#[test]
fn builder_without_choices_builds_25_rows() {
    let mut widget = TextWidgetBuilder::new().build();
    assert_eq!(line_count(&widget.contents()), 25);
    assert_eq!(widget.contents().chars().count(), 49);
    widget.clear();
    let text = widget.contents();
    assert_eq!(line_count(&text), 25);
    assert_eq!(text.chars().count(), 49);
    assert!(text.split('\n').all(|row| row == " "));
    assert_eq!(TextWidgetBuilder::ROWS, 25);
    assert_eq!(TextWidgetBuilder::COLS, 80);
}

#[test]
fn builder_keeps_the_rows_that_were_chosen() {
    let mut widget = TextWidgetBuilder::new().rows(3).cols(10).build();
    widget.clear();
    assert_eq!(widget.contents(), " \n \n ");
    let mut other = TextWidgetBuilder::new().cols(10).rows(2).build();
    other.clear();
    assert_eq!(other.contents(), " \n ");
}

#[test]
fn tty_text_ends_in_the_cursor_mark() {
    let mut tty = TtyWidget::new(2, 80);
    assert_eq!(tty.contents(), " \n \u{00ab}");
    tty.clear();
    assert_eq!(tty.contents(), " \n \u{00ab}");
    tty.write_char('l');
    tty.write_string("s -l".to_string());
    assert_eq!(tty.contents(), " \nls -l\u{00ab}");
    tty.backspace();
    assert_eq!(tty.contents(), " \nls -\u{00ab}");
    tty.scroll();
    assert_eq!(tty.contents(), "ls -\n \u{00ab}");
    tty.backspace();
    assert_eq!(tty.contents(), "ls -\n \u{00ab}");
    assert_eq!(TtyWidget::CURSOR, '\u{00ab}');
}

#[test]
fn info_box_is_a_text_buffer_without_a_mark() {
    let mut info_box = InfoBox::new(2, 80);
    assert_eq!(info_box.contents(), " \n ");
    info_box.write("host: a".to_string());
    info_box.scroll();
    info_box.write_char('x');
    assert_eq!(info_box.contents(), "host: a\nx");
    info_box.backspace();
    info_box.backspace();
    assert_eq!(info_box.contents(), "host: a\n ");
    info_box.clear();
    assert_eq!(info_box.contents(), " \n ");
}

#[test]
fn info_box_builder_defaults_and_choices() {
    let mut by_default = InfoBoxBuilder::new().build();
    by_default.clear();
    assert_eq!(line_count(&by_default.contents()), 25);
    let mut chosen = InfoBoxBuilder::new().rows(6).cols(80).build();
    chosen.clear();
    assert_eq!(chosen.contents(), " \n \n \n \n \n ");
}

#[test]
fn info_box_shows_the_detail_of_a_host() {
    let host = Host {
        group: "db".to_string(),
        host: "10.0.0.5".to_string(),
        label: "db1".to_string(),
    };
    let mut info_box = InfoBox::new(6, 80);
    info_box.write("stale".to_string());
    info_box.show(&host, "10.0.0.5 up");
    assert_eq!(
        info_box.contents(),
        " \n \nhost: 10.0.0.5\ngroup: db\nlabel: db1\ninfo: 10.0.0.5 up"
    );
}

#[test]
fn info_box_of_two_rows_shows_the_last_two_lines_of_the_detail() {
    let host = Host {
        group: "db".to_string(),
        host: "10.0.0.5".to_string(),
        label: "db1".to_string(),
    };
    let mut info_box = InfoBox::new(2, 80);
    info_box.show(&host, "10.0.0.5 down");
    assert_eq!(info_box.contents(), "label: db1\ninfo: 10.0.0.5 down");
    let mut one = InfoBox::new(1, 80);
    one.show(&host, "10.0.0.5 down");
    assert_eq!(one.contents(), "info: 10.0.0.5 down");
}

#[test]
fn text_buffer_with_and_without_a_mark() {
    let mut plain = TextBuffer::new(2, 80, None);
    let mut marked = TextBuffer::new(2, 80, Some('_'));
    plain.write("ab");
    marked.write("ab");
    assert_eq!(plain.contents(), " \nab");
    assert_eq!(marked.contents(), " \nab_");
    plain.write_char('c');
    marked.write_char('c');
    plain.scroll();
    marked.scroll();
    assert_eq!(plain.contents(), "abc\n ");
    assert_eq!(marked.contents(), "abc\n _");
}

#[test]
fn collapse_joins_the_rows_by_line_breaks() {
    let lines = vec!["a".to_string(), String::new(), "c".to_string()];
    assert_eq!(collapse(&lines), "a\n \nc");
    assert_eq!(collapse(&vec![String::new()]), " ");
    assert_eq!(collapse(&vec!["only".to_string()]), "only");
}

#[test]
fn blank_gives_empty_rows() {
    assert_eq!(blank(0), Vec::<String>::new());
    assert_eq!(blank(3), vec![String::new(), String::new(), String::new()]);
}
