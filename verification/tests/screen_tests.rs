use mprocs::screen::Screen;

fn feed(s: &mut Screen, bytes: &[u8]) {
    s.feed(bytes);
}

#[test]
fn blank_screen_has_sizes() {
    let s = Screen::new(3, 10, 100);
    assert_eq!(s.size(), (3, 10));
    assert_eq!(s.scrollback_len(), 0);
}

#[test]
fn sizes_are_clamped_to_at_least_one() {
    let s = Screen::new(0, 0, 100);
    assert_eq!(s.size(), (1, 1));
}

#[test]
fn plain_text_lands_in_the_grid() {
    let mut s = Screen::new(3, 10, 100);
    feed(&mut s, b"hello");
    let text = s.get_selected_text(0, 0, 4, 0);
    assert_eq!(text, "hello");
}

#[test]
fn selection_spans_rows_with_newlines() {
    let mut s = Screen::new(3, 10, 100);
    feed(&mut s, b"hello\r\nworld");
    let text = s.get_selected_text(0, 0, 4, 1);
    assert_eq!(text, "hello     \nworld");
}

#[test]
fn carriage_return_overwrites() {
    let mut s = Screen::new(2, 8, 100);
    feed(&mut s, b"abc\rxy");
    let text = s.get_selected_text(0, 0, 2, 0);
    assert_eq!(text, "xyc");
}

#[test]
fn lines_scroll_into_history() {
    let mut s = Screen::new(2, 6, 100);
    feed(&mut s, b"one\r\ntwo\r\nthree");
    assert_eq!(s.scrollback_len(), 1);
    // row -1 addresses the line that scrolled off
    let text = s.get_selected_text(0, -1, 2, -1);
    assert_eq!(text, "one");
}

#[test]
fn scrollback_is_bounded() {
    let mut s = Screen::new(1, 4, 2);
    feed(&mut s, b"a\r\nb\r\nc\r\nd\r\ne");
    assert_eq!(s.scrollback_len(), 2);
}

#[test]
fn view_offset_clamps_to_history() {
    let mut s = Screen::new(2, 6, 100);
    feed(&mut s, b"one\r\ntwo\r\nthree");
    s.scroll_up_view(50);
    // only one line of history exists
    let row = s.display_row(0);
    let chars: String = row.iter().map(|c| c.ch).collect();
    assert_eq!(chars, "one   ");
    s.scroll_down_view(50);
    let row = s.display_row(0);
    let chars: String = row.iter().map(|c| c.ch).collect();
    assert_eq!(chars, "two   ");
}

#[test]
fn cursor_positioning_sequence() {
    let mut s = Screen::new(3, 10, 100);
    feed(&mut s, b"abcdef");
    // move to row 1, column 1 (1-based: row 2, col 2? no: H takes row;col)
    feed(&mut s, b"\x1b[2;2HX");
    let text = s.get_selected_text(0, 1, 2, 1);
    assert_eq!(text, " X ");
}

#[test]
fn erase_line_clears_to_the_right() {
    let mut s = Screen::new(1, 8, 100);
    feed(&mut s, b"abcdef");
    feed(&mut s, b"\x1b[1;3H\x1b[K");
    let text = s.get_selected_text(0, 0, 5, 0);
    assert_eq!(text, "ab    ");
}

#[test]
fn styles_are_recorded() {
    let mut s = Screen::new(1, 4, 100);
    feed(&mut s, b"\x1b[1;31mA");
    let row = s.display_row(0);
    assert!(row[0].style.bold);
    assert_eq!(row[0].style.fg, 2); // red is the second palette entry
    assert_eq!(row[0].ch, 'A');
}

#[test]
fn resize_keeps_scrollback_text() {
    let mut s = Screen::new(2, 6, 100);
    feed(&mut s, b"one\r\ntwo\r\nthree");
    assert_eq!(s.scrollback_len(), 1);
    s.resize(3, 6);
    // growing the screen pulls the history line back into view
    let text = s.get_selected_text(0, 0, 2, 0);
    assert_eq!(text, "one");
}

#[test]
fn mouse_mode_follows_the_childs_requests() {
    let mut s = Screen::new(3, 20, 100);
    feed(&mut s, b"plain text");
    assert!(!s.mouse_on);
    feed(&mut s, b"\x1b[?1000h\x1b[?1006h");
    assert!(s.mouse_on);
    assert!(s.mouse_sgr);
    feed(&mut s, b"\x1b[?1000l");
    assert!(!s.mouse_on);
    // an ordinary (non-private) sequence does not touch the modes
    feed(&mut s, b"\x1b[?1000h\x1b[1000l");
    assert!(s.mouse_on);
}

#[test]
fn snapshot_is_independent_of_later_output() {
    let mut s = Screen::new(1, 6, 100);
    feed(&mut s, b"first");
    let snap = s.snapshot();
    feed(&mut s, b"\rLATER");
    assert_eq!(snap.get_selected_text(0, 0, 4, 0), "first");
    assert_eq!(s.get_selected_text(0, 0, 4, 0), "LATER");
}
