use text_viewer::contents::EditorContents;
use text_viewer::cursor::Direction;
use text_viewer::keys::{KeyCode, KeyEvent, KeyModifiers};
use text_viewer::output::{clip, Output};
use text_viewer::rows::EditorRows;

const HIDE: &str = "\x1b[?25l";
const SHOW: &str = "\x1b[?25h";
const HOME: &str = "\x1b[1;1H";
const ERASE: &str = "\x1b[K";

fn plain(code: KeyCode) -> KeyEvent {
    KeyEvent::new(code, KeyModifiers::none())
}

fn control_q() -> KeyEvent {
    KeyEvent::new(KeyCode::Char('q'), KeyModifiers::control())
}

fn numbered(n: usize) -> EditorRows {
    let mut text = String::new();
    for i in 0..n {
        text.push_str(&format!("line {}\n", i));
    }
    EditorRows::from_text(&text)
}

/// What each window row of a frame shows, and where the frame leaves the cursor.
fn parts(frame: &str) -> (Vec<String>, String) {
    let body = frame.strip_prefix(HIDE).unwrap().strip_prefix(HOME).unwrap();
    let body = body.strip_suffix(SHOW).unwrap();
    let at = body.rfind("\x1b[").unwrap();
    let (rows, cursor) = body.split_at(at);
    let shown = rows.split("\r\n").map(|r| r.strip_suffix(ERASE).unwrap().to_string()).collect();
    (shown, cursor.to_string())
}

#[test]
fn clip_keeps_a_short_line() {
    assert_eq!(clip("abc", 5), "abc");
    assert_eq!(clip("abcde", 5), "abcde");
    assert_eq!(clip("", 5), "");
    assert_eq!(clip("", 0), "");
}

#[test]
fn clip_cuts_a_long_line_to_the_window() {
    assert_eq!(clip("abcdef", 5), "abcde");
    assert_eq!(clip("abcdef", 1), "a");
    assert_eq!(clip("abcdef", 0), "");
}

#[test]
fn clip_counts_characters_and_not_bytes() {
    assert_eq!(clip("ééééé", 3), "ééé");
    assert_eq!(clip("a☕b☕c", 2), "a☕");
    assert_eq!(clip("a☕b☕c", 4), "a☕b☕");
    assert_eq!(clip("日本語のテキスト", 3), "日本語");
    assert_eq!(clip("\u{1F600}\u{1F600}", 1), "\u{1F600}");
    assert_eq!(clip("ééé", 3), "ééé");
    assert_eq!(clip("日本語のテキスト", 3).chars().count(), 3);
}

#[test]
fn new_output_shows_the_document_from_its_start() {
    let out = Output::new((80, 24), numbered(3));
    assert_eq!(out.win_size(), (80, 24));
    assert_eq!(out.cursor_position(), (0, 0));
    assert_eq!(out.row_offset(), 0);
    assert_eq!(out.editor_rows().number_of_rows(), 3);
    assert_eq!(out.editor_rows().get_row(2), "line 2");
}

#[test]
fn frame_of_a_small_document() {
    let rows = EditorRows::from_text("hello\nwörld is long\n");
    let mut out = Output::new((5, 3), rows);
    let frame = out.refresh_screen();
    assert_eq!(
        frame,
        "\x1b[?25l\x1b[1;1Hhello\x1b[K\r\nwörld\x1b[K\r\n~\x1b[K\x1b[1;1H\x1b[?25h"
    );
}

#[test]
fn frame_of_one_row_has_no_line_break() {
    let mut out = Output::new((5, 1), EditorRows::from_text("hello"));
    assert_eq!(out.refresh_screen(), "\x1b[?25l\x1b[1;1Hhello\x1b[K\x1b[1;1H\x1b[?25h");
}

#[test]
fn frame_without_rows_only_places_the_cursor() {
    let mut out = Output::new((5, 0), EditorRows::from_text("hello"));
    assert_eq!(out.refresh_screen(), "\x1b[?25l\x1b[1;1H\x1b[1;1H\x1b[?25h");
}

#[test]
fn draw_rows_appends_the_rows_only() {
    let out = Output::new((4, 2), EditorRows::from_text("abcdef\nxy"));
    let mut contents = EditorContents::new();
    out.draw_rows(&mut contents);
    assert_eq!(contents.as_str(), "abcd\x1b[K\r\nxy\x1b[K");
    contents.push('|');
    out.draw_rows(&mut contents);
    assert_eq!(contents.as_str(), "abcd\x1b[K\r\nxy\x1b[K|abcd\x1b[K\r\nxy\x1b[K");
}

#[test]
fn a_frame_holds_nothing_of_the_frame_before() {
    let mut out = Output::new((4, 2), EditorRows::from_text("abcdef\nxy"));
    let first = out.refresh_screen();
    assert_eq!(first, "\x1b[?25l\x1b[1;1Habcd\x1b[K\r\nxy\x1b[K\x1b[1;1H\x1b[?25h");
    out.move_cursor(Direction::Right);
    let second = out.refresh_screen();
    assert_eq!(second, "\x1b[?25l\x1b[1;1Habcd\x1b[K\r\nxy\x1b[K\x1b[1;2H\x1b[?25h");
}

#[test]
fn a_long_line_fills_the_window_exactly() {
    let text = "0123456789abcdefghij\nééééééééééééééé\nshort";
    let mut out = Output::new((10, 4), EditorRows::from_text(text));
    let (rows, _) = parts(&out.refresh_screen());
    assert_eq!(rows, vec!["0123456789", "éééééééééé", "short", "~"]);
    assert_eq!(rows[0].chars().count(), 10);
    assert_eq!(rows[1].chars().count(), 10);
}

#[test]
fn welcome_banner_in_a_window_of_40_by_21() {
    let mut out = Output::new((40, 21), EditorRows::new());
    let (rows, cursor) = parts(&out.refresh_screen());
    assert_eq!(rows.len(), 21);
    for (i, row) in rows.iter().enumerate() {
        if i == 7 {
            assert_eq!(row, "~            Rust Text Editor");
            assert_eq!(row, &format!("~{}Rust Text Editor", " ".repeat((40 - 16) / 2)));
            assert_eq!(row.chars().filter(|c| *c == ' ').count(), 12 + 2);
            assert_eq!(row.chars().count(), 1 + 12 + 16);
        } else {
            assert_eq!(row, "~");
        }
    }
    assert_eq!(cursor, "\x1b[1;1H");
}

#[test]
fn welcome_banner_in_narrow_windows() {
    let banner_row = |columns: usize| {
        let mut out = Output::new((columns, 3), EditorRows::new());
        let (rows, _) = parts(&out.refresh_screen());
        assert_eq!(rows[0], "~");
        assert_eq!(rows[2], "~");
        rows[1].clone()
    };
    assert_eq!(banner_row(1), "R");
    assert_eq!(banner_row(10), "Rust Text ");
    assert_eq!(banner_row(16), "Rust Text Editor");
    assert_eq!(banner_row(17), "Rust Text Editor");
    assert_eq!(banner_row(18), "~ Rust Text Editor");
    assert_eq!(banner_row(19), "~ Rust Text Editor");
    assert_eq!(banner_row(20), "~  Rust Text Editor");
    assert_eq!(banner_row(80), format!("~{}Rust Text Editor", " ".repeat(32)));
    for columns in 1..120 {
        assert!(banner_row(columns).chars().count() <= columns);
    }
}

#[test]
fn welcome_banner_only_for_an_empty_document() {
    let mut out = Output::new((40, 6), EditorRows::from_text("x"));
    let (rows, _) = parts(&out.refresh_screen());
    assert_eq!(rows, vec!["x", "~", "~", "~", "~", "~"]);
    let mut out = Output::new((40, 6), EditorRows::from_text("\n"));
    let (rows, _) = parts(&out.refresh_screen());
    assert_eq!(rows, vec!["", "~", "~", "~", "~", "~"]);
}

#[test]
fn welcome_banner_row_is_a_third_of_the_rows() {
    for (rows, banner_at) in [(1usize, 0usize), (2, 0), (3, 1), (5, 1), (6, 2), (24, 8)] {
        let mut out = Output::new((40, rows), EditorRows::new());
        let (shown, _) = parts(&out.refresh_screen());
        for (i, row) in shown.iter().enumerate() {
            assert_eq!(row != "~", i == banner_at, "rows {} row {}", rows, i);
        }
    }
}

#[test]
fn down_four_times_in_five_lines_scrolls_a_window_of_three_rows_by_two() {
    let mut out = Output::new((80, 3), numbered(5));
    for _ in 0..4 {
        out.move_cursor(Direction::Down);
    }
    assert_eq!(out.cursor_position(), (0, 4));
    assert_eq!(out.row_offset(), 0);
    let (rows, cursor) = parts(&out.refresh_screen());
    assert_eq!(out.row_offset(), 2);
    assert_eq!(rows, vec!["line 2", "line 3", "line 4"]);
    assert_eq!(cursor, "\x1b[5;1H");
}

#[test]
fn the_cursor_may_stand_one_row_past_the_last_line() {
    let mut out = Output::new((80, 3), numbered(5));
    for _ in 0..9 {
        out.move_cursor(Direction::Down);
    }
    assert_eq!(out.cursor_position(), (0, 5));
    let (rows, _) = parts(&out.refresh_screen());
    assert_eq!(out.row_offset(), 3);
    assert_eq!(rows, vec!["line 3", "line 4", "~"]);
}

#[test]
fn the_frame_tells_the_cursor_place_in_decimal_from_one() {
    let mut out = Output::new((200, 50), numbered(150));
    for _ in 0..11 {
        out.move_cursor(Direction::Down);
    }
    for _ in 0..9 {
        out.move_cursor(Direction::Right);
    }
    let (_, cursor) = parts(&out.refresh_screen());
    assert_eq!(cursor, "\x1b[12;10H");
    for _ in 0..100 {
        out.move_cursor(Direction::Down);
    }
    out.move_cursor(Direction::End);
    let (_, cursor) = parts(&out.refresh_screen());
    assert_eq!(cursor, "\x1b[112;200H");
    out.move_cursor(Direction::Home);
    for _ in 0..12 {
        out.move_cursor(Direction::Up);
    }
    let (_, cursor) = parts(&out.refresh_screen());
    assert_eq!(cursor, "\x1b[100;1H");
}

#[test]
fn the_frame_tells_the_cursor_place_in_sixteen_bits() {
    let mut out = Output::new((80, 2), EditorRows::from_text(&"\n".repeat(70000)));
    assert_eq!(out.editor_rows().number_of_rows(), 70000);
    for _ in 0..65534 {
        out.move_cursor(Direction::Down);
    }
    assert!(out.can_refresh());
    let (_, cursor) = parts(&out.refresh_screen());
    assert_eq!(cursor, "\x1b[65535;1H");
    out.move_cursor(Direction::Down);
    assert_eq!(out.cursor_position(), (0, 65535));
    assert!(!out.can_refresh());
    out.move_cursor(Direction::Down);
    assert_eq!(out.cursor_position(), (0, 65536));
    assert!(out.can_refresh());
    let (_, cursor) = parts(&out.refresh_screen());
    assert_eq!(cursor, "\x1b[1;1H");
    assert_eq!(out.row_offset(), 65535);
    out.move_cursor(Direction::Down);
    out.move_cursor(Direction::Right);
    let (_, cursor) = parts(&out.refresh_screen());
    assert_eq!(cursor, "\x1b[2;2H");
}

#[test]
fn a_window_without_rows_can_be_refreshed() {
    let mut out = Output::new((80, 0), numbered(3));
    out.move_cursor(Direction::Down);
    assert!(out.can_refresh());
    assert_eq!(out.refresh_screen(), "\x1b[?25l\x1b[1;1H\x1b[2;1H\x1b[?25h");
    assert_eq!(out.row_offset(), 2);
}

#[test]
fn refresh_twice_gives_the_same_frame() {
    let mut out = Output::new((20, 4), numbered(30));
    for _ in 0..17 {
        out.move_cursor(Direction::Down);
    }
    let first = out.refresh_screen();
    let offset = out.row_offset();
    let second = out.refresh_screen();
    assert_eq!(first, second);
    assert_eq!(out.row_offset(), offset);
    assert_eq!(offset, 14);
}

#[test]
fn clear_screen_erases_all_and_sends_the_cursor_home() {
    assert_eq!(Output::clear_screen(), "\x1b[2J\x1b[1;1H");
}

#[test]
fn page_down_over_an_empty_document_stays() {
    let mut out = Output::new((80, 10), EditorRows::new());
    assert!(out.process_keypress(plain(KeyCode::PageDown)));
    assert_eq!(out.cursor_position(), (0, 0));
    let mut by_hand = Output::new((80, 10), EditorRows::new());
    for _ in 0..10 {
        assert!(by_hand.process_keypress(plain(KeyCode::Down)));
    }
    assert_eq!(by_hand.cursor_position(), out.cursor_position());
}

#[test]
fn page_keys_move_by_the_window_rows() {
    let mut out = Output::new((80, 10), numbered(25));
    assert!(out.process_keypress(plain(KeyCode::PageDown)));
    assert_eq!(out.cursor_position(), (0, 10));
    assert!(out.process_keypress(plain(KeyCode::PageDown)));
    assert_eq!(out.cursor_position(), (0, 20));
    assert!(out.process_keypress(plain(KeyCode::PageDown)));
    assert_eq!(out.cursor_position(), (0, 25));
    assert!(out.process_keypress(plain(KeyCode::PageUp)));
    assert_eq!(out.cursor_position(), (0, 15));
    assert!(out.process_keypress(plain(KeyCode::PageUp)));
    assert_eq!(out.cursor_position(), (0, 5));
    assert!(out.process_keypress(plain(KeyCode::PageUp)));
    assert_eq!(out.cursor_position(), (0, 0));
    assert_eq!(out.row_offset(), 0);
}

#[test]
fn page_down_is_as_many_downs_as_the_window_has_rows() {
    for lines in [0usize, 1, 7, 8, 9, 30] {
        let mut paged = Output::new((80, 8), numbered(lines));
        let mut stepped = Output::new((80, 8), numbered(lines));
        for _ in 0..3 {
            paged.process_keypress(plain(KeyCode::PageDown));
            for _ in 0..8 {
                stepped.process_keypress(plain(KeyCode::Down));
            }
            assert_eq!(paged.cursor_position(), stepped.cursor_position());
        }
    }
}

#[test]
fn movement_keys_move_the_cursor() {
    let mut out = Output::new((80, 10), numbered(25));
    assert!(out.process_keypress(plain(KeyCode::Down)));
    assert!(out.process_keypress(plain(KeyCode::Down)));
    assert!(out.process_keypress(plain(KeyCode::Right)));
    assert_eq!(out.cursor_position(), (1, 2));
    assert!(out.process_keypress(plain(KeyCode::End)));
    assert_eq!(out.cursor_position(), (79, 2));
    assert!(out.process_keypress(plain(KeyCode::Left)));
    assert!(out.process_keypress(plain(KeyCode::Up)));
    assert_eq!(out.cursor_position(), (78, 1));
    assert!(out.process_keypress(plain(KeyCode::Home)));
    assert_eq!(out.cursor_position(), (0, 1));
}

#[test]
fn keys_that_ask_for_nothing_change_nothing() {
    let mut out = Output::new((80, 10), numbered(25));
    out.move_cursor(Direction::Down);
    out.move_cursor(Direction::Right);
    assert!(out.process_keypress(plain(KeyCode::Char('q'))));
    assert!(out.process_keypress(plain(KeyCode::Other)));
    assert!(out.process_keypress(KeyEvent::new(KeyCode::Down, KeyModifiers::control())));
    let shift = KeyModifiers { shift: true, control: false, alt: false };
    assert!(out.process_keypress(KeyEvent::new(KeyCode::PageDown, shift)));
    assert_eq!(out.cursor_position(), (1, 1));
    assert_eq!(out.row_offset(), 0);
}

#[test]
fn control_q_ends_the_session_and_changes_nothing() {
    let mut out = Output::new((80, 10), numbered(25));
    assert!(!out.process_keypress(control_q()));
    assert_eq!(out.cursor_position(), (0, 0));
    for _ in 0..13 {
        out.move_cursor(Direction::Down);
    }
    out.move_cursor(Direction::Right);
    out.refresh_screen();
    assert!(!out.process_keypress(control_q()));
    assert_eq!(out.cursor_position(), (1, 13));
    assert_eq!(out.row_offset(), 4);
}

#[test]
fn a_session_ends_at_the_first_control_q() {
    let keys = [
        plain(KeyCode::Down),
        plain(KeyCode::PageDown),
        plain(KeyCode::Char('x')),
        control_q(),
        plain(KeyCode::Down),
        control_q(),
    ];
    let mut out = Output::new((80, 10), numbered(25));
    let mut frames = 0;
    let mut read = 0;
    for key in keys {
        out.refresh_screen();
        frames += 1;
        read += 1;
        if !out.process_keypress(key) {
            break;
        }
    }
    assert_eq!(read, 4);
    assert_eq!(frames, 4);
    assert_eq!(out.cursor_position(), (0, 11));
}
