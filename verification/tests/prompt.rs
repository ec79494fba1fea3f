use tenere::buffer::Buffer;
use tenere::key::{KeyCode, KeyEvent, KeyModifiers};
use tenere::prompt::{Mode, Prompt};
use tenere::style::{BlockStyle, BorderColor, BorderType, FocusedBlock};
use tenere::ui::Rect;

fn chars_of(s: &str) -> Vec<char> {
    s.chars().collect()
}

fn lines_of(p: &Prompt) -> Vec<String> {
    p.editor.lines().iter().map(|l| l.iter().collect()).collect()
}

fn press(p: &mut Prompt, c: char) {
    p.key_binding(KeyEvent::char(c), None);
}

fn press_all(p: &mut Prompt, keys: &str) {
    for c in keys.chars() {
        press(p, c);
    }
}

fn prompt_with(text: &str, row: usize, col: usize) -> Prompt {
    let mut p = Prompt::new();
    p.editor = Buffer::from_text(&chars_of(text));
    p.editor.jump(row, col);
    p
}

#[test]
fn new_prompt_is_normal_and_empty() {
    let p = Prompt::new();
    assert_eq!(p.mode, Mode::Normal);
    assert_eq!(p.previous_key, KeyCode::Null);
    assert_eq!(lines_of(&p), vec![String::new()]);
    assert_eq!(
        p.block,
        BlockStyle { border_type: BorderType::Thick, border_color: BorderColor::Default }
    );
    let d = Prompt::default();
    assert_eq!(d.mode, Mode::Normal);
    assert_eq!(lines_of(&d), vec![String::new()]);
}

#[test]
fn dd_deletes_first_line() {
    let mut p = prompt_with("abc\ndef", 0, 1);
    press_all(&mut p, "dd");
    assert_eq!(lines_of(&p), vec!["def"]);
    assert_eq!(p.editor.cursor(), (0, 0));
}

#[test]
fn typing_hi_then_escape() {
    let mut p = Prompt::new();
    press(&mut p, 'i');
    assert_eq!(p.mode, Mode::Insert);
    press_all(&mut p, "hi");
    p.key_binding(KeyEvent::new(KeyCode::Esc), None);
    assert_eq!(lines_of(&p), vec!["hi"]);
    assert_eq!(p.mode, Mode::Normal);
    assert_eq!(p.editor.cursor(), (0, 2));
}

#[test]
fn gg_jumps_to_document_start() {
    let mut p = prompt_with("abc\ndef", 1, 2);
    press(&mut p, 'g');
    assert_eq!(p.editor.cursor(), (1, 2));
    press(&mut p, 'g');
    assert_eq!(p.editor.cursor(), (0, 0));
}

#[test]
fn g_x_g_does_not_jump() {
    let mut p = prompt_with("abc\ndef", 1, 1);
    press_all(&mut p, "gxg");
    assert_eq!(lines_of(&p), vec!["abc", "df"]);
    assert_eq!(p.editor.cursor(), (1, 1));
    assert_eq!(p.previous_key, KeyCode::Char('g'));
}

#[test]
fn d_x_d_does_not_delete_line() {
    let mut p = prompt_with("abc\ndef", 0, 0);
    press_all(&mut p, "dxd");
    assert_eq!(lines_of(&p), vec!["bc", "def"]);
}

#[test]
fn yank_then_paste_round_trip() {
    let mut p = prompt_with("hello world", 0, 6);
    press(&mut p, 'v');
    assert_eq!(p.mode, Mode::Visual);
    press(&mut p, '$');
    let mirror = p.key_binding(KeyEvent::char('y'), None);
    assert_eq!(mirror, Some(chars_of("world")));
    press(&mut p, 'p');
    assert_eq!(lines_of(&p), vec!["hello worldworld"]);
    assert_eq!(p.editor.cursor(), (0, 16));
}

#[test]
fn yank_without_selection_mirrors_line() {
    let mut p = prompt_with("ab\ncd", 1, 1);
    let mirror = p.key_binding(KeyEvent::char('y'), None);
    assert_eq!(mirror, Some(chars_of("cd")));
    assert_eq!(p.editor.yank_text(), &chars_of("cd"));
}

#[test]
fn other_keys_mirror_nothing() {
    let mut p = prompt_with("ab", 0, 0);
    assert_eq!(p.key_binding(KeyEvent::char('x'), None), None);
    press(&mut p, 'i');
    assert_eq!(p.key_binding(KeyEvent::char('y'), None), None);
    assert_eq!(lines_of(&p), vec!["yb"]);
}

#[test]
fn paste_falls_back_to_clipboard() {
    let mut p = prompt_with("ab", 0, 1);
    let key = KeyEvent::char('p');
    assert!(p.wants_clipboard(&key));
    let clip = chars_of("X\nY");
    p.key_binding(key, Some(&clip));
    assert_eq!(lines_of(&p), vec!["aX", "Yb"]);
}

#[test]
fn paste_prefers_register() {
    let mut p = prompt_with("ab", 0, 0);
    press(&mut p, 'y');
    let key = KeyEvent::char('p');
    assert!(!p.wants_clipboard(&key));
    let clip = chars_of("zz");
    p.key_binding(key, Some(&clip));
    assert_eq!(lines_of(&p), vec!["abab"]);
}

#[test]
fn paste_without_register_or_clipboard_is_noop() {
    let mut p = prompt_with("ab", 0, 1);
    press(&mut p, 'p');
    assert_eq!(lines_of(&p), vec!["ab"]);
    assert_eq!(p.editor.undo_depth(), 0);
}

#[test]
fn wants_clipboard_only_for_p_outside_insert() {
    let mut p = Prompt::new();
    assert!(!p.wants_clipboard(&KeyEvent::char('y')));
    assert!(p.wants_clipboard(&KeyEvent::char('p')));
    press(&mut p, 'i');
    assert!(!p.wants_clipboard(&KeyEvent::char('p')));
}

#[test]
fn insert_mode_keys() {
    let mut p = Prompt::new();
    press(&mut p, 'i');
    press_all(&mut p, "ab");
    p.key_binding(KeyEvent::new(KeyCode::Enter), None);
    press(&mut p, 'c');
    assert_eq!(lines_of(&p), vec!["ab", "c"]);
    p.key_binding(KeyEvent::new(KeyCode::Backspace), None);
    p.key_binding(KeyEvent::new(KeyCode::Backspace), None);
    assert_eq!(lines_of(&p), vec!["ab"]);
    assert_eq!(p.editor.cursor(), (0, 2));
    p.key_binding(KeyEvent::new(KeyCode::Left), None);
    assert_eq!(p.editor.cursor(), (0, 2));
    assert_eq!(p.mode, Mode::Insert);
}

#[test]
fn visual_toggles() {
    let mut p = prompt_with("abc", 0, 1);
    press(&mut p, 'v');
    assert_eq!(p.mode, Mode::Visual);
    assert_eq!(p.editor.selection_start(), Some((0, 1)));
    assert_eq!(p.block.border_color, BorderColor::Yellow);
    press(&mut p, 'v');
    assert_eq!(p.mode, Mode::Normal);
    assert!(!p.editor.is_selecting());
}

#[test]
fn escape_leaves_visual() {
    let mut p = prompt_with("abc", 0, 1);
    press(&mut p, 'v');
    press(&mut p, 'l');
    p.key_binding(KeyEvent::new(KeyCode::Esc), None);
    assert_eq!(p.mode, Mode::Normal);
    assert!(!p.editor.is_selecting());
    assert_eq!(p.editor.cursor(), (0, 2));
}

#[test]
fn insert_never_holds_selection() {
    for key in ["i", "a", "A", "o", "O", "I", "C"] {
        let mut p = prompt_with("abc def", 0, 2);
        press(&mut p, 'v');
        press(&mut p, 'l');
        press_all(&mut p, key);
        assert_eq!(p.mode, Mode::Insert);
        assert!(!p.editor.is_selecting());
        assert_eq!(p.block.border_color, BorderColor::Green);
    }
}

#[test]
fn hjkl_and_arrows_move() {
    let mut p = prompt_with("abc\ndef", 0, 1);
    press(&mut p, 'l');
    assert_eq!(p.editor.cursor(), (0, 2));
    press(&mut p, 'j');
    assert_eq!(p.editor.cursor(), (1, 2));
    press(&mut p, 'h');
    assert_eq!(p.editor.cursor(), (1, 1));
    press(&mut p, 'k');
    assert_eq!(p.editor.cursor(), (0, 1));
    p.key_binding(KeyEvent::new(KeyCode::Right), None);
    p.key_binding(KeyEvent::new(KeyCode::Down), None);
    assert_eq!(p.editor.cursor(), (1, 2));
    p.key_binding(KeyEvent::new(KeyCode::Left), None);
    p.key_binding(KeyEvent::new(KeyCode::Up), None);
    assert_eq!(p.editor.cursor(), (0, 1));
}

#[test]
fn motions_with_modifier_are_ignored() {
    let mut p = prompt_with("abc\ndef", 0, 1);
    let held = KeyModifiers { bits: 2 };
    for code in [
        KeyCode::Char('h'),
        KeyCode::Char('j'),
        KeyCode::Char('k'),
        KeyCode::Char('l'),
        KeyCode::Left,
        KeyCode::Right,
        KeyCode::Up,
        KeyCode::Down,
    ] {
        p.key_binding(KeyEvent { code, modifiers: held }, None);
        assert_eq!(p.editor.cursor(), (0, 1));
        assert_eq!(p.previous_key, code);
    }
}

#[test]
fn word_motions() {
    let mut p = prompt_with("foo bar", 0, 0);
    press(&mut p, 'w');
    assert_eq!(p.editor.cursor(), (0, 4));
    press(&mut p, 'b');
    assert_eq!(p.editor.cursor(), (0, 0));
    press(&mut p, '$');
    assert_eq!(p.editor.cursor(), (0, 7));
    press(&mut p, '0');
    assert_eq!(p.editor.cursor(), (0, 0));
    press(&mut p, 'l');
    press(&mut p, '^');
    assert_eq!(p.editor.cursor(), (0, 0));
}

#[test]
fn d_then_motion_deletes() {
    let mut p = prompt_with("foo bar baz", 0, 4);
    press_all(&mut p, "dw");
    assert_eq!(lines_of(&p), vec!["foo  baz"]);
    assert_eq!(p.editor.cursor(), (0, 4));
    let mut p = prompt_with("foo bar baz", 0, 7);
    press_all(&mut p, "db");
    assert_eq!(lines_of(&p), vec!["foo  baz"]);
    assert_eq!(p.editor.cursor(), (0, 4));
    let mut p = prompt_with("foo bar baz", 0, 4);
    press_all(&mut p, "d$");
    assert_eq!(lines_of(&p), vec!["foo "]);
    let mut p = prompt_with("foo bar baz", 0, 4);
    press_all(&mut p, "d0");
    assert_eq!(lines_of(&p), vec!["bar baz"]);
    assert_eq!(p.editor.cursor(), (0, 0));
}

#[test]
fn capital_d_deletes_to_line_end() {
    let mut p = prompt_with("foo bar\nbaz", 0, 3);
    press(&mut p, 'D');
    assert_eq!(lines_of(&p), vec!["foo", "baz"]);
    assert_eq!(p.editor.cursor(), (0, 3));
    assert_eq!(p.mode, Mode::Normal);
}

#[test]
fn capital_c_changes_to_line_end() {
    let mut p = prompt_with("foo bar", 0, 3);
    press(&mut p, 'C');
    assert_eq!(lines_of(&p), vec!["foo"]);
    assert_eq!(p.mode, Mode::Insert);
}

#[test]
fn x_and_u() {
    let mut p = prompt_with("abc", 0, 1);
    press(&mut p, 'x');
    assert_eq!(lines_of(&p), vec!["ac"]);
    press(&mut p, 'u');
    assert_eq!(lines_of(&p), vec!["abc"]);
    assert_eq!(p.editor.cursor(), (0, 1));
    press(&mut p, 'u');
    assert_eq!(lines_of(&p), vec!["abc"]);
}

#[test]
fn insert_relative_to_motion() {
    let mut p = prompt_with("abc", 0, 1);
    press(&mut p, 'a');
    assert_eq!((p.mode, p.editor.cursor()), (Mode::Insert, (0, 2)));
    let mut p = prompt_with("abc", 0, 1);
    press(&mut p, 'A');
    assert_eq!((p.mode, p.editor.cursor()), (Mode::Insert, (0, 3)));
    let mut p = prompt_with("abc", 0, 1);
    press(&mut p, 'I');
    assert_eq!((p.mode, p.editor.cursor()), (Mode::Insert, (0, 0)));
    let mut p = prompt_with("abc\ndef", 0, 1);
    press(&mut p, 'o');
    assert_eq!(lines_of(&p), vec!["abc", "", "def"]);
    assert_eq!((p.mode, p.editor.cursor()), (Mode::Insert, (1, 0)));
    let mut p = prompt_with("abc\ndef", 1, 1);
    press(&mut p, 'O');
    assert_eq!(lines_of(&p), vec!["abc", "", "def"]);
    assert_eq!((p.mode, p.editor.cursor()), (Mode::Insert, (1, 0)));
}

#[test]
fn capital_g_goes_to_last_line() {
    let mut p = prompt_with("abcdef\nab", 0, 4);
    press(&mut p, 'G');
    assert_eq!(p.editor.cursor(), (1, 2));
}

#[test]
fn unbound_keys_do_nothing_but_are_remembered() {
    let mut p = prompt_with("abc", 0, 1);
    press(&mut p, 'z');
    p.key_binding(KeyEvent::new(KeyCode::Enter), None);
    p.key_binding(KeyEvent::new(KeyCode::Other), None);
    assert_eq!(lines_of(&p), vec!["abc"]);
    assert_eq!(p.editor.cursor(), (0, 1));
    assert_eq!(p.mode, Mode::Normal);
    assert_eq!(p.previous_key, KeyCode::Other);
}

#[test]
fn clear_empties_the_prompt() {
    let mut p = prompt_with("abc\ndef", 1, 1);
    press(&mut p, 'x');
    p.clear();
    assert_eq!(lines_of(&p), vec![String::new()]);
    assert_eq!(p.editor.cursor(), (0, 0));
    assert_eq!(p.editor.undo_depth(), 0);
}

#[test]
fn update_styles_by_focus_and_mode() {
    let mut p = Prompt::new();
    p.update(&FocusedBlock::Chat);
    assert_eq!(
        p.block,
        BlockStyle { border_type: BorderType::Rounded, border_color: BorderColor::Default }
    );
    p.mode = Mode::Insert;
    p.update(&FocusedBlock::Prompt);
    assert_eq!(
        p.block,
        BlockStyle { border_type: BorderType::Thick, border_color: BorderColor::Green }
    );
    p.mode = Mode::Visual;
    p.update(&FocusedBlock::Prompt);
    assert_eq!(p.block.border_color, BorderColor::Yellow);
    p.update(&FocusedBlock::History);
    assert_eq!(p.block.border_type, BorderType::Rounded);
}

#[test]
fn height_counts_lines_and_wraps() {
    let frame = Rect { x: 0, y: 0, width: 10, height: 100 };
    let p = Prompt::new();
    assert_eq!(p.height(&frame), 2);
    let p = prompt_with("abc\n0123456789012345678901234", 0, 0);
    assert_eq!(p.height(&frame), 1 + 1 + 3);
}

#[test]
fn height_uses_display_width() {
    let frame = Rect { x: 0, y: 0, width: 10, height: 100 };
    let p = prompt_with("日本語日本語", 0, 0);
    assert_eq!(p.height(&frame), 1 + 1 + 1);
    let p = prompt_with("abcdef", 0, 0);
    assert_eq!(p.height(&frame), 1 + 1);
}

#[test]
fn height_narrows_a_line_of_65536_columns() {
    let frame = Rect { x: 0, y: 0, width: 1, height: 10 };
    let wide: String = "a".repeat(65536);
    let p = prompt_with(&wide, 0, 0);
    assert_eq!(p.height(&frame), 2);
    let p = prompt_with(&wide[1..], 0, 0);
    assert_eq!(p.height(&frame), 4);
    let frame = Rect { x: 0, y: 0, width: 1, height: u16::MAX };
    assert_eq!(p.height(&frame), 26214);
}

#[test]
fn carriage_return_breaks_the_line() {
    let mut p = prompt_with("abcd", 0, 2);
    press(&mut p, 'i');
    press(&mut p, '\r');
    assert_eq!(lines_of(&p), vec!["ab", "cd"]);
    assert_eq!(p.editor.cursor(), (1, 0));
    press(&mut p, '\n');
    assert_eq!(lines_of(&p), vec!["ab", "", "cd"]);
}

#[test]
fn height_is_capped_at_two_fifths() {
    let frame = Rect { x: 0, y: 0, width: 10, height: 10 };
    let p = prompt_with("a\nb\nc\nd\ne\nf", 0, 0);
    assert_eq!(p.height(&frame), 4);
}

#[test]
fn keys_keep_cursor_inside() {
    let keys = "ihello world\ndxdwbjklhGggvyp$0^DCuxaAoOIzv";
    let mut p = prompt_with("one two\n\nthree", 0, 0);
    let mut seed: u64 = 99;
    let all: Vec<char> = keys.chars().collect();
    for _ in 0..5000 {
        seed = seed.wrapping_mul(6364136223846793005).wrapping_add(1442695040888963407);
        let pick = (seed >> 33) as usize % (all.len() + 2);
        if pick == all.len() {
            p.key_binding(KeyEvent::new(KeyCode::Esc), None);
        } else if pick == all.len() + 1 {
            p.key_binding(KeyEvent::new(KeyCode::Backspace), None);
        } else {
            p.key_binding(KeyEvent::char(all[pick]), None);
        }
        let (row, col) = p.editor.cursor();
        assert!(row < p.editor.lines().len());
        assert!(col <= p.editor.lines()[row].len());
        assert!(p.mode != Mode::Insert || !p.editor.is_selecting());
    }
}
