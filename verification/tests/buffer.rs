use tenere::buffer::Buffer;

fn text(s: &str) -> Vec<char> {
    s.chars().collect()
}

fn shown(b: &Buffer) -> Vec<String> {
    b.lines().iter().map(|l| l.iter().collect()).collect()
}

fn inside(b: &Buffer) -> bool {
    let (row, col) = b.cursor();
    row < b.lines().len() && col <= b.lines()[row].len()
}

#[test]
fn new_buffer_is_one_empty_line() {
    let b = Buffer::new();
    assert_eq!(shown(&b), vec![String::new()]);
    assert_eq!(b.cursor(), (0, 0));
    assert!(!b.is_selecting());
    assert!(b.yank_text().is_empty());
    assert_eq!(b.undo_depth(), 0);
}

#[test]
fn from_text_breaks_lines() {
    let b = Buffer::from_text(&text("abc\n\ndef"));
    assert_eq!(shown(&b), vec!["abc", "", "def"]);
    assert_eq!(b.cursor(), (0, 0));
    assert_eq!(b.undo_depth(), 0);
}

#[test]
fn insert_char_moves_cursor() {
    let mut b = Buffer::from_text(&text("ac"));
    b.jump(0, 1);
    b.insert_char('b');
    assert_eq!(shown(&b), vec!["abc"]);
    assert_eq!(b.cursor(), (0, 2));
}

#[test]
fn insert_char_line_break_splits() {
    let mut b = Buffer::from_text(&text("abcd"));
    b.jump(0, 2);
    b.insert_char('\n');
    assert_eq!(shown(&b), vec!["ab", "cd"]);
    assert_eq!(b.cursor(), (1, 0));
}

#[test]
fn insert_char_carriage_return_splits() {
    let mut b = Buffer::from_text(&text("abcd"));
    b.jump(0, 2);
    b.insert_char('\r');
    assert_eq!(shown(&b), vec!["ab", "cd"]);
    assert_eq!(b.cursor(), (1, 0));
    assert_eq!(b.undo_depth(), 1);
}

#[test]
fn insert_text_keeps_carriage_return() {
    let mut b = Buffer::new();
    b.insert_text(&text("a\r\nb"));
    assert_eq!(shown(&b), vec!["a\r", "b"]);
    assert_eq!(b.cursor(), (1, 1));
}

#[test]
fn insert_newline_at_end() {
    let mut b = Buffer::from_text(&text("ab"));
    b.move_end();
    b.insert_newline();
    assert_eq!(shown(&b), vec!["ab", ""]);
    assert_eq!(b.cursor(), (1, 0));
}

#[test]
fn insert_text_with_breaks() {
    let mut b = Buffer::from_text(&text("ad"));
    b.jump(0, 1);
    b.insert_text(&text("b\nx\nc"));
    assert_eq!(shown(&b), vec!["ab", "x", "cd"]);
    assert_eq!(b.cursor(), (2, 1));
}

#[test]
fn insert_replaces_selection() {
    let mut b = Buffer::from_text(&text("hello world"));
    b.jump(0, 6);
    b.start_selection();
    b.move_end();
    b.insert_char('!');
    assert_eq!(shown(&b), vec!["hello !"]);
    assert_eq!(b.cursor(), (0, 7));
    assert!(!b.is_selecting());
}

#[test]
fn backspace_inside_line() {
    let mut b = Buffer::from_text(&text("abc"));
    b.jump(0, 2);
    b.delete_char_before_cursor();
    assert_eq!(shown(&b), vec!["ac"]);
    assert_eq!(b.cursor(), (0, 1));
}

#[test]
fn backspace_joins_lines() {
    let mut b = Buffer::from_text(&text("ab\ncd"));
    b.jump(1, 0);
    b.delete_char_before_cursor();
    assert_eq!(shown(&b), vec!["abcd"]);
    assert_eq!(b.cursor(), (0, 2));
}

#[test]
fn backspace_at_start_is_noop() {
    let mut b = Buffer::from_text(&text("ab"));
    b.delete_char_before_cursor();
    assert_eq!(shown(&b), vec!["ab"]);
    assert_eq!(b.cursor(), (0, 0));
}

#[test]
fn backspace_on_empty_buffer() {
    let mut b = Buffer::new();
    b.delete_char_before_cursor();
    b.delete_char_at_cursor();
    b.delete_word_forward();
    b.delete_word_backward();
    b.delete_to_line_end();
    b.delete_to_line_start();
    b.delete_current_line();
    assert_eq!(shown(&b), vec![String::new()]);
    assert_eq!(b.cursor(), (0, 0));
}

#[test]
fn delete_at_cursor() {
    let mut b = Buffer::from_text(&text("abc"));
    b.jump(0, 1);
    b.delete_char_at_cursor();
    assert_eq!(shown(&b), vec!["ac"]);
    assert_eq!(b.cursor(), (0, 1));
}

#[test]
fn delete_at_line_end_joins_next() {
    let mut b = Buffer::from_text(&text("ab\ncd"));
    b.move_end();
    b.delete_char_at_cursor();
    assert_eq!(shown(&b), vec!["abcd"]);
    assert_eq!(b.cursor(), (0, 2));
}

#[test]
fn delete_at_buffer_end_is_noop() {
    let mut b = Buffer::from_text(&text("ab"));
    b.move_end();
    b.delete_char_at_cursor();
    assert_eq!(shown(&b), vec!["ab"]);
    assert_eq!(b.cursor(), (0, 2));
}

#[test]
fn delete_to_line_end_yanks() {
    let mut b = Buffer::from_text(&text("hello world"));
    b.jump(0, 5);
    b.delete_to_line_end();
    assert_eq!(shown(&b), vec!["hello"]);
    assert_eq!(b.cursor(), (0, 5));
    assert_eq!(b.yank_text(), &text(" world"));
}

#[test]
fn delete_to_line_start_yanks() {
    let mut b = Buffer::from_text(&text("hello world"));
    b.jump(0, 6);
    b.delete_to_line_start();
    assert_eq!(shown(&b), vec!["world"]);
    assert_eq!(b.cursor(), (0, 0));
    assert_eq!(b.yank_text(), &text("hello "));
}

#[test]
fn delete_word_forward_from_word_start() {
    let mut b = Buffer::from_text(&text("foo bar baz"));
    b.delete_word_forward();
    assert_eq!(shown(&b), vec![" bar baz"]);
    assert_eq!(b.cursor(), (0, 0));
    assert_eq!(b.yank_text(), &text("foo"));
}

#[test]
fn delete_word_forward_from_space() {
    let mut b = Buffer::from_text(&text("foo   bar baz"));
    b.jump(0, 3);
    b.delete_word_forward();
    assert_eq!(shown(&b), vec!["foo baz"]);
    assert_eq!(b.cursor(), (0, 3));
}

#[test]
fn delete_word_forward_keeps_punctuation_in_word() {
    let mut b = Buffer::from_text(&text("a.b,c d"));
    b.delete_word_forward();
    assert_eq!(shown(&b), vec![" d"]);
}

#[test]
fn delete_word_backward_to_word_start() {
    let mut b = Buffer::from_text(&text("foo bar  "));
    b.move_end();
    b.delete_word_backward();
    assert_eq!(shown(&b), vec!["foo "]);
    assert_eq!(b.cursor(), (0, 4));
    assert_eq!(b.yank_text(), &text("bar  "));
}

#[test]
fn delete_word_backward_at_line_head_joins() {
    let mut b = Buffer::from_text(&text("ab\ncd"));
    b.jump(1, 0);
    b.delete_word_backward();
    assert_eq!(shown(&b), vec!["abcd"]);
    assert_eq!(b.cursor(), (0, 2));
}

#[test]
fn delete_current_line_first_of_two() {
    let mut b = Buffer::from_text(&text("abc\ndef"));
    b.jump(0, 2);
    b.delete_current_line();
    assert_eq!(shown(&b), vec!["def"]);
    assert_eq!(b.cursor(), (0, 0));
    assert_eq!(b.yank_text(), &text("abc"));
}

#[test]
fn delete_current_line_last_of_two() {
    let mut b = Buffer::from_text(&text("abc\ndef"));
    b.jump(1, 1);
    b.delete_current_line();
    assert_eq!(shown(&b), vec!["abc"]);
    assert_eq!(b.cursor(), (0, 3));
}

#[test]
fn delete_current_line_only_line() {
    let mut b = Buffer::from_text(&text("abc"));
    b.jump(0, 1);
    b.delete_current_line();
    assert_eq!(shown(&b), vec![String::new()]);
    assert_eq!(b.cursor(), (0, 0));
}

#[test]
fn motions_by_one_place() {
    let mut b = Buffer::from_text(&text("ab\ncd"));
    b.move_back();
    assert_eq!(b.cursor(), (0, 0));
    b.move_forward();
    b.move_forward();
    assert_eq!(b.cursor(), (0, 2));
    b.move_forward();
    assert_eq!(b.cursor(), (1, 0));
    b.move_back();
    assert_eq!(b.cursor(), (0, 2));
    b.jump(1, 2);
    b.move_forward();
    assert_eq!(b.cursor(), (1, 2));
}

#[test]
fn motions_by_line_clamp_column() {
    let mut b = Buffer::from_text(&text("abcdef\nab\nabcd"));
    b.move_end();
    b.move_down();
    assert_eq!(b.cursor(), (1, 2));
    b.move_down();
    assert_eq!(b.cursor(), (2, 2));
    b.move_down();
    assert_eq!(b.cursor(), (2, 2));
    b.move_end();
    b.move_up();
    assert_eq!(b.cursor(), (1, 2));
    b.move_up();
    b.move_up();
    assert_eq!(b.cursor(), (0, 2));
}

#[test]
fn motions_head_and_end() {
    let mut b = Buffer::from_text(&text("abc"));
    b.move_end();
    assert_eq!(b.cursor(), (0, 3));
    b.move_head();
    assert_eq!(b.cursor(), (0, 0));
}

#[test]
fn motions_by_word() {
    let mut b = Buffer::from_text(&text("foo  bar\nbaz"));
    b.move_word_forward();
    assert_eq!(b.cursor(), (0, 5));
    b.move_word_forward();
    assert_eq!(b.cursor(), (1, 0));
    b.move_word_forward();
    assert_eq!(b.cursor(), (1, 3));
    b.move_word_backward();
    assert_eq!(b.cursor(), (1, 0));
    b.move_word_backward();
    assert_eq!(b.cursor(), (0, 8));
    b.move_word_backward();
    assert_eq!(b.cursor(), (0, 5));
    b.move_word_backward();
    assert_eq!(b.cursor(), (0, 0));
    b.move_word_backward();
    assert_eq!(b.cursor(), (0, 0));
}

#[test]
fn motions_document_and_jump() {
    let mut b = Buffer::from_text(&text("abcdef\nab"));
    b.jump(0, 4);
    b.move_document_end();
    assert_eq!(b.cursor(), (1, 2));
    b.move_document_start();
    assert_eq!(b.cursor(), (0, 0));
    b.jump(7, 9);
    assert_eq!(b.cursor(), (1, 2));
    b.jump(0, 100);
    assert_eq!(b.cursor(), (0, 6));
}

#[test]
fn selection_extends_with_motions() {
    let mut b = Buffer::from_text(&text("hello world"));
    b.jump(0, 6);
    b.start_selection();
    assert_eq!(b.selection_start(), Some((0, 6)));
    b.move_end();
    assert_eq!(b.selection_range(), Some((0, 6, 0, 11)));
    b.jump(0, 2);
    assert_eq!(b.selection_range(), Some((0, 2, 0, 6)));
    b.cancel_selection();
    assert_eq!(b.selection_range(), None);
    assert!(!b.is_selecting());
}

#[test]
fn copy_selection_within_line() {
    let mut b = Buffer::from_text(&text("hello world"));
    b.jump(0, 6);
    b.start_selection();
    b.move_end();
    let copied = b.copy();
    assert_eq!(copied, text("world"));
    assert_eq!(b.yank_text(), &text("world"));
    assert!(!b.is_selecting());
    assert_eq!(shown(&b), vec!["hello world"]);
}

#[test]
fn copy_selection_over_lines() {
    let mut b = Buffer::from_text(&text("ab\ncd\nef"));
    b.jump(0, 1);
    b.start_selection();
    b.jump(2, 1);
    assert_eq!(b.copy(), text("b\ncd\ne"));
}

#[test]
fn copy_without_selection_takes_line() {
    let mut b = Buffer::from_text(&text("ab\ncd"));
    b.jump(1, 1);
    assert_eq!(b.copy(), text("cd"));
    assert_eq!(b.cursor(), (1, 1));
}

#[test]
fn cut_selection() {
    let mut b = Buffer::from_text(&text("ab\ncd\nef"));
    b.jump(2, 1);
    b.start_selection();
    b.jump(0, 1);
    assert_eq!(b.cut(), text("b\ncd\ne"));
    assert_eq!(shown(&b), vec!["af"]);
    assert_eq!(b.cursor(), (0, 1));
    assert_eq!(b.yank_text(), &text("b\ncd\ne"));
}

#[test]
fn cut_without_selection_takes_line() {
    let mut b = Buffer::from_text(&text("ab\ncd"));
    assert_eq!(b.cut(), text("ab"));
    assert_eq!(shown(&b), vec!["cd"]);
}

#[test]
fn paste_empty_register_is_refused() {
    let mut b = Buffer::from_text(&text("ab"));
    assert!(!b.paste());
    assert_eq!(shown(&b), vec!["ab"]);
    assert_eq!(b.undo_depth(), 0);
}

#[test]
fn copy_then_paste_reproduces_selection() {
    let mut b = Buffer::from_text(&text("hello world"));
    b.jump(0, 6);
    b.start_selection();
    b.move_end();
    let before: usize = b.lines().iter().map(|l| l.len()).sum();
    let copied = b.copy();
    let at = b.cursor();
    assert!(b.paste());
    assert_eq!(shown(&b), vec!["hello worldworld"]);
    let (row, col) = b.cursor();
    assert_eq!((row, col), (0, 16));
    assert_eq!(b.lines()[row][at.1..col].to_vec(), copied);
    let after: usize = b.lines().iter().map(|l| l.len()).sum();
    assert_eq!(after, before + copied.len());
}

#[test]
fn copy_then_paste_over_lines() {
    let mut b = Buffer::from_text(&text("ab\ncd"));
    b.jump(0, 1);
    b.start_selection();
    b.jump(1, 1);
    b.copy();
    assert!(b.paste());
    assert_eq!(shown(&b), vec!["ab", "cb", "cd"]);
    assert_eq!(b.cursor(), (2, 1));
}

#[test]
fn undo_restores_text_and_cursor() {
    let mut b = Buffer::from_text(&text("hello world"));
    b.jump(0, 5);
    b.delete_to_line_end();
    assert_eq!(shown(&b), vec!["hello"]);
    assert!(b.undo());
    assert_eq!(shown(&b), vec!["hello world"]);
    assert_eq!(b.cursor(), (0, 5));
    assert_eq!(b.undo_depth(), 0);
}

#[test]
fn undo_after_each_edit() {
    let edits: Vec<fn(&mut Buffer)> = vec![
        |b| b.insert_char('x'),
        |b| b.insert_newline(),
        |b| b.insert_text(&"1\n2".chars().collect()),
        |b| b.delete_char_before_cursor(),
        |b| b.delete_char_at_cursor(),
        |b| b.delete_word_forward(),
        |b| b.delete_word_backward(),
        |b| b.delete_to_line_end(),
        |b| b.delete_to_line_start(),
        |b| b.delete_current_line(),
        |b| {
            b.cut();
        },
    ];
    for edit in edits {
        let mut b = Buffer::from_text(&text("ab cd\nef gh\nij"));
        b.jump(1, 3);
        edit(&mut b);
        assert!(inside(&b));
        assert!(b.undo());
        assert_eq!(shown(&b), vec!["ab cd", "ef gh", "ij"]);
        assert_eq!(b.cursor(), (1, 3));
        assert_eq!(b.undo_depth(), 0);
    }
}

#[test]
fn undo_on_empty_stack_is_noop() {
    let mut b = Buffer::from_text(&text("ab"));
    b.jump(0, 1);
    assert!(!b.undo());
    assert_eq!(shown(&b), vec!["ab"]);
    assert_eq!(b.cursor(), (0, 1));
}

#[test]
fn undo_steps_back_one_edit_at_a_time() {
    let mut b = Buffer::new();
    b.insert_char('a');
    b.insert_char('b');
    assert_eq!(b.undo_depth(), 2);
    b.undo();
    assert_eq!(shown(&b), vec!["a"]);
    b.undo();
    assert_eq!(shown(&b), vec![String::new()]);
    assert!(!b.undo());
}

#[test]
fn clear_forgets_undo() {
    let mut b = Buffer::from_text(&text("ab\ncd"));
    b.insert_char('x');
    b.delete_to_line_end();
    b.clear();
    assert_eq!(shown(&b), vec![String::new()]);
    assert_eq!(b.cursor(), (0, 0));
    assert_eq!(b.undo_depth(), 0);
    assert!(!b.undo());
    assert_eq!(b.yank_text(), &text("ab"));
}

#[test]
fn cursor_stays_inside_under_many_operations() {
    let ops: Vec<fn(&mut Buffer)> = vec![
        |b| b.insert_char('a'),
        |b| b.insert_char(' '),
        |b| b.insert_newline(),
        |b| b.delete_char_before_cursor(),
        |b| b.delete_char_at_cursor(),
        |b| b.delete_word_forward(),
        |b| b.delete_word_backward(),
        |b| b.delete_to_line_end(),
        |b| b.delete_to_line_start(),
        |b| b.delete_current_line(),
        |b| b.move_back(),
        |b| b.move_forward(),
        |b| b.move_up(),
        |b| b.move_down(),
        |b| b.move_head(),
        |b| b.move_end(),
        |b| b.move_word_forward(),
        |b| b.move_word_backward(),
        |b| b.move_document_start(),
        |b| b.move_document_end(),
        |b| b.jump(3, 1),
        |b| b.start_selection(),
        |b| b.cancel_selection(),
        |b| {
            b.copy();
        },
        |b| {
            b.cut();
        },
        |b| {
            b.paste();
        },
        |b| {
            b.undo();
        },
    ];
    let mut b = Buffer::from_text(&text("one two\n\nthree"));
    let mut seed: u64 = 12345;
    for _ in 0..5000 {
        seed = seed.wrapping_mul(6364136223846793005).wrapping_add(1442695040888963407);
        let pick = (seed >> 33) as usize % ops.len();
        ops[pick](&mut b);
        assert!(inside(&b));
        assert!(!b.lines().is_empty());
        assert!(b.lines().iter().all(|l| !l.contains(&'\n')));
    }
}
