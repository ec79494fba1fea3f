use tenere::buffer::Buffer;
use tui_textarea::{CursorMove, TextArea};

fn same(buffer: &Buffer, area: &TextArea) -> bool {
    let lines: Vec<String> = buffer.lines().iter().map(|l| l.iter().collect()).collect();
    lines == area.lines() && buffer.cursor() == area.cursor()
}

fn selects_something(buffer: &Buffer) -> bool {
    buffer.selection_range().is_some()
}

/// The two agree on words where the cursor's line holds no punctuation: the
/// text area ends a word at punctuation too, the buffer at whitespace only.
fn words_agree(buffer: &Buffer) -> bool {
    let (row, _) = buffer.cursor();
    !buffer.lines()[row].iter().any(|c| c.is_ascii_punctuation())
}

/// Going back by a word, the two agree unless only spaces stand between the
/// head of a later line and the cursor: the text area then goes up a line,
/// the buffer to the head of the line.
fn word_back_agrees(buffer: &Buffer) -> bool {
    let (row, col) = buffer.cursor();
    let before = &buffer.lines()[row][..col];
    words_agree(buffer) && (row == 0 || col == 0 || before.iter().any(|c| !c.is_whitespace()))
}

/// Applies the operation with the number `pick` to both, and tells its name.
fn step(pick: usize, buffer: &mut Buffer, area: &mut TextArea) -> &'static str {
    match pick {
        0 => {
            buffer.insert_char('a');
            area.insert_char('a');
            "insert a"
        }
        1 => {
            buffer.insert_char(' ');
            area.insert_char(' ');
            "insert space"
        }
        2 => {
            buffer.insert_newline();
            area.insert_newline();
            "insert newline"
        }
        3 => {
            buffer.delete_char_before_cursor();
            area.delete_char();
            "delete before"
        }
        4 => {
            buffer.delete_char_at_cursor();
            area.delete_next_char();
            "delete at"
        }
        5 => {
            buffer.delete_to_line_end();
            area.delete_line_by_end();
            "delete to end"
        }
        6 => {
            buffer.delete_to_line_start();
            area.delete_line_by_head();
            "delete to head"
        }
        7 => {
            if words_agree(buffer) {
                buffer.delete_word_forward();
                area.delete_next_word();
            }
            "delete word forward"
        }
        8 => {
            if words_agree(buffer) {
                buffer.delete_word_backward();
                area.delete_word();
            }
            "delete word backward"
        }
        9 => {
            buffer.move_back();
            area.move_cursor(CursorMove::Back);
            "back"
        }
        10 => {
            buffer.move_forward();
            area.move_cursor(CursorMove::Forward);
            "forward"
        }
        11 => {
            buffer.move_up();
            area.move_cursor(CursorMove::Up);
            "up"
        }
        12 => {
            buffer.move_down();
            area.move_cursor(CursorMove::Down);
            "down"
        }
        13 => {
            buffer.move_head();
            area.move_cursor(CursorMove::Head);
            "head"
        }
        14 => {
            buffer.move_end();
            area.move_cursor(CursorMove::End);
            "end"
        }
        15 => {
            if words_agree(buffer) {
                buffer.move_word_forward();
                area.move_cursor(CursorMove::WordForward);
            }
            "word forward"
        }
        16 => {
            buffer.move_document_end();
            area.move_cursor(CursorMove::Bottom);
            "bottom"
        }
        17 => {
            buffer.move_document_start();
            area.move_cursor(CursorMove::Jump(0, 0));
            "top"
        }
        18 => {
            buffer.jump(1, 2);
            area.move_cursor(CursorMove::Jump(1, 2));
            "jump"
        }
        19 => {
            buffer.start_selection();
            area.start_selection();
            "start selection"
        }
        20 => {
            buffer.cancel_selection();
            area.cancel_selection();
            "cancel selection"
        }
        21 => {
            if selects_something(buffer) {
                buffer.copy();
                area.copy();
            }
            "copy"
        }
        22 => {
            if selects_something(buffer) {
                buffer.cut();
                area.cut();
            }
            "cut"
        }
        23 => {
            if !buffer.yank_text().is_empty() {
                buffer.paste();
                area.paste();
            }
            "paste"
        }
        24 => {
            buffer.insert_char('\r');
            area.insert_char('\r');
            "insert carriage return"
        }
        25 => {
            buffer.insert_char('.');
            area.insert_char('.');
            "insert full stop"
        }
        26 => {
            buffer.insert_char('\u{65e5}');
            area.insert_char('\u{65e5}');
            "insert wide character"
        }
        _ => {
            if word_back_agrees(buffer) {
                buffer.move_word_backward();
                area.move_cursor(CursorMove::WordBack);
            }
            "word backward"
        }
    }
}

#[test]
fn buffer_agrees_with_textarea() {
    for start in ["", "ab  ab\n\n a b", "a\nb\nc", "   ", "ab ab ab", "a.b, c\n  d!"] {
        let mut seed: u64 = 7 + start.len() as u64;
        let mut buffer = Buffer::from_text(&start.chars().collect());
        let mut area = TextArea::from(start.split('\n'));
        assert!(same(&buffer, &area));
        let mut trail: Vec<&'static str> = Vec::new();
        for _ in 0..4000 {
            seed = seed.wrapping_mul(6364136223846793005).wrapping_add(1442695040888963407);
            let pick = (seed >> 33) as usize % 28;
            trail.push(step(pick, &mut buffer, &mut area));
            if trail.len() > 12 {
                trail.remove(0);
            }
            assert!(
                same(&buffer, &area),
                "after {:?}: {:?} at {:?}, but the text area has {:?} at {:?}",
                trail,
                buffer.lines(),
                buffer.cursor(),
                area.lines(),
                area.cursor()
            );
            assert_eq!(buffer.yank_text().iter().collect::<String>(), area.yank_text());
            assert_eq!(buffer.is_selecting(), area.is_selecting());
        }
    }
}
