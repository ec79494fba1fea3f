//! What holds of the editor whatever keys arrive.
use crate::buffer_laws::{lemma_apply_wf, lemma_begin_edit, BufferOp};
use crate::key::{KeyCode, KeyEvent};
use crate::prompt::{Mode, PromptView};
use vstd::prelude::*;

verus! {

/// One key press, with what the outer clipboard held when it arrived.
pub struct KeyPress {
    pub key: KeyEvent,
    pub clipboard: Option<Seq<char>>,
}

impl PromptView {
    /// The prompt after a sequence of key presses, the first one first.
    pub open spec fn run(self, keys: Seq<KeyPress>) -> PromptView
        decreases keys.len(),
    {
        if keys.len() == 0 {
            self
        } else {
            self.run(keys.drop_last()).key_binding(keys.last().key, keys.last().clipboard)
        }
    }
}

/// In insert mode no key leads out of the well-formed prompts.
pub proof fn lemma_insert_key_wf(p: PromptView, code: KeyCode)
    requires
        p.wf(),
        p.mode == Mode::Insert,
    ensures
        p.insert_key(code).wf(),
{
    let e = p.editor;
    lemma_begin_edit(e);
    match code {
        KeyCode::Enter => {
            lemma_apply_wf(e, BufferOp::InsertNewline);
        },
        KeyCode::Char(c) => {
            lemma_apply_wf(e, BufferOp::InsertChar(c));
        },
        KeyCode::Backspace => {
            lemma_apply_wf(e, BufferOp::DeleteCharBeforeCursor);
        },
        _ => {},
    }
}

/// In normal and visual mode a character that is bound to nothing changes nothing.
pub proof fn lemma_unbound_char_is_idle(
    p: PromptView,
    c: char,
    plain: bool,
    clipboard: Option<Seq<char>>,
)
    requires
        c != 'i',
        c != 'v',
        c != 'h',
        c != 'j',
        c != 'k',
        c != 'l',
        c != 'w',
        c != 'b',
        c != '$',
        c != '0',
        c != '^',
        c != 'D',
        c != 'd',
        c != 'C',
        c != 'u',
        c != 'x',
        c != 'a',
        c != 'A',
        c != 'o',
        c != 'O',
        c != 'I',
        c != 'G',
        c != 'g',
        c != 'y',
        c != 'p',
    ensures
        p.command_char(c, plain, clipboard) == p,
{
}

/// In normal and visual mode no character key leads out of the well-formed
/// prompts.
pub proof fn lemma_command_char_wf(
    p: PromptView,
    c: char,
    plain: bool,
    clipboard: Option<Seq<char>>,
)
    requires
        p.wf(),
        p.mode != Mode::Insert,
    ensures
        p.command_char(c, plain, clipboard).wf(),
{
    let e = p.editor;
    if c == 'h' {
        lemma_apply_wf(e, BufferOp::MoveBack);
    } else if c == 'j' {
        lemma_apply_wf(e, BufferOp::MoveDown);
    } else if c == 'k' {
        lemma_apply_wf(e, BufferOp::MoveUp);
    } else if c == 'l' {
        lemma_apply_wf(e, BufferOp::MoveForward);
    } else if c == 'w' {
        lemma_apply_wf(e, BufferOp::DeleteWordForward);
        lemma_apply_wf(e, BufferOp::MoveWordForward);
    } else if c == 'b' {
        lemma_apply_wf(e, BufferOp::DeleteWordBackward);
        lemma_apply_wf(e, BufferOp::MoveWordBackward);
    } else if c == '$' {
        lemma_apply_wf(e, BufferOp::DeleteToLineEnd);
        lemma_apply_wf(e, BufferOp::MoveEnd);
    } else if c == '0' {
        lemma_apply_wf(e, BufferOp::DeleteToLineStart);
        lemma_apply_wf(e, BufferOp::MoveHead);
    } else if c == '^' {
        lemma_apply_wf(e, BufferOp::MoveHead);
    } else if c == 'D' {
        lemma_apply_wf(e, BufferOp::DeleteToLineEnd);
    } else if c == 'd' {
        lemma_apply_wf(e, BufferOp::DeleteCurrentLine);
    } else if c == 'C' {
        lemma_apply_wf(e, BufferOp::DeleteToLineEnd);
    } else if c == 'u' {
        lemma_apply_wf(e, BufferOp::Undo);
    } else if c == 'x' {
        lemma_apply_wf(e, BufferOp::DeleteCharAtCursor);
    } else if c == 'a' {
        lemma_apply_wf(e, BufferOp::MoveForward);
    } else if c == 'A' {
        lemma_apply_wf(e, BufferOp::MoveEnd);
    } else if c == 'o' {
        lemma_apply_wf(e, BufferOp::MoveEnd);
        lemma_apply_wf(e.move_end(), BufferOp::InsertNewline);
    } else if c == 'O' {
        lemma_apply_wf(e, BufferOp::MoveHead);
        lemma_apply_wf(e.move_head(), BufferOp::InsertNewline);
        lemma_apply_wf(e.move_head().insert_newline(), BufferOp::MoveUp);
    } else if c == 'I' {
        lemma_apply_wf(e, BufferOp::MoveHead);
    } else if c == 'G' {
        lemma_apply_wf(e, BufferOp::MoveDocumentEnd);
    } else if c == 'g' {
        lemma_apply_wf(e, BufferOp::MoveDocumentStart);
    } else if c == 'y' {
        lemma_apply_wf(e, BufferOp::Copy);
    } else if c == 'p' {
        lemma_apply_wf(e, BufferOp::Paste);
        match clipboard {
            Some(text) => {
                lemma_apply_wf(e, BufferOp::InsertText(text));
            },
            None => {},
        }
    }
}

/// No key leads out of the well-formed prompts: the buffer stays well
/// formed, and insert mode never holds a selection.
pub proof fn lemma_key_binding_wf(p: PromptView, key: KeyEvent, clipboard: Option<Seq<char>>)
    requires
        p.wf(),
    ensures
        p.key_binding(key, clipboard).wf(),
{
    let e = p.editor;
    if p.mode == Mode::Insert {
        lemma_insert_key_wf(p, key.code);
    } else {
        match key.code {
            KeyCode::Left => {
                lemma_apply_wf(e, BufferOp::MoveBack);
            },
            KeyCode::Down => {
                lemma_apply_wf(e, BufferOp::MoveDown);
            },
            KeyCode::Up => {
                lemma_apply_wf(e, BufferOp::MoveUp);
            },
            KeyCode::Right => {
                lemma_apply_wf(e, BufferOp::MoveForward);
            },
            KeyCode::Char(c) => {
                lemma_command_char_wf(p, c, key.modifiers.is_none(), clipboard);
            },
            _ => {},
        }
    }
}

/// Whatever keys arrive, in whatever order, the prompt stays well formed and
/// the cursor stays inside the text.
pub proof fn lemma_keys_keep_cursor_inside(p: PromptView, keys: Seq<KeyPress>)
    requires
        p.wf(),
    ensures
        p.run(keys).wf(),
        0 <= p.run(keys).editor.text.row < p.run(keys).editor.text.lines.len(),
        0 <= p.run(keys).editor.text.col <= p.run(keys).editor.text.line().len(),
    decreases keys.len(),
{
    if keys.len() > 0 {
        lemma_keys_keep_cursor_inside(p, keys.drop_last());
        lemma_key_binding_wf(p.run(keys.drop_last()), keys.last().key, keys.last().clipboard);
    }
}

/// Every key, whatever it does, is remembered as the previous key.
pub proof fn lemma_key_is_remembered(p: PromptView, key: KeyEvent, clipboard: Option<Seq<char>>)
    ensures
        p.key_binding(key, clipboard).previous_key == key.code,
{
}

/// A `g` that does not follow a `g` does nothing: outside insert mode the
/// buffer and the mode stay as they are.
pub proof fn lemma_lone_g_is_idle(p: PromptView, key: KeyEvent, clipboard: Option<Seq<char>>)
    requires
        p.mode != Mode::Insert,
        key.code == KeyCode::Char('g'),
        p.previous_key != KeyCode::Char('g'),
    ensures
        p.key_binding(key, clipboard).editor == p.editor,
        p.key_binding(key, clipboard).mode == p.mode,
{
}

/// Two `g` in a row, outside insert mode, put the cursor at the start of the
/// text and change nothing else in the buffer.
pub proof fn lemma_double_g_jumps(
    p: PromptView,
    first: KeyEvent,
    second: KeyEvent,
    c1: Option<Seq<char>>,
    c2: Option<Seq<char>>,
)
    requires
        p.mode != Mode::Insert,
        first.code == KeyCode::Char('g'),
        second.code == KeyCode::Char('g'),
    ensures
        p.key_binding(first, c1).key_binding(second, c2).editor == p.editor.moved(0, 0),
        p.key_binding(first, c1).key_binding(second, c2).mode == p.mode,
{
}

/// A key between two `g` breaks the pair: after `g`, then a key that is no
/// `g` and does not lead into insert mode, a second `g` leaves the buffer as
/// that key left it.
pub proof fn lemma_g_pair_must_be_adjacent(
    p: PromptView,
    first: KeyEvent,
    between: KeyEvent,
    second: KeyEvent,
    c1: Option<Seq<char>>,
    c2: Option<Seq<char>>,
    c3: Option<Seq<char>>,
)
    requires
        first.code == KeyCode::Char('g'),
        between.code != KeyCode::Char('g'),
        second.code == KeyCode::Char('g'),
        p.key_binding(first, c1).key_binding(between, c2).mode != Mode::Insert,
    ensures
        p.key_binding(first, c1).key_binding(between, c2).key_binding(second, c3).editor
            == p.key_binding(first, c1).key_binding(between, c2).editor,
{
    let q = p.key_binding(first, c1).key_binding(between, c2);
    lemma_key_is_remembered(p.key_binding(first, c1), between, c2);
    lemma_lone_g_is_idle(q, second, c3);
}

/// The same holds of `dd`: a `d` that does not follow a `d` deletes nothing.
pub proof fn lemma_lone_d_is_idle(p: PromptView, key: KeyEvent, clipboard: Option<Seq<char>>)
    requires
        p.mode != Mode::Insert,
        key.code == KeyCode::Char('d'),
        p.previous_key != KeyCode::Char('d'),
    ensures
        p.key_binding(key, clipboard).editor == p.editor,
        p.key_binding(key, clipboard).mode == p.mode,
{
}

} // verus!
