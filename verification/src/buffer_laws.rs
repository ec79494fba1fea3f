//! What holds of the buffer whatever is done to it.
use crate::buffer::BufferView;
use crate::text::{
    lemma_remove_range_wf, lemma_type_char_wf, lemma_type_text_wf, line_ok, TextState,
};
use crate::word::{lemma_word_progress, word_end_after, word_start_after, word_start_before};
use vstd::prelude::*;

verus! {

/// The operations of the buffer, as values.
pub enum BufferOp {
    InsertChar(char),
    InsertNewline,
    InsertText(Seq<char>),
    DeleteCharBeforeCursor,
    DeleteCharAtCursor,
    DeleteToLineEnd,
    DeleteToLineStart,
    DeleteWordForward,
    DeleteWordBackward,
    DeleteCurrentLine,
    Copy,
    Cut,
    Paste,
    Undo,
    Clear,
    StartSelection,
    CancelSelection,
    MoveBack,
    MoveForward,
    MoveUp,
    MoveDown,
    MoveHead,
    MoveEnd,
    MoveWordForward,
    MoveWordBackward,
    MoveDocumentStart,
    MoveDocumentEnd,
    Jump(nat, nat),
}

impl BufferOp {
    /// The operation changes the text, and so pushes a checkpoint. Pasting
    /// counts only when the register has something to paste.
    pub open spec fn is_edit(self, b: BufferView) -> bool {
        match self {
            BufferOp::InsertChar(_)
            | BufferOp::InsertNewline
            | BufferOp::InsertText(_)
            | BufferOp::DeleteCharBeforeCursor
            | BufferOp::DeleteCharAtCursor
            | BufferOp::DeleteToLineEnd
            | BufferOp::DeleteToLineStart
            | BufferOp::DeleteWordForward
            | BufferOp::DeleteWordBackward
            | BufferOp::DeleteCurrentLine
            | BufferOp::Cut => true,
            BufferOp::Paste => b.yank.len() > 0,
            _ => false,
        }
    }
}

impl BufferView {
    /// The buffer after one operation.
    pub open spec fn apply(self, op: BufferOp) -> BufferView {
        match op {
            BufferOp::InsertChar(c) => self.insert_char(c),
            BufferOp::InsertNewline => self.insert_newline(),
            BufferOp::InsertText(t) => self.insert_text(t),
            BufferOp::DeleteCharBeforeCursor => self.delete_char_before_cursor(),
            BufferOp::DeleteCharAtCursor => self.delete_char_at_cursor(),
            BufferOp::DeleteToLineEnd => self.delete_to_line_end(),
            BufferOp::DeleteToLineStart => self.delete_to_line_start(),
            BufferOp::DeleteWordForward => self.delete_word_forward(),
            BufferOp::DeleteWordBackward => self.delete_word_backward(),
            BufferOp::DeleteCurrentLine => self.delete_current_line(),
            BufferOp::Copy => self.copy(),
            BufferOp::Cut => self.cut(),
            BufferOp::Paste => self.paste(),
            BufferOp::Undo => self.undo(),
            BufferOp::Clear => self.clear(),
            BufferOp::StartSelection => self.start_selection(),
            BufferOp::CancelSelection => self.cancel_selection(),
            BufferOp::MoveBack => self.move_back(),
            BufferOp::MoveForward => self.move_forward(),
            BufferOp::MoveUp => self.move_up(),
            BufferOp::MoveDown => self.move_down(),
            BufferOp::MoveHead => self.move_head(),
            BufferOp::MoveEnd => self.move_end(),
            BufferOp::MoveWordForward => self.move_word_forward(),
            BufferOp::MoveWordBackward => self.move_word_backward(),
            BufferOp::MoveDocumentStart => self.move_document_start(),
            BufferOp::MoveDocumentEnd => self.move_document_end(),
            BufferOp::Jump(row, col) => self.jump(row as int, col as int),
        }
    }

    /// The buffer after a sequence of operations, the first one first.
    pub open spec fn apply_all(self, ops: Seq<BufferOp>) -> BufferView
        decreases ops.len(),
    {
        if ops.len() == 0 {
            self
        } else {
            self.apply_all(ops.drop_last()).apply(ops.last())
        }
    }
}

/// A selection is a range of the text.
pub proof fn lemma_selection_valid(b: BufferView)
    requires
        b.wf(),
    ensures
        b.selection() matches Some(r) ==> b.text.valid_range(r.0, r.1, r.2, r.3) && !(r.0 == r.2
            && r.1 == r.3),
{
}

/// Every edit starts from a well-formed buffer without a selection, one
/// checkpoint deeper; with nothing selected, the text is still the same.
pub proof fn lemma_begin_edit(b: BufferView)
    requires
        b.wf(),
    ensures
        b.begin_edit().wf(),
        b.begin_edit().anchor is None,
        b.begin_edit().undo == b.undo.push(b.text),
        b.begin_edit().yank == b.yank,
        b.selection() is None ==> b.begin_edit().text == b.text,
{
    lemma_selection_valid(b);
    let c = b.checkpointed();
    assert(c.wf());
    match c.selection() {
        Some(r) => {
            lemma_remove_range_wf(c.text, r.0, r.1, r.2, r.3);
        },
        None => {},
    }
}

/// Taking a range out of a buffer without selection keeps it well formed.
pub proof fn lemma_erase_wf(b: BufferView, sr: int, sc: int, er: int, ec: int)
    requires
        b.wf(),
        b.anchor is None,
        b.text.valid_range(sr, sc, er, ec),
    ensures
        b.erase(sr, sc, er, ec).wf(),
        b.cut_out(sr, sc, er, ec).wf(),
{
    lemma_remove_range_wf(b.text, sr, sc, er, ec);
}

/// No operation leads out of the well-formed buffers.
pub proof fn lemma_apply_wf(b: BufferView, op: BufferOp)
    requires
        b.wf(),
    ensures
        b.apply(op).wf(),
{
    lemma_begin_edit(b);
    lemma_selection_valid(b);
    let s = b.begin_edit();
    let line = b.text.line();
    lemma_word_progress(line, b.text.col);
    match op {
        BufferOp::InsertChar(c) => {
            lemma_type_char_wf(s.text, c);
            lemma_type_char_wf(s.text, '\n');
        },
        BufferOp::InsertNewline => {
            lemma_type_char_wf(s.text, '\n');
        },
        BufferOp::InsertText(t) => {
            lemma_type_text_wf(s.text, t);
        },
        BufferOp::DeleteCharBeforeCursor => {
            if b.selection() is None {
                if s.text.col > 0 {
                    lemma_erase_wf(s, s.text.row, s.text.col - 1, s.text.row, s.text.col);
                } else if s.text.row > 0 {
                    lemma_erase_wf(s, s.text.row - 1, s.len_of(s.text.row - 1), s.text.row, 0);
                }
            }
        },
        BufferOp::DeleteCharAtCursor => {
            if b.selection() is None {
                if s.text.col < s.line_len() {
                    lemma_erase_wf(s, s.text.row, s.text.col, s.text.row, s.text.col + 1);
                } else if s.text.row + 1 < s.line_count() {
                    lemma_erase_wf(s, s.text.row, s.text.col, s.text.row + 1, 0);
                }
            }
        },
        BufferOp::DeleteToLineEnd => {
            if b.selection() is None {
                if s.text.col < s.line_len() {
                    lemma_erase_wf(s, s.text.row, s.text.col, s.text.row, s.line_len());
                } else if s.text.row + 1 < s.line_count() {
                    lemma_erase_wf(s, s.text.row, s.text.col, s.text.row + 1, 0);
                }
            }
        },
        BufferOp::DeleteToLineStart => {
            if b.selection() is None {
                if s.text.col > 0 {
                    lemma_erase_wf(s, s.text.row, 0, s.text.row, s.text.col);
                } else if s.text.row > 0 {
                    lemma_erase_wf(s, s.text.row - 1, s.len_of(s.text.row - 1), s.text.row, 0);
                }
            }
        },
        BufferOp::DeleteWordForward => {
            if b.selection() is None {
                if s.text.col < s.line_len() {
                    lemma_erase_wf(
                        s,
                        s.text.row,
                        s.text.col,
                        s.text.row,
                        word_end_after(line, s.text.col),
                    );
                } else if s.text.row + 1 < s.line_count() {
                    lemma_erase_wf(s, s.text.row, s.text.col, s.text.row + 1, 0);
                }
            }
        },
        BufferOp::DeleteWordBackward => {
            if b.selection() is None {
                if s.text.col > 0 {
                    lemma_erase_wf(
                        s,
                        s.text.row,
                        word_start_before(line, s.text.col),
                        s.text.row,
                        s.text.col,
                    );
                } else if s.text.row > 0 {
                    lemma_erase_wf(s, s.text.row - 1, s.len_of(s.text.row - 1), s.text.row, 0);
                }
            }
        },
        BufferOp::DeleteCurrentLine => {
            lemma_delete_current_line_wf(b);
        },
        BufferOp::Copy => {},
        BufferOp::Cut => {
            match b.selection() {
                Some(r) => {
                    let c = BufferView { anchor: None, ..b.checkpointed() };
                    lemma_erase_wf(c, r.0, r.1, r.2, r.3);
                    assert(b.cut() == c.cut_out(r.0, r.1, r.2, r.3));
                },
                None => {
                    lemma_delete_current_line_wf(b);
                },
            }
        },
        BufferOp::Paste => {
            lemma_type_text_wf(s.text, b.yank);
        },
        BufferOp::Undo => {},
        BufferOp::Clear => {
            reveal(line_ok);
        },
        BufferOp::StartSelection => {},
        BufferOp::CancelSelection => {},
        BufferOp::MoveBack => {},
        BufferOp::MoveForward => {},
        BufferOp::MoveUp => {},
        BufferOp::MoveDown => {},
        BufferOp::MoveHead => {},
        BufferOp::MoveEnd => {},
        BufferOp::MoveWordForward => {
            assert(word_start_after(line, b.text.col) <= line.len());
        },
        BufferOp::MoveWordBackward => {},
        BufferOp::MoveDocumentStart => {},
        BufferOp::MoveDocumentEnd => {},
        BufferOp::Jump(row, col) => {},
    }
}

/// Deleting the cursor's line keeps the buffer well formed.
pub proof fn lemma_delete_current_line_wf(b: BufferView)
    requires
        b.wf(),
    ensures
        b.delete_current_line().wf(),
{
    let s = BufferView { anchor: None, yank: b.text.line(), ..b.checkpointed() };
    let row = b.text.row;
    if row + 1 < b.line_count() {
        lemma_erase_wf(s, row, 0, row + 1, 0);
    } else if row > 0 {
        lemma_erase_wf(s, row - 1, b.len_of(row - 1), row, b.line_len());
    } else {
        lemma_erase_wf(s, 0, 0, 0, b.line_len());
    }
}

/// Whatever operations are applied to a well-formed buffer, in whatever
/// order, the cursor stays inside the text: on one of its lines, at a column
/// between the line's head and its end.
pub proof fn lemma_cursor_stays_inside(b: BufferView, ops: Seq<BufferOp>)
    requires
        b.wf(),
    ensures
        b.apply_all(ops).wf(),
        0 <= b.apply_all(ops).text.row < b.apply_all(ops).text.lines.len(),
        0 <= b.apply_all(ops).text.col <= b.apply_all(ops).text.line().len(),
    decreases ops.len(),
{
    if ops.len() > 0 {
        lemma_cursor_stays_inside(b, ops.drop_last());
        lemma_apply_wf(b.apply_all(ops.drop_last()), ops.last());
    }
}

/// Undo after one edit gives back the text and the cursor from before the
/// edit, and the undo stack from before it.
pub proof fn lemma_undo_restores(b: BufferView, op: BufferOp)
    requires
        b.wf(),
        op.is_edit(b),
    ensures
        b.apply(op).undo().text == b.text,
        b.apply(op).undo().undo == b.undo,
        b.apply(op).undo().anchor is None,
{
    lemma_begin_edit(b);
    assert(b.undo.push(b.text).drop_last() =~= b.undo);
    assert(b.apply(op).undo == b.undo.push(b.text));
}

/// With nothing to undo, undo changes nothing.
pub proof fn lemma_undo_on_empty_stack(b: BufferView)
    requires
        b.undo.len() == 0,
    ensures
        b.undo() == b,
{
}

} // verus!

verus! {

/// Copy, then paste: the copied text stands between the place where the
/// cursor was and the place where it is now, and the buffer has grown by
/// exactly the length of that text. The copied text is the selection, or the
/// cursor's line where nothing is selected.
pub proof fn lemma_copy_then_paste(b: BufferView)
    requires
        b.wf(),
    ensures
        b.copy().yank == b.selected_text(),
        b.copy().text == b.text,
        b.copy().paste().wf(),
        b.copy().paste().text.valid_range(
            b.text.row,
            b.text.col,
            b.copy().paste().text.row,
            b.copy().paste().text.col,
        ),
        b.copy().paste().text.text_between(
            b.text.row,
            b.text.col,
            b.copy().paste().text.row,
            b.copy().paste().text.col,
        ) == b.selected_text(),
        b.copy().paste().text.char_count() == b.text.char_count() + b.selected_text().len(),
{
    let c = b.copy();
    lemma_begin_edit(c);
    crate::text_laws::lemma_typed_text_reads_back(c.text, c.yank);
    if c.yank.len() == 0 {
        assert(c.text.text_between(c.text.row, c.text.col, c.text.row, c.text.col) =~= c.yank);
    }
}

} // verus!
