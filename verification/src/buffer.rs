//! The editable text buffer: lines, a cursor, an optional selection, a yank
//! register and an undo stack.
//!
//! Every operation is first a function on [`BufferView`], the buffer's
//! mathematical value; the methods of [`Buffer`] compute exactly those
//! functions and keep the buffer well formed.
use crate::text::{Text, TextState};
use crate::word::{
    scan_spaces, scan_spaces_back, scan_word, scan_word_back, word_end_after, word_start_after,
    word_start_before,
};
use vstd::prelude::*;

verus! {

/// What a buffer is, mathematically.
pub struct BufferView {
    /// The lines and the cursor.
    pub text: TextState,
    /// Where the selection was started, if one is active.
    pub anchor: Option<(int, int)>,
    /// The text copied or cut last.
    pub yank: Seq<char>,
    /// The texts that undo goes back to, the most recent last.
    pub undo: Seq<TextState>,
}

/// The smaller of two numbers.
pub open spec fn least(a: int, b: int) -> int {
    if a <= b {
        a
    } else {
        b
    }
}

impl BufferView {
    /// A fresh buffer: one empty line, nothing selected, nothing to paste or undo.
    pub open spec fn empty() -> BufferView {
        BufferView {
            text: TextState::empty(),
            anchor: None,
            yank: Seq::empty(),
            undo: Seq::empty(),
        }
    }

    /// The text is well formed, the anchor names a place of it, and so is
    /// every text on the undo stack.
    pub open spec fn wf(self) -> bool {
        &&& self.text.wf()
        &&& (self.anchor matches Some(a) ==> self.text.contains(a.0, a.1))
        &&& forall|i: int| 0 <= i < self.undo.len() ==> (#[trigger] self.undo[i]).wf()
    }

    /// Number of lines.
    pub open spec fn line_count(self) -> int {
        self.text.lines.len() as int
    }

    /// Length of line `row`.
    pub open spec fn len_of(self, row: int) -> int {
        self.text.lines[row].len() as int
    }

    /// Length of the cursor's line.
    pub open spec fn line_len(self) -> int {
        self.text.line().len() as int
    }

    /// The selected range `(start line, start column, end line, end column)`,
    /// in document order: from the anchor to the cursor or back. An anchor
    /// under the cursor selects nothing.
    pub open spec fn selection(self) -> Option<(int, int, int, int)> {
        match self.anchor {
            None => None,
            Some(a) => if a.0 == self.text.row && a.1 == self.text.col {
                None
            } else if a.0 < self.text.row || (a.0 == self.text.row && a.1 < self.text.col) {
                Some((a.0, a.1, self.text.row, self.text.col))
            } else {
                Some((self.text.row, self.text.col, a.0, a.1))
            },
        }
    }

    /// The selected text; with nothing selected, the cursor's line.
    pub open spec fn selected_text(self) -> Seq<char> {
        match self.selection() {
            Some(r) => self.text.text_between(r.0, r.1, r.2, r.3),
            None => self.text.line(),
        }
    }

    /// The whole text, its lines joined by line breaks.
    pub open spec fn whole_text(self) -> Seq<char> {
        self.text.text_between(
            0,
            0,
            self.line_count() - 1,
            self.len_of(self.line_count() - 1),
        )
    }

    /// The same buffer with another text.
    pub open spec fn with_text(self, text: TextState) -> BufferView {
        BufferView { text, ..self }
    }

    /// The same buffer with the cursor at `(row, col)`.
    pub open spec fn moved(self, row: int, col: int) -> BufferView {
        BufferView { text: self.text.at(row, col), ..self }
    }

    /// The present text pushed on the undo stack.
    pub open spec fn checkpointed(self) -> BufferView {
        BufferView { undo: self.undo.push(self.text), ..self }
    }

    /// The range taken out of the text.
    pub open spec fn erase(self, sr: int, sc: int, er: int, ec: int) -> BufferView {
        BufferView { text: self.text.remove_range(sr, sc, er, ec), ..self }
    }

    /// The range moved from the text into the yank register.
    pub open spec fn cut_out(self, sr: int, sc: int, er: int, ec: int) -> BufferView {
        BufferView {
            text: self.text.remove_range(sr, sc, er, ec),
            yank: self.text.text_between(sr, sc, er, ec),
            ..self
        }
    }

    /// The selection given up; what it selected is taken out of the text.
    pub open spec fn without_selection(self) -> BufferView {
        match self.selection() {
            Some(r) => BufferView { anchor: None, ..self.erase(r.0, r.1, r.2, r.3) },
            None => BufferView { anchor: None, ..self },
        }
    }

    /// The state in which every edit starts: a checkpoint is pushed and the
    /// selection, if any, is replaced by nothing.
    pub open spec fn begin_edit(self) -> BufferView {
        self.checkpointed().without_selection()
    }

    /// The line under the cursor joined to the one before it.
    pub open spec fn join_previous(self) -> BufferView {
        self.erase(self.text.row - 1, self.len_of(self.text.row - 1), self.text.row, 0)
    }

    /// The line after the cursor's joined to it.
    pub open spec fn join_next(self) -> BufferView {
        self.erase(self.text.row, self.text.col, self.text.row + 1, 0)
    }

    /// A character typed at the cursor, in place of the selection if one is
    /// active. A line break and a carriage return both break the line.
    pub open spec fn insert_char(self, c: char) -> BufferView {
        let s = self.begin_edit();
        if c == '\r' {
            s.with_text(s.text.split_line())
        } else {
            s.with_text(s.text.type_char(c))
        }
    }

    /// The line broken at the cursor, in place of the selection if one is active.
    pub open spec fn insert_newline(self) -> BufferView {
        let s = self.begin_edit();
        s.with_text(s.text.split_line())
    }

    /// A text typed at the cursor, in place of the selection if one is active.
    pub open spec fn insert_text(self, text: Seq<char>) -> BufferView {
        let s = self.begin_edit();
        s.with_text(s.text.type_text(text))
    }

    /// Without the selection, or else without the character before the cursor;
    /// at the head of a line, without the line break before it.
    pub open spec fn delete_char_before_cursor(self) -> BufferView {
        let s = self.begin_edit();
        if self.selection() is Some {
            s
        } else if s.text.col > 0 {
            s.erase(s.text.row, s.text.col - 1, s.text.row, s.text.col)
        } else if s.text.row > 0 {
            s.join_previous()
        } else {
            s
        }
    }

    /// Without the selection, or else without the character under the cursor;
    /// at the end of a line, without the line break behind it.
    pub open spec fn delete_char_at_cursor(self) -> BufferView {
        let s = self.begin_edit();
        if self.selection() is Some {
            s
        } else if s.text.col < s.line_len() {
            s.erase(s.text.row, s.text.col, s.text.row, s.text.col + 1)
        } else if s.text.row + 1 < s.line_count() {
            s.join_next()
        } else {
            s
        }
    }

    /// Without the selection, or else the rest of the line cut out; at the end of
    /// a line, without the line break behind it.
    pub open spec fn delete_to_line_end(self) -> BufferView {
        let s = self.begin_edit();
        if self.selection() is Some {
            s
        } else if s.text.col < s.line_len() {
            s.cut_out(s.text.row, s.text.col, s.text.row, s.line_len())
        } else if s.text.row + 1 < s.line_count() {
            s.join_next()
        } else {
            s
        }
    }

    /// Without the selection, or else the line up to the cursor cut out; at the
    /// head of a line, without the line break before it.
    pub open spec fn delete_to_line_start(self) -> BufferView {
        let s = self.begin_edit();
        if self.selection() is Some {
            s
        } else if s.text.col > 0 {
            s.cut_out(s.text.row, 0, s.text.row, s.text.col)
        } else if s.text.row > 0 {
            s.join_previous()
        } else {
            s
        }
    }

    /// Without the selection, or else the text up to the end of the next word cut
    /// out; at the end of a line, without the line break behind it.
    pub open spec fn delete_word_forward(self) -> BufferView {
        let s = self.begin_edit();
        if self.selection() is Some {
            s
        } else if s.text.col < s.line_len() {
            s.cut_out(
                s.text.row,
                s.text.col,
                s.text.row,
                word_end_after(s.text.line(), s.text.col),
            )
        } else if s.text.row + 1 < s.line_count() {
            s.join_next()
        } else {
            s
        }
    }

    /// Without the selection, or else the text from the start of the word before
    /// the cursor cut out; at the head of a line, without the line break before it.
    pub open spec fn delete_word_backward(self) -> BufferView {
        let s = self.begin_edit();
        if self.selection() is Some {
            s
        } else if s.text.col > 0 {
            s.cut_out(
                s.text.row,
                word_start_before(s.text.line(), s.text.col),
                s.text.row,
                s.text.col,
            )
        } else if s.text.row > 0 {
            s.join_previous()
        } else {
            s
        }
    }

    /// The cursor's line leaves the text and goes to the yank register. The
    /// cursor lands at the head of the line that takes its place; after the
    /// last line, at the end of the line before it.
    pub open spec fn delete_current_line(self) -> BufferView {
        let s = BufferView { anchor: None, yank: self.text.line(), ..self.checkpointed() };
        let row = self.text.row;
        if row + 1 < self.line_count() {
            s.erase(row, 0, row + 1, 0)
        } else if row > 0 {
            s.erase(row - 1, self.len_of(row - 1), row, self.line_len())
        } else {
            s.erase(0, 0, 0, self.line_len())
        }
    }

    /// The selected text, or else the cursor's line, copied into the yank register;
    /// the selection ends.
    pub open spec fn copy(self) -> BufferView {
        BufferView { anchor: None, yank: self.selected_text(), ..self }
    }

    /// The selected text cut out into the yank register; with nothing selected,
    /// the cursor's line.
    pub open spec fn cut(self) -> BufferView {
        match self.selection() {
            Some(r) => BufferView {
                anchor: None,
                ..self.checkpointed().cut_out(r.0, r.1, r.2, r.3)
            },
            None => self.delete_current_line(),
        }
    }

    /// The yank register typed at the cursor; an empty register changes nothing.
    pub open spec fn paste(self) -> BufferView {
        if self.yank.len() == 0 {
            self
        } else {
            self.insert_text(self.yank)
        }
    }

    /// The text from before the last edit; with nothing to undo, the same buffer.
    pub open spec fn undo(self) -> BufferView {
        if self.undo.len() == 0 {
            self
        } else {
            BufferView {
                text: self.undo.last(),
                anchor: None,
                undo: self.undo.drop_last(),
                ..self
            }
        }
    }

    /// One empty line and no undo stack; the yank register stays.
    pub open spec fn clear(self) -> BufferView {
        BufferView { text: TextState::empty(), anchor: None, undo: Seq::empty(), ..self }
    }

    /// A selection started at the cursor.
    pub open spec fn start_selection(self) -> BufferView {
        BufferView { anchor: Some((self.text.row, self.text.col)), ..self }
    }

    /// No selection.
    pub open spec fn cancel_selection(self) -> BufferView {
        BufferView { anchor: None, ..self }
    }

    /// One place back; from the head of a line to the end of the line before.
    pub open spec fn move_back(self) -> BufferView {
        if self.text.col > 0 {
            self.moved(self.text.row, self.text.col - 1)
        } else if self.text.row > 0 {
            self.moved(self.text.row - 1, self.len_of(self.text.row - 1))
        } else {
            self
        }
    }

    /// One place forward; from the end of a line to the head of the next.
    pub open spec fn move_forward(self) -> BufferView {
        if self.text.col < self.line_len() {
            self.moved(self.text.row, self.text.col + 1)
        } else if self.text.row + 1 < self.line_count() {
            self.moved(self.text.row + 1, 0)
        } else {
            self
        }
    }

    /// One line up, the column kept as far as the line reaches.
    pub open spec fn move_up(self) -> BufferView {
        if self.text.row > 0 {
            self.moved(self.text.row - 1, least(self.text.col, self.len_of(self.text.row - 1)))
        } else {
            self
        }
    }

    /// One line down, the column kept as far as the line reaches.
    pub open spec fn move_down(self) -> BufferView {
        if self.text.row + 1 < self.line_count() {
            self.moved(self.text.row + 1, least(self.text.col, self.len_of(self.text.row + 1)))
        } else {
            self
        }
    }

    /// To the head of the line.
    pub open spec fn move_head(self) -> BufferView {
        self.moved(self.text.row, 0)
    }

    /// To the end of the line.
    pub open spec fn move_end(self) -> BufferView {
        self.moved(self.text.row, self.line_len())
    }

    /// To the start of the next word; with none left on the line, to the head of
    /// the next line, or on the last line to its end.
    pub open spec fn move_word_forward(self) -> BufferView {
        let target = word_start_after(self.text.line(), self.text.col);
        if target < self.line_len() {
            self.moved(self.text.row, target)
        } else if self.text.row + 1 < self.line_count() {
            self.moved(self.text.row + 1, 0)
        } else {
            self.moved(self.text.row, self.line_len())
        }
    }

    /// To the start of the word before the cursor; from the head of a line to the
    /// end of the line before.
    pub open spec fn move_word_backward(self) -> BufferView {
        if self.text.col > 0 {
            self.moved(self.text.row, word_start_before(self.text.line(), self.text.col))
        } else if self.text.row > 0 {
            self.moved(self.text.row - 1, self.len_of(self.text.row - 1))
        } else {
            self
        }
    }

    /// To the start of the first line.
    pub open spec fn move_document_start(self) -> BufferView {
        self.moved(0, 0)
    }

    /// To the last line, the column kept as far as the line reaches.
    pub open spec fn move_document_end(self) -> BufferView {
        self.moved(
            self.line_count() - 1,
            least(self.text.col, self.len_of(self.line_count() - 1)),
        )
    }

    /// To `(row, col)`, or as near to it as the text reaches.
    pub open spec fn jump(self, row: int, col: int) -> BufferView {
        let r = least(row, self.line_count() - 1);
        self.moved(r, least(col, self.len_of(r)))
    }
}

/// An editable text buffer.
pub struct Buffer {
    text: Text,
    anchor: Option<(usize, usize)>,
    yank: Vec<char>,
    undo: Vec<Text>,
}

impl View for Buffer {
    type V = BufferView;

    closed spec fn view(&self) -> BufferView {
        BufferView {
            text: self.text@,
            anchor: match self.anchor {
                Some(a) => Some((a.0 as int, a.1 as int)),
                None => None,
            },
            yank: self.yank@,
            undo: Seq::new(self.undo@.len(), |i: int| self.undo@[i]@),
        }
    }
}

impl Buffer {
    /// A fresh buffer.
    pub fn new() -> (b: Buffer)
        ensures
            b@ == BufferView::empty(),
            b@.wf(),
    {
        let b = Buffer { text: Text::new(), anchor: None, yank: Vec::new(), undo: Vec::new() };
        assert(b@.undo =~= Seq::empty());
        assert(b@.yank =~= Seq::empty());
        b
    }

    /// A buffer that holds `text`, broken into lines at its line breaks, with
    /// the cursor at the start.
    pub fn from_text(text: &Vec<char>) -> (b: Buffer)
        ensures
            b@ == BufferView::empty().with_text(TextState::empty().type_text(text@).at(0, 0)),
            b@.wf(),
    {
        let mut b = Buffer::new();
        b.text.type_text(text);
        b.text.set_cursor(0, 0);
        b
    }

    /// The lines, first to last.
    pub fn lines(&self) -> (lines: &Vec<Vec<char>>)
        ensures
            lines@.len() == self@.text.lines.len(),
            forall|i: int| 0 <= i < lines@.len() ==> (#[trigger] lines@[i])@ == self@.text.lines[i],
    {
        self.text.lines()
    }

    /// The whole text, its lines joined by line breaks.
    pub fn text(&self) -> (text: Vec<char>)
        requires
            self@.wf(),
        ensures
            text@ == self@.whole_text(),
    {
        let last = self.text.line_count() - 1;
        let len = self.text.line_len(last);
        self.text.extract(0, 0, last, len)
    }

    /// The cursor's line and column. They lie inside the text.
    pub fn cursor(&self) -> (at: (usize, usize))
        requires
            self@.wf(),
        ensures
            at.0 == self@.text.row,
            at.1 == self@.text.col,
            at.0 < self@.text.lines.len(),
            at.1 <= self@.text.lines[at.0 as int].len(),
    {
        (self.text.row(), self.text.col())
    }

    /// Where the selection was started, if one is active.
    pub fn selection_start(&self) -> (a: Option<(usize, usize)>)
        ensures
            match a {
                Some(p) => self@.anchor == Some((p.0 as int, p.1 as int)),
                None => self@.anchor is None,
            },
    {
        self.anchor
    }

    /// Whether a selection is active.
    pub fn is_selecting(&self) -> (b: bool)
        ensures
            b == self@.anchor is Some,
    {
        self.anchor.is_some()
    }

    /// The text copied or cut last.
    pub fn yank_text(&self) -> (text: &Vec<char>)
        ensures
            text@ == self@.yank,
    {
        &self.yank
    }

    /// How many steps undo can go back.
    pub fn undo_depth(&self) -> (n: usize)
        ensures
            n == self@.undo.len(),
    {
        self.undo.len()
    }

    /// The selected range in document order, if anything is selected.
    pub fn selection_range(&self) -> (r: Option<(usize, usize, usize, usize)>)
        requires
            self@.wf(),
        ensures
            match r {
                Some(t) => self@.selection() == Some(
                    (t.0 as int, t.1 as int, t.2 as int, t.3 as int),
                ),
                None => self@.selection() is None,
            },
    {
        let row = self.text.row();
        let col = self.text.col();
        match self.anchor {
            None => None,
            Some(a) => {
                if a.0 == row && a.1 == col {
                    None
                } else if a.0 < row || (a.0 == row && a.1 < col) {
                    Some((a.0, a.1, row, col))
                } else {
                    Some((row, col, a.0, a.1))
                }
            },
        }
    }

    fn checkpoint(&mut self)
        requires
            old(self)@.wf(),
        ensures
            final(self)@ == old(self)@.checkpointed(),
            final(self)@.wf(),
    {
        let t = self.text.copy();
        self.undo.push(t);
        assert(self@.undo =~= old(self)@.undo.push(old(self)@.text));
    }

    fn erase(&mut self, sr: usize, sc: usize, er: usize, ec: usize)
        requires
            old(self)@.wf(),
            old(self)@.anchor is None,
            old(self)@.text.valid_range(sr as int, sc as int, er as int, ec as int),
        ensures
            final(self)@ == old(self)@.erase(sr as int, sc as int, er as int, ec as int),
            final(self)@.wf(),
    {
        self.text.remove_range(sr, sc, er, ec);
    }

    fn cut_out(&mut self, sr: usize, sc: usize, er: usize, ec: usize)
        requires
            old(self)@.wf(),
            old(self)@.anchor is None,
            old(self)@.text.valid_range(sr as int, sc as int, er as int, ec as int),
        ensures
            final(self)@ == old(self)@.cut_out(sr as int, sc as int, er as int, ec as int),
            final(self)@.wf(),
    {
        self.yank = self.text.extract(sr, sc, er, ec);
        self.text.remove_range(sr, sc, er, ec);
    }

    fn drop_selection(&mut self) -> (had: bool)
        requires
            old(self)@.wf(),
        ensures
            final(self)@ == old(self)@.without_selection(),
            had == old(self)@.selection() is Some,
            final(self)@.wf(),
            final(self)@.anchor is None,
            !had ==> final(self)@.text == old(self)@.text,
    {
        let range = self.selection_range();
        self.anchor = None;
        match range {
            Some(r) => {
                self.erase(r.0, r.1, r.2, r.3);
                true
            },
            None => false,
        }
    }

    fn begin_edit(&mut self) -> (had: bool)
        requires
            old(self)@.wf(),
        ensures
            final(self)@ == old(self)@.begin_edit(),
            had == old(self)@.selection() is Some,
            final(self)@.wf(),
            final(self)@.anchor is None,
            !had ==> final(self)@.text == old(self)@.text,
    {
        self.checkpoint();
        self.drop_selection()
    }

    fn join_previous(&mut self)
        requires
            old(self)@.wf(),
            old(self)@.anchor is None,
            old(self)@.text.row > 0,
        ensures
            final(self)@ == old(self)@.join_previous(),
            final(self)@.wf(),
    {
        let row = self.text.row();
        let len = self.text.line_len(row - 1);
        self.erase(row - 1, len, row, 0);
    }

    fn join_next(&mut self)
        requires
            old(self)@.wf(),
            old(self)@.anchor is None,
            old(self)@.text.row + 1 < old(self)@.line_count(),
        ensures
            final(self)@ == old(self)@.join_next(),
            final(self)@.wf(),
    {
        let row = self.text.row();
        let col = self.text.col();
        let count = self.text.line_count();
        assert(row < count);
        self.erase(row, col, row + 1, 0);
    }

    /// Puts `c` in at the cursor, in place of the selection if one is active.
    /// A line break starts a new line, and so does a carriage return.
    pub fn insert_char(&mut self, c: char)
        requires
            old(self)@.wf(),
        ensures
            final(self)@ == old(self)@.insert_char(c),
            final(self)@.wf(),
    {
        self.begin_edit();
        if c == '\r' {
            self.text.type_char('\n');
        } else {
            self.text.type_char(c);
        }
    }

    /// Breaks the line at the cursor.
    pub fn insert_newline(&mut self)
        requires
            old(self)@.wf(),
        ensures
            final(self)@ == old(self)@.insert_newline(),
            final(self)@.wf(),
    {
        self.begin_edit();
        self.text.type_char('\n');
    }

    /// Puts `text` in at the cursor, in place of the selection if one is active.
    pub fn insert_text(&mut self, text: &Vec<char>)
        requires
            old(self)@.wf(),
        ensures
            final(self)@ == old(self)@.insert_text(text@),
            final(self)@.wf(),
    {
        self.begin_edit();
        self.text.type_text(text);
    }

    /// Deletes the selection, or else the character before the cursor; at the
    /// head of a line, the line break before it.
    pub fn delete_char_before_cursor(&mut self)
        requires
            old(self)@.wf(),
        ensures
            final(self)@ == old(self)@.delete_char_before_cursor(),
            final(self)@.wf(),
    {
        let had = self.begin_edit();
        if !had {
            let row = self.text.row();
            let col = self.text.col();
            if col > 0 {
                self.erase(row, col - 1, row, col);
            } else if row > 0 {
                self.join_previous();
            }
        }
    }

    /// Deletes the selection, or else the character under the cursor; at the
    /// end of a line, the line break behind it.
    pub fn delete_char_at_cursor(&mut self)
        requires
            old(self)@.wf(),
        ensures
            final(self)@ == old(self)@.delete_char_at_cursor(),
            final(self)@.wf(),
    {
        let had = self.begin_edit();
        if !had {
            let row = self.text.row();
            let col = self.text.col();
            if col < self.text.line_len(row) {
                self.erase(row, col, row, col + 1);
            } else if row < self.text.line_count() - 1 {
                self.join_next();
            }
        }
    }

    /// Deletes the selection, or else from the cursor to the end of the line,
    /// which goes to the yank register; at the end of a line, the line break.
    pub fn delete_to_line_end(&mut self)
        requires
            old(self)@.wf(),
        ensures
            final(self)@ == old(self)@.delete_to_line_end(),
            final(self)@.wf(),
    {
        let had = self.begin_edit();
        if !had {
            let row = self.text.row();
            let col = self.text.col();
            let len = self.text.line_len(row);
            if col < len {
                self.cut_out(row, col, row, len);
            } else if row < self.text.line_count() - 1 {
                self.join_next();
            }
        }
    }

    /// Deletes the selection, or else from the head of the line to the cursor,
    /// which goes to the yank register; at the head of a line, the line break.
    pub fn delete_to_line_start(&mut self)
        requires
            old(self)@.wf(),
        ensures
            final(self)@ == old(self)@.delete_to_line_start(),
            final(self)@.wf(),
    {
        let had = self.begin_edit();
        if !had {
            let row = self.text.row();
            let col = self.text.col();
            if col > 0 {
                self.cut_out(row, 0, row, col);
            } else if row > 0 {
                self.join_previous();
            }
        }
    }

    /// Deletes the selection, or else from the cursor to the end of the next
    /// word, which goes to the yank register; at the end of a line, the line break.
    pub fn delete_word_forward(&mut self)
        requires
            old(self)@.wf(),
        ensures
            final(self)@ == old(self)@.delete_word_forward(),
            final(self)@.wf(),
    {
        let had = self.begin_edit();
        if !had {
            let row = self.text.row();
            let col = self.text.col();
            let len = self.text.line_len(row);
            if col < len {
                let line = self.text.line(row);
                let gap = scan_spaces(line, col);
                let end = scan_word(line, gap);
                self.cut_out(row, col, row, end);
            } else if row < self.text.line_count() - 1 {
                self.join_next();
            }
        }
    }

    /// Deletes the selection, or else from the start of the word before the
    /// cursor to the cursor, which goes to the yank register; at the head of a
    /// line, the line break.
    pub fn delete_word_backward(&mut self)
        requires
            old(self)@.wf(),
        ensures
            final(self)@ == old(self)@.delete_word_backward(),
            final(self)@.wf(),
    {
        let had = self.begin_edit();
        if !had {
            let row = self.text.row();
            let col = self.text.col();
            if col > 0 {
                let line = self.text.line(row);
                let gap = scan_spaces_back(line, col);
                let start = scan_word_back(line, gap);
                self.cut_out(row, start, row, col);
            } else if row > 0 {
                self.join_previous();
            }
        }
    }

    /// Moves the cursor's line to the yank register. A buffer of one line
    /// keeps that line, empty.
    pub fn delete_current_line(&mut self)
        requires
            old(self)@.wf(),
        ensures
            final(self)@ == old(self)@.delete_current_line(),
            final(self)@.wf(),
    {
        self.checkpoint();
        self.anchor = None;
        let row = self.text.row();
        let len = self.text.line_len(row);
        self.yank = self.text.extract(row, 0, row, len);
        assert(self@.yank =~= old(self)@.text.line());
        if row < self.text.line_count() - 1 {
            self.erase(row, 0, row + 1, 0);
        } else if row > 0 {
            let before = self.text.line_len(row - 1);
            self.erase(row - 1, before, row, len);
        } else {
            self.erase(0, 0, 0, len);
        }
    }

    /// Copies the selection, or else the cursor's line, into the yank register
    /// and returns it. The selection ends.
    pub fn copy(&mut self) -> (text: Vec<char>)
        requires
            old(self)@.wf(),
        ensures
            final(self)@ == old(self)@.copy(),
            text@ == old(self)@.selected_text(),
            final(self)@.wf(),
    {
        let text = self.selected();
        self.yank = self.selected();
        self.anchor = None;
        text
    }

    /// The selected text; with nothing selected, the cursor's line.
    pub fn selected(&self) -> (text: Vec<char>)
        requires
            self@.wf(),
        ensures
            text@ == self@.selected_text(),
    {
        match self.selection_range() {
            Some(r) => self.text.extract(r.0, r.1, r.2, r.3),
            None => {
                let row = self.text.row();
                let len = self.text.line_len(row);
                let text = self.text.extract(row, 0, row, len);
                assert(text@ =~= self@.text.line());
                text
            },
        }
    }

    /// Moves the selection, or else the cursor's line, into the yank register
    /// and returns it.
    pub fn cut(&mut self) -> (text: Vec<char>)
        requires
            old(self)@.wf(),
        ensures
            final(self)@ == old(self)@.cut(),
            text@ == old(self)@.selected_text(),
            final(self)@.wf(),
    {
        let text = self.selected();
        match self.selection_range() {
            Some(r) => {
                self.checkpoint();
                self.anchor = None;
                self.cut_out(r.0, r.1, r.2, r.3);
            },
            None => {
                self.delete_current_line();
            },
        }
        text
    }

    /// Puts the yank register in at the cursor. Tells whether there was
    /// anything to paste; an empty register changes nothing.
    pub fn paste(&mut self) -> (pasted: bool)
        requires
            old(self)@.wf(),
        ensures
            final(self)@ == old(self)@.paste(),
            pasted == (old(self)@.yank.len() > 0),
            final(self)@.wf(),
    {
        if self.yank.len() == 0 {
            return false;
        }
        self.begin_edit();
        self.text.type_text(&self.yank);
        true
    }

    /// Goes back to the text before the last edit. Tells whether there was
    /// one; with nothing to undo the buffer stays as it is.
    pub fn undo(&mut self) -> (undone: bool)
        requires
            old(self)@.wf(),
        ensures
            final(self)@ == old(self)@.undo(),
            undone == (old(self)@.undo.len() > 0),
            final(self)@.wf(),
    {
        match self.undo.pop() {
            Some(t) => {
                assert(t@ == old(self)@.undo.last());
                self.text = t;
                self.anchor = None;
                assert(self@.undo =~= old(self)@.undo.drop_last());
                true
            },
            None => false,
        }
    }

    /// Empties the buffer and forgets the undo stack. The yank register stays.
    pub fn clear(&mut self)
        ensures
            final(self)@ == old(self)@.clear(),
            final(self)@.wf(),
    {
        self.text = Text::new();
        self.anchor = None;
        self.undo = Vec::new();
        assert(self@.undo =~= Seq::empty());
    }

    /// Starts a selection at the cursor.
    pub fn start_selection(&mut self)
        requires
            old(self)@.wf(),
        ensures
            final(self)@ == old(self)@.start_selection(),
            final(self)@.wf(),
    {
        self.anchor = Some((self.text.row(), self.text.col()));
    }

    /// Ends the selection.
    pub fn cancel_selection(&mut self)
        requires
            old(self)@.wf(),
        ensures
            final(self)@ == old(self)@.cancel_selection(),
            final(self)@.wf(),
    {
        self.anchor = None;
    }

    /// One place back; from the head of a line to the end of the line before.
    pub fn move_back(&mut self)
        requires
            old(self)@.wf(),
        ensures
            final(self)@ == old(self)@.move_back(),
            final(self)@.wf(),
    {
        let row = self.text.row();
        let col = self.text.col();
        if col > 0 {
            self.text.set_cursor(row, col - 1);
        } else if row > 0 {
            let len = self.text.line_len(row - 1);
            self.text.set_cursor(row - 1, len);
        }
    }

    /// One place forward; from the end of a line to the head of the next.
    pub fn move_forward(&mut self)
        requires
            old(self)@.wf(),
        ensures
            final(self)@ == old(self)@.move_forward(),
            final(self)@.wf(),
    {
        let row = self.text.row();
        let col = self.text.col();
        if col < self.text.line_len(row) {
            self.text.set_cursor(row, col + 1);
        } else if row < self.text.line_count() - 1 {
            self.text.set_cursor(row + 1, 0);
        }
    }

    /// One line up, the column kept as far as the line reaches.
    pub fn move_up(&mut self)
        requires
            old(self)@.wf(),
        ensures
            final(self)@ == old(self)@.move_up(),
            final(self)@.wf(),
    {
        let row = self.text.row();
        let col = self.text.col();
        if row > 0 {
            let len = self.text.line_len(row - 1);
            self.text.set_cursor(row - 1, if col <= len { col } else { len });
        }
    }

    /// One line down, the column kept as far as the line reaches.
    pub fn move_down(&mut self)
        requires
            old(self)@.wf(),
        ensures
            final(self)@ == old(self)@.move_down(),
            final(self)@.wf(),
    {
        let row = self.text.row();
        let col = self.text.col();
        if row < self.text.line_count() - 1 {
            let len = self.text.line_len(row + 1);
            self.text.set_cursor(row + 1, if col <= len { col } else { len });
        }
    }

    /// To the head of the line.
    pub fn move_head(&mut self)
        requires
            old(self)@.wf(),
        ensures
            final(self)@ == old(self)@.move_head(),
            final(self)@.wf(),
    {
        let row = self.text.row();
        self.text.set_cursor(row, 0);
    }

    /// To the end of the line.
    pub fn move_end(&mut self)
        requires
            old(self)@.wf(),
        ensures
            final(self)@ == old(self)@.move_end(),
            final(self)@.wf(),
    {
        let row = self.text.row();
        let len = self.text.line_len(row);
        self.text.set_cursor(row, len);
    }

    /// To the start of the next word; with none left on the line, to the head
    /// of the next line, or on the last line to its end.
    pub fn move_word_forward(&mut self)
        requires
            old(self)@.wf(),
        ensures
            final(self)@ == old(self)@.move_word_forward(),
            final(self)@.wf(),
    {
        let row = self.text.row();
        let col = self.text.col();
        let len = self.text.line_len(row);
        let line = self.text.line(row);
        let rest = scan_word(line, col);
        let target = scan_spaces(line, rest);
        if target < len {
            self.text.set_cursor(row, target);
        } else if row < self.text.line_count() - 1 {
            self.text.set_cursor(row + 1, 0);
        } else {
            self.text.set_cursor(row, len);
        }
    }

    /// To the start of the word before the cursor; from the head of a line to
    /// the end of the line before.
    pub fn move_word_backward(&mut self)
        requires
            old(self)@.wf(),
        ensures
            final(self)@ == old(self)@.move_word_backward(),
            final(self)@.wf(),
    {
        let row = self.text.row();
        let col = self.text.col();
        if col > 0 {
            let line = self.text.line(row);
            let gap = scan_spaces_back(line, col);
            let target = scan_word_back(line, gap);
            self.text.set_cursor(row, target);
        } else if row > 0 {
            let len = self.text.line_len(row - 1);
            self.text.set_cursor(row - 1, len);
        }
    }

    /// To the start of the first line.
    pub fn move_document_start(&mut self)
        requires
            old(self)@.wf(),
        ensures
            final(self)@ == old(self)@.move_document_start(),
            final(self)@.wf(),
    {
        self.text.set_cursor(0, 0);
    }

    /// To the last line, the column kept as far as the line reaches.
    pub fn move_document_end(&mut self)
        requires
            old(self)@.wf(),
        ensures
            final(self)@ == old(self)@.move_document_end(),
            final(self)@.wf(),
    {
        let col = self.text.col();
        let last = self.text.line_count() - 1;
        let len = self.text.line_len(last);
        self.text.set_cursor(last, if col <= len { col } else { len });
    }

    /// To `(row, col)`, or as near to it as the text reaches.
    pub fn jump(&mut self, row: usize, col: usize)
        requires
            old(self)@.wf(),
        ensures
            final(self)@ == old(self)@.jump(row as int, col as int),
            final(self)@.wf(),
    {
        let last = self.text.line_count() - 1;
        let r = if row <= last { row } else { last };
        let len = self.text.line_len(r);
        self.text.set_cursor(r, if col <= len { col } else { len });
    }
}

} // verus!
