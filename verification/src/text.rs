//! Lines of text with a cursor: the part of the buffer that undo restores.
use vstd::prelude::*;

verus! {

/// What a text is, mathematically: its lines, and the cursor's line and column.
pub struct TextState {
    pub lines: Seq<Seq<char>>,
    pub row: int,
    pub col: int,
}

/// A line holds no line break.
#[verifier::opaque]
pub open spec fn line_ok(line: Seq<char>) -> bool {
    forall|j: int| 0 <= j < line.len() ==> line[j] != '\n'
}

/// Number of characters in `lines`, one line break between two lines counted in.
pub open spec fn count_chars(lines: Seq<Seq<char>>) -> int
    decreases lines.len(),
{
    if lines.len() == 0 {
        0
    } else if lines.len() == 1 {
        lines[0].len() as int
    } else {
        count_chars(lines.drop_last()) + 1 + lines.last().len()
    }
}

impl TextState {
    /// The text with one empty line and the cursor in front of it.
    pub open spec fn empty() -> TextState {
        TextState { lines: seq![Seq::<char>::empty()], row: 0, col: 0 }
    }

    /// `(row, col)` names a place in the text: a line, and a column up to its end.
    pub open spec fn contains(self, row: int, col: int) -> bool {
        0 <= row < self.lines.len() && 0 <= col <= self.lines[row].len()
    }

    /// There is a line, the cursor names a place, and no line holds a line break.
    pub open spec fn wf(self) -> bool {
        &&& self.contains(self.row, self.col)
        &&& forall|i: int| 0 <= i < self.lines.len() ==> line_ok(#[trigger] self.lines[i])
    }

    /// The line under the cursor.
    pub open spec fn line(self) -> Seq<char> {
        self.lines[self.row]
    }

    /// The same lines with the cursor at `(row, col)`.
    pub open spec fn at(self, row: int, col: int) -> TextState {
        TextState { lines: self.lines, row, col }
    }

    /// `c` put in at the cursor, which moves behind it.
    pub open spec fn put_char(self, c: char) -> TextState {
        TextState {
            lines: self.lines.update(self.row, self.line().insert(self.col, c)),
            row: self.row,
            col: self.col + 1,
        }
    }

    /// The cursor's line broken at the cursor, which moves to the head of the new line.
    pub open spec fn split_line(self) -> TextState {
        TextState {
            lines: self.lines.update(self.row, self.line().subrange(0, self.col)).insert(
                self.row + 1,
                self.line().subrange(self.col, self.line().len() as int),
            ),
            row: self.row + 1,
            col: 0,
        }
    }

    /// One key stroke: a line break splits the line, any other character goes in.
    pub open spec fn type_char(self, c: char) -> TextState {
        if c == '\n' {
            self.split_line()
        } else {
            self.put_char(c)
        }
    }

    /// `text` typed character by character.
    pub open spec fn type_text(self, text: Seq<char>) -> TextState
        decreases text.len(),
    {
        if text.len() == 0 {
            self
        } else {
            self.type_text(text.drop_last()).type_char(text.last())
        }
    }

    /// `(sr, sc)` and `(er, ec)` are places of the text, the first not behind the second.
    pub open spec fn valid_range(self, sr: int, sc: int, er: int, ec: int) -> bool {
        &&& self.contains(sr, sc)
        &&& self.contains(er, ec)
        &&& (sr < er || (sr == er && sc <= ec))
    }

    /// The text from `(sr, sc)` up to `(er, ec)`, line breaks included.
    pub open spec fn text_between(self, sr: int, sc: int, er: int, ec: int) -> Seq<char>
        decreases er - sr,
    {
        if er <= sr {
            self.lines[sr].subrange(sc, ec)
        } else {
            self.text_between(sr, sc, er - 1, self.lines[er - 1].len() as int) + seq!['\n']
                + self.lines[er].subrange(0, ec)
        }
    }

    /// The text without what lies from `(sr, sc)` up to `(er, ec)`; the cursor
    /// stands where the gap was.
    pub open spec fn remove_range(self, sr: int, sc: int, er: int, ec: int) -> TextState {
        TextState {
            lines: self.lines.subrange(0, sr).push(
                self.lines[sr].subrange(0, sc) + self.lines[er].subrange(
                    ec,
                    self.lines[er].len() as int,
                ),
            ) + self.lines.subrange(er + 1, self.lines.len() as int),
            row: sr,
            col: sc,
        }
    }

    /// Number of characters in the text, line breaks counted in.
    pub open spec fn char_count(self) -> int {
        count_chars(self.lines)
    }
}

/// Lines of text with a cursor.
pub struct Text {
    lines: Vec<Vec<char>>,
    row: usize,
    col: usize,
}

impl View for Text {
    type V = TextState;

    closed spec fn view(&self) -> TextState {
        TextState {
            lines: Seq::new(self.lines@.len(), |i: int| self.lines@[i]@),
            row: self.row as int,
            col: self.col as int,
        }
    }
}

/// Appends `line[from..to]` to `out`.
fn append_range(out: &mut Vec<char>, line: &Vec<char>, from: usize, to: usize)
    requires
        from <= to <= line.len(),
    ensures
        final(out)@ == old(out)@ + line@.subrange(from as int, to as int),
{
    let mut i: usize = from;
    while i < to
        invariant
            from <= i <= to <= line.len(),
            out@ == old(out)@ + line@.subrange(from as int, i as int),
        decreases to - i,
    {
        out.push(line[i]);
        i = i + 1;
        assert(out@ =~= old(out)@ + line@.subrange(from as int, i as int));
    }
    assert(out@ =~= old(out)@ + line@.subrange(from as int, to as int));
}

/// A copy of `line`.
fn copy_line(line: &Vec<char>) -> (out: Vec<char>)
    ensures
        out@ == line@,
{
    let mut out: Vec<char> = Vec::new();
    append_range(&mut out, line, 0, line.len());
    assert(out@ =~= line@);
    out
}

impl Text {
    /// One empty line, the cursor in front of it.
    pub fn new() -> (t: Text)
        ensures
            t@ == TextState::empty(),
            t@.wf(),
    {
        let mut lines: Vec<Vec<char>> = Vec::new();
        lines.push(Vec::new());
        let t = Text { lines, row: 0, col: 0 };
        proof {
            reveal(line_ok);
        }
        assert(t@.lines =~~= TextState::empty().lines);
        t
    }

    /// The cursor's line.
    pub fn row(&self) -> (r: usize)
        ensures
            r == self@.row,
    {
        self.row
    }

    /// The cursor's column.
    pub fn col(&self) -> (c: usize)
        ensures
            c == self@.col,
    {
        self.col
    }

    /// Number of lines.
    pub fn line_count(&self) -> (n: usize)
        ensures
            n == self@.lines.len(),
    {
        self.lines.len()
    }

    /// Length of line `row`.
    pub fn line_len(&self, row: usize) -> (n: usize)
        requires
            row < self@.lines.len(),
        ensures
            n == self@.lines[row as int].len(),
    {
        self.lines[row].len()
    }

    /// Line `row`.
    pub fn line(&self, row: usize) -> (line: &Vec<char>)
        requires
            row < self@.lines.len(),
        ensures
            line@ == self@.lines[row as int],
    {
        &self.lines[row]
    }

    /// All lines, first to last.
    pub fn lines(&self) -> (lines: &Vec<Vec<char>>)
        ensures
            lines@.len() == self@.lines.len(),
            forall|i: int| 0 <= i < lines@.len() ==> (#[trigger] lines@[i])@ == self@.lines[i],
    {
        &self.lines
    }

    /// Moves the cursor to `(row, col)`.
    pub fn set_cursor(&mut self, row: usize, col: usize)
        requires
            old(self)@.contains(row as int, col as int),
        ensures
            final(self)@ == old(self)@.at(row as int, col as int),
    {
        self.row = row;
        self.col = col;
    }

    /// A copy of the text, cursor included.
    pub fn copy(&self) -> (t: Text)
        ensures
            t@ == self@,
    {
        let mut lines: Vec<Vec<char>> = Vec::new();
        let mut i: usize = 0;
        while i < self.lines.len()
            invariant
                i <= self.lines.len(),
                lines@.len() == i,
                forall|k: int| 0 <= k < i ==> (#[trigger] lines@[k])@ == self.lines@[k]@,
            decreases self.lines.len() - i,
        {
            lines.push(copy_line(&self.lines[i]));
            i = i + 1;
        }
        let t = Text { lines, row: self.row, col: self.col };
        assert(t@.lines =~~= self@.lines);
        t
    }

    /// Types one character at the cursor: a line break splits the line.
    pub fn type_char(&mut self, c: char)
        requires
            old(self)@.wf(),
        ensures
            final(self)@ == old(self)@.type_char(c),
            final(self)@.wf(),
    {
        let ghost before = self@;
        assert(self.row < self.lines.len());
        assert(self.col <= self.lines[self.row as int].len());
        let mut line = self.lines.remove(self.row);
        if c == '\n' {
            let tail = line.split_off(self.col);
            self.lines.insert(self.row, line);
            assert(self.row < self.lines.len());
            self.lines.insert(self.row + 1, tail);
            self.row = self.row + 1;
            self.col = 0;
        } else {
            line.insert(self.col, c);
            assert(self.col < line.len());
            self.col = self.col + 1;
            self.lines.insert(self.row, line);
        }
        proof {
            assert(self@.lines =~~= before.type_char(c).lines);
            lemma_type_char_wf(before, c);
        }
    }

    /// Types `text` at the cursor.
    pub fn type_text(&mut self, text: &Vec<char>)
        requires
            old(self)@.wf(),
        ensures
            final(self)@ == old(self)@.type_text(text@),
            final(self)@.wf(),
    {
        let mut i: usize = 0;
        assert(text@.subrange(0, 0) =~= Seq::<char>::empty());
        while i < text.len()
            invariant
                i <= text.len(),
                self@.wf(),
                self@ == old(self)@.type_text(text@.subrange(0, i as int)),
            decreases text.len() - i,
        {
            self.type_char(text[i]);
            i = i + 1;
            assert(text@.subrange(0, i as int).drop_last() =~= text@.subrange(0, i - 1));
        }
        assert(text@.subrange(0, i as int) =~= text@);
    }

    /// The text from `(sr, sc)` up to `(er, ec)`.
    pub fn extract(&self, sr: usize, sc: usize, er: usize, ec: usize) -> (out: Vec<char>)
        requires
            self@.wf(),
            self@.valid_range(sr as int, sc as int, er as int, ec as int),
        ensures
            out@ == self@.text_between(sr as int, sc as int, er as int, ec as int),
    {
        let mut out: Vec<char> = Vec::new();
        if sr == er {
            append_range(&mut out, &self.lines[sr], sc, ec);
            assert(out@ =~= self@.lines[sr as int].subrange(sc as int, ec as int));
            return out;
        }
        append_range(&mut out, &self.lines[sr], sc, self.lines[sr].len());
        assert(out@ =~= self@.lines[sr as int].subrange(
            sc as int,
            self@.lines[sr as int].len() as int,
        ));
        let mut r: usize = sr;
        while r + 1 < er
            invariant
                sr <= r < er < self.lines.len(),
                out@ == self@.text_between(
                    sr as int,
                    sc as int,
                    r as int,
                    self@.lines[r as int].len() as int,
                ),
            decreases er - r,
        {
            r = r + 1;
            out.push('\n');
            append_range(&mut out, &self.lines[r], 0, self.lines[r].len());
            assert(self@.lines[r as int].subrange(0, self@.lines[r as int].len() as int)
                =~= self@.lines[r as int]);
            assert(out@ =~= self@.text_between(
                sr as int,
                sc as int,
                r as int,
                self@.lines[r as int].len() as int,
            ));
        }
        out.push('\n');
        append_range(&mut out, &self.lines[er], 0, ec);
        assert(out@ =~= self@.text_between(sr as int, sc as int, er as int, ec as int));
        out
    }

    /// Takes out what lies from `(sr, sc)` up to `(er, ec)` and puts the cursor there.
    pub fn remove_range(&mut self, sr: usize, sc: usize, er: usize, ec: usize)
        requires
            old(self)@.wf(),
            old(self)@.valid_range(sr as int, sc as int, er as int, ec as int),
        ensures
            final(self)@ == old(self)@.remove_range(sr as int, sc as int, er as int, ec as int),
            final(self)@.wf(),
    {
        let ghost before = self@;
        assert(er < self.lines.len());
        let mut after = self.lines.split_off(er + 1);
        let mut last = self.lines.pop().unwrap();
        let mut tail = last.split_off(ec);
        if sr < er {
            self.lines.truncate(sr + 1);
            let mut first = self.lines.pop().unwrap();
            first.truncate(sc);
            first.append(&mut tail);
            self.lines.push(first);
        } else {
            last.truncate(sc);
            last.append(&mut tail);
            self.lines.push(last);
        }
        self.lines.append(&mut after);
        self.row = sr;
        self.col = sc;
        proof {
            assert(self@.lines =~~= before.remove_range(
                sr as int,
                sc as int,
                er as int,
                ec as int,
            ).lines);
            lemma_remove_range_wf(before, sr as int, sc as int, er as int, ec as int);
        }
    }
}

/// Typing a character keeps a text well formed.
pub proof fn lemma_type_char_wf(t: TextState, c: char)
    requires
        t.wf(),
    ensures
        t.type_char(c).wf(),
        t.type_char(c).lines.len() == t.lines.len() + (if c == '\n' { 1int } else { 0int }),
{
    let u = t.type_char(c);
    reveal(line_ok);
    assert forall|i: int| 0 <= i < u.lines.len() implies line_ok(#[trigger] u.lines[i]) by {
        if c == '\n' {
            if i < t.row {
                assert(u.lines[i] == t.lines[i]);
            } else if i == t.row {
                assert(line_ok(t.lines[t.row]));
            } else if i == t.row + 1 {
                assert(line_ok(t.lines[t.row]));
            } else {
                assert(u.lines[i] == t.lines[i - 1]);
            }
        } else {
            if i == t.row {
                assert(line_ok(t.lines[t.row]));
            } else {
                assert(u.lines[i] == t.lines[i]);
            }
        }
    }
}

/// Typing a text keeps a text well formed.
pub proof fn lemma_type_text_wf(t: TextState, text: Seq<char>)
    requires
        t.wf(),
    ensures
        t.type_text(text).wf(),
    decreases text.len(),
{
    if text.len() > 0 {
        lemma_type_text_wf(t, text.drop_last());
        lemma_type_char_wf(t.type_text(text.drop_last()), text.last());
    }
}

/// Taking a range out keeps a text well formed.
pub proof fn lemma_remove_range_wf(t: TextState, sr: int, sc: int, er: int, ec: int)
    requires
        t.wf(),
        t.valid_range(sr, sc, er, ec),
    ensures
        t.remove_range(sr, sc, er, ec).wf(),
        t.remove_range(sr, sc, er, ec).lines.len() == t.lines.len() - (er - sr),
{
    let u = t.remove_range(sr, sc, er, ec);
    reveal(line_ok);
    assert forall|i: int| 0 <= i < u.lines.len() implies line_ok(#[trigger] u.lines[i]) by {
        if i < sr {
            assert(u.lines[i] == t.lines[i]);
        } else if i == sr {
            assert(line_ok(t.lines[sr]));
            assert(line_ok(t.lines[er]));
        } else {
            assert(u.lines[i] == t.lines[i + (er - sr)]);
        }
    }
}

} // verus!
