//! Typed text can be read back where it was typed.
use crate::text::{count_chars, lemma_type_char_wf, TextState};
use vstd::prelude::*;

verus! {

/// The text between two places depends only on the lines from the first
/// place's line to the second's.
pub proof fn lemma_text_between_agree(
    a: TextState,
    b: TextState,
    sr: int,
    sc: int,
    er: int,
    ec: int,
)
    requires
        0 <= sr <= er,
        forall|i: int| sr <= i <= er ==> a.lines[i] == b.lines[i],
    ensures
        a.text_between(sr, sc, er, ec) == b.text_between(sr, sc, er, ec),
    decreases er - sr,
{
    if sr < er {
        lemma_text_between_agree(a, b, sr, sc, er - 1, a.lines[er - 1].len() as int);
    }
}

/// Replacing one line changes the number of characters by the difference of
/// the two lengths.
pub proof fn lemma_count_update(lines: Seq<Seq<char>>, i: int, line: Seq<char>)
    requires
        0 <= i < lines.len(),
    ensures
        count_chars(lines.update(i, line)) == count_chars(lines) - lines[i].len() + line.len(),
    decreases lines.len(),
{
    let new = lines.update(i, line);
    if lines.len() > 1 {
        if i == lines.len() - 1 {
            assert(new.drop_last() =~= lines.drop_last());
        } else {
            assert(new.drop_last() =~= lines.drop_last().update(i, line));
            lemma_count_update(lines.drop_last(), i, line);
        }
    }
}

/// Breaking one line in two adds one character: the line break.
pub proof fn lemma_count_split(lines: Seq<Seq<char>>, i: int, head: Seq<char>, tail: Seq<char>)
    requires
        0 <= i < lines.len(),
        head.len() + tail.len() == lines[i].len(),
    ensures
        count_chars(lines.update(i, head).insert(i + 1, tail)) == count_chars(lines) + 1,
    decreases lines.len(),
{
    let new = lines.update(i, head).insert(i + 1, tail);
    if i == lines.len() - 1 {
        assert(new.drop_last() =~= lines.update(i, head));
        lemma_count_update(lines, i, head);
    } else {
        assert(new.drop_last() =~= lines.drop_last().update(i, head).insert(i + 1, tail));
        assert(new.last() == lines.last());
        lemma_count_split(lines.drop_last(), i, head, tail);
    }
}

/// One more character typed: the text between a place before the cursor
/// and the cursor grows by that character at its end, and the text as a whole
/// by one character.
pub proof fn lemma_type_char_extends(m: TextState, sr: int, sc: int, c: char)
    requires
        m.wf(),
        m.valid_range(sr, sc, m.row, m.col),
    ensures
        m.type_char(c).wf(),
        m.type_char(c).valid_range(sr, sc, m.type_char(c).row, m.type_char(c).col),
        m.type_char(c).text_between(sr, sc, m.type_char(c).row, m.type_char(c).col)
            == m.text_between(sr, sc, m.row, m.col).push(c),
        m.type_char(c).char_count() == m.char_count() + 1,
{
    lemma_type_char_wf(m, c);
    let u = m.type_char(c);
    let line = m.line();
    if c == '\n' {
        let head = line.subrange(0, m.col);
        let tail = line.subrange(m.col, line.len() as int);
        lemma_count_split(m.lines, m.row, head, tail);
        assert(u.lines[m.row] == head);
        assert(u.lines[m.row + 1] == tail);
        assert(u.lines[m.row + 1].subrange(0, 0) =~= Seq::<char>::empty());
        assert(u.lines[m.row].len() == m.col);
        if m.row == sr {
            assert(u.lines[sr].subrange(sc, m.col) =~= m.lines[sr].subrange(sc, m.col));
            assert(u.text_between(sr, sc, m.row, m.col) == m.text_between(sr, sc, m.row, m.col));
        } else {
            assert(u.lines[m.row - 1] == m.lines[m.row - 1]);
            lemma_text_between_agree(u, m, sr, sc, m.row - 1, m.lines[m.row - 1].len() as int);
            assert(u.lines[m.row].subrange(0, m.col) =~= m.lines[m.row].subrange(0, m.col));
            assert(u.text_between(sr, sc, m.row, m.col) == m.text_between(sr, sc, m.row, m.col));
        }
        assert(u.text_between(sr, sc, m.row + 1, 0) == u.text_between(sr, sc, m.row, m.col)
            + seq!['\n'] + u.lines[m.row + 1].subrange(0, 0));
        assert(u.text_between(sr, sc, u.row, u.col) =~= m.text_between(sr, sc, m.row, m.col).push(
            c,
        ));
    } else {
        lemma_count_update(m.lines, m.row, line.insert(m.col, c));
        if m.row == sr {
            assert(u.lines[sr].subrange(sc, m.col + 1) =~= m.lines[sr].subrange(sc, m.col).push(c));
        } else {
            lemma_text_between_agree(u, m, sr, sc, m.row - 1, m.lines[m.row - 1].len() as int);
            assert(u.lines[m.row].subrange(0, m.col + 1) =~= m.lines[m.row].subrange(
                0,
                m.col,
            ).push(c));
            assert(u.text_between(sr, sc, u.row, u.col) =~= m.text_between(
                sr,
                sc,
                m.row,
                m.col,
            ).push(c));
        }
    }
}

/// Text that was typed stands between the place where the cursor was and
/// the place where it is now, and the text as a whole has grown by its
/// length.
pub proof fn lemma_typed_text_reads_back(t: TextState, text: Seq<char>)
    requires
        t.wf(),
    ensures
        t.type_text(text).wf(),
        t.type_text(text).valid_range(t.row, t.col, t.type_text(text).row, t.type_text(text).col),
        t.type_text(text).text_between(t.row, t.col, t.type_text(text).row, t.type_text(text).col)
            == text,
        t.type_text(text).char_count() == t.char_count() + text.len(),
    decreases text.len(),
{
    if text.len() == 0 {
        assert(t.text_between(t.row, t.col, t.row, t.col) =~= text);
    } else {
        lemma_typed_text_reads_back(t, text.drop_last());
        let m = t.type_text(text.drop_last());
        lemma_type_char_extends(m, t.row, t.col, text.last());
        assert(text.drop_last().push(text.last()) =~= text);
    }
}

} // verus!
