//! Word boundaries inside one line of text.
//!
//! A word is a maximal run of characters that are not whitespace. The scans
//! below walk over spaces or over a word, forwards or backwards, and the
//! motions and deletions of the buffer are phrased with them.
use vstd::prelude::*;

verus! {

/// Whether `c` is whitespace: the code points that Unicode marks `White_Space`.
pub open spec fn is_space(c: char) -> bool {
    let n = c as u32;
    n == 0x20 || (0x09 <= n && n <= 0x0d) || n == 0x85 || n == 0xa0 || n == 0x1680 || (0x2000 <= n
        && n <= 0x200a) || n == 0x2028 || n == 0x2029 || n == 0x202f || n == 0x205f || n == 0x3000
}

/// First index at or after `i` that holds no whitespace (or the end of the line).
pub open spec fn skip_spaces(line: Seq<char>, i: int) -> int
    decreases line.len() - i,
{
    if 0 <= i < line.len() && is_space(line[i]) {
        skip_spaces(line, i + 1)
    } else {
        i
    }
}

/// First index at or after `i` that holds whitespace (or the end of the line).
pub open spec fn skip_word(line: Seq<char>, i: int) -> int
    decreases line.len() - i,
{
    if 0 <= i < line.len() && !is_space(line[i]) {
        skip_word(line, i + 1)
    } else {
        i
    }
}

/// Smallest index at or before `i` such that only whitespace lies between it and `i`.
pub open spec fn back_spaces(line: Seq<char>, i: int) -> int
    decreases i,
{
    if 0 < i <= line.len() && is_space(line[i - 1]) {
        back_spaces(line, i - 1)
    } else {
        i
    }
}

/// Smallest index at or before `i` such that no whitespace lies between it and `i`.
pub open spec fn back_word(line: Seq<char>, i: int) -> int
    decreases i,
{
    if 0 < i <= line.len() && !is_space(line[i - 1]) {
        back_word(line, i - 1)
    } else {
        i
    }
}

/// Where the word at or after `col` ends: past the spaces, then past the word.
pub open spec fn word_end_after(line: Seq<char>, col: int) -> int {
    skip_word(line, skip_spaces(line, col))
}

/// Where the next word starts: past the rest of this word, then past the spaces.
pub open spec fn word_start_after(line: Seq<char>, col: int) -> int {
    skip_spaces(line, skip_word(line, col))
}

/// Where the word before `col` starts: back over the spaces, then back over the word.
pub open spec fn word_start_before(line: Seq<char>, col: int) -> int {
    back_word(line, back_spaces(line, col))
}

/// `skip_spaces` stops at the first character that is no whitespace: everything
/// it passed is whitespace, and it stays inside the line.
pub proof fn lemma_skip_spaces(line: Seq<char>, i: int)
    requires
        0 <= i <= line.len(),
    ensures
        i <= skip_spaces(line, i) <= line.len(),
        forall|k: int| i <= k < skip_spaces(line, i) ==> is_space(#[trigger] line[k]),
        skip_spaces(line, i) < line.len() ==> !is_space(line[skip_spaces(line, i)]),
    decreases line.len() - i,
{
    if i < line.len() && is_space(line[i]) {
        lemma_skip_spaces(line, i + 1);
    }
}

/// `skip_word` stops at the first whitespace: everything it passed belongs to
/// the word, and it stays inside the line.
pub proof fn lemma_skip_word(line: Seq<char>, i: int)
    requires
        0 <= i <= line.len(),
    ensures
        i <= skip_word(line, i) <= line.len(),
        forall|k: int| i <= k < skip_word(line, i) ==> !is_space(#[trigger] line[k]),
        skip_word(line, i) < line.len() ==> is_space(line[skip_word(line, i)]),
    decreases line.len() - i,
{
    if i < line.len() && !is_space(line[i]) {
        lemma_skip_word(line, i + 1);
    }
}

/// `back_spaces` stops behind the last character that is no whitespace.
pub proof fn lemma_back_spaces(line: Seq<char>, i: int)
    requires
        0 <= i <= line.len(),
    ensures
        0 <= back_spaces(line, i) <= i,
        forall|k: int| back_spaces(line, i) <= k < i ==> is_space(#[trigger] line[k]),
        back_spaces(line, i) > 0 ==> !is_space(line[back_spaces(line, i) - 1]),
    decreases i,
{
    if 0 < i && is_space(line[i - 1]) {
        lemma_back_spaces(line, i - 1);
    }
}

/// `back_word` stops at the first character of the word that ends at `i`.
pub proof fn lemma_back_word(line: Seq<char>, i: int)
    requires
        0 <= i <= line.len(),
    ensures
        0 <= back_word(line, i) <= i,
        forall|k: int| back_word(line, i) <= k < i ==> !is_space(#[trigger] line[k]),
        back_word(line, i) > 0 ==> is_space(line[back_word(line, i) - 1]),
    decreases i,
{
    if 0 < i && !is_space(line[i - 1]) {
        lemma_back_word(line, i - 1);
    }
}

/// A deletion or motion by word makes progress: from inside the line the end
/// of the next word lies strictly ahead, and from behind the line's start the
/// start of the previous word lies strictly behind.
pub proof fn lemma_word_progress(line: Seq<char>, col: int)
    requires
        0 <= col <= line.len(),
    ensures
        col <= word_end_after(line, col) <= line.len(),
        col < line.len() ==> col < word_end_after(line, col),
        col <= word_start_after(line, col) <= line.len(),
        col < line.len() ==> col < word_start_after(line, col),
        0 <= word_start_before(line, col) <= col,
        0 < col ==> word_start_before(line, col) < col,
{
    lemma_skip_spaces(line, col);
    lemma_skip_word(line, skip_spaces(line, col));
    lemma_skip_word(line, col);
    lemma_skip_spaces(line, skip_word(line, col));
    lemma_back_spaces(line, col);
    lemma_back_word(line, back_spaces(line, col));
}

/// Tells whether a character is whitespace.
pub fn is_whitespace(c: char) -> (b: bool)
    ensures
        b == is_space(c),
{
    let n: u32 = c as u32;
    n == 0x20 || (0x09 <= n && n <= 0x0d) || n == 0x85 || n == 0xa0 || n == 0x1680 || (0x2000 <= n
        && n <= 0x200a) || n == 0x2028 || n == 0x2029 || n == 0x202f || n == 0x205f || n == 0x3000
}

/// Walks forward from `start` over whitespace.
pub fn scan_spaces(line: &Vec<char>, start: usize) -> (end: usize)
    requires
        start <= line.len(),
    ensures
        end == skip_spaces(line@, start as int),
        start <= end <= line.len(),
{
    let mut i: usize = start;
    while i < line.len() && is_whitespace(line[i])
        invariant
            start <= i <= line.len(),
            skip_spaces(line@, start as int) == skip_spaces(line@, i as int),
        decreases line.len() - i,
    {
        i = i + 1;
    }
    i
}

/// Walks forward from `start` over a word.
pub fn scan_word(line: &Vec<char>, start: usize) -> (end: usize)
    requires
        start <= line.len(),
    ensures
        end == skip_word(line@, start as int),
        start <= end <= line.len(),
{
    let mut i: usize = start;
    while i < line.len() && !is_whitespace(line[i])
        invariant
            start <= i <= line.len(),
            skip_word(line@, start as int) == skip_word(line@, i as int),
        decreases line.len() - i,
    {
        i = i + 1;
    }
    i
}

/// Walks backward from `start` over whitespace.
pub fn scan_spaces_back(line: &Vec<char>, start: usize) -> (end: usize)
    requires
        start <= line.len(),
    ensures
        end == back_spaces(line@, start as int),
        end <= start,
{
    let mut i: usize = start;
    while i > 0 && is_whitespace(line[i - 1])
        invariant
            i <= start <= line.len(),
            back_spaces(line@, start as int) == back_spaces(line@, i as int),
        decreases i,
    {
        i = i - 1;
    }
    i
}

/// Walks backward from `start` over a word.
pub fn scan_word_back(line: &Vec<char>, start: usize) -> (end: usize)
    requires
        start <= line.len(),
    ensures
        end == back_word(line@, start as int),
        end <= start,
{
    let mut i: usize = start;
    while i > 0 && !is_whitespace(line[i - 1])
        invariant
            i <= start <= line.len(),
            back_word(line@, start as int) == back_word(line@, i as int),
        decreases i,
    {
        i = i - 1;
    }
    i
}

} // verus!
