//! The geometry of the screen: how high the panes are, how far they are
//! scrolled, and where the popups lie.
use crate::buffer::least;
use ratatui::layout as tui;
use vstd::prelude::*;

verus! {

/// A rectangle of the terminal, in cells.
#[derive(Debug, Clone, Copy, PartialEq, Eq, Structural)]
pub struct Rect {
    pub x: u16,
    pub y: u16,
    pub width: u16,
    pub height: u16,
}

/// The direction in which an area is cut into parts.
#[derive(Debug, Clone, Copy, PartialEq, Eq, Structural)]
pub enum Direction {
    Horizontal,
    Vertical,
}

/// What is asked of one part of an area.
#[derive(Debug, Clone, Copy, PartialEq, Eq, Structural)]
pub enum Constraint {
    /// A share of the area, in hundredths.
    Percentage(u16),
    /// This many cells.
    Length(u16),
    /// At least this many cells.
    Min(u16),
}

impl Rect {
    /// `inner` lies inside this rectangle.
    pub open spec fn holds(self, inner: Rect) -> bool {
        &&& self.x <= inner.x
        &&& inner.x + inner.width <= self.x + self.width
        &&& self.y <= inner.y
        &&& inner.y + inner.height <= self.y + self.height
    }

    /// `part` is a slice of this rectangle, cut in `direction`: across the
    /// cut it is as wide as the rectangle, along the cut it lies inside it.
    pub open spec fn has_slice(self, direction: Direction, part: Rect) -> bool {
        match direction {
            Direction::Vertical => {
                &&& part.x == self.x
                &&& part.width == self.width
                &&& self.y <= part.y
                &&& part.y + part.height <= self.y + self.height
            },
            Direction::Horizontal => {
                &&& part.y == self.y
                &&& part.height == self.height
                &&& self.x <= part.x
                &&& part.x + part.width <= self.x + self.width
            },
        }
    }
}

/// The cuts that ratatui's solver can give: every sequence of parts that
/// `Layout::split` of ratatui can return for a layout without margin and with
/// the flex `Legacy`, made of `direction` and `constraints`, on `area`. For
/// some layouts the solver has more than one answer, so this is a set.
pub uninterp spec fn layouts(direction: Direction, constraints: Seq<Constraint>, area: Rect) -> Set<
    Seq<Rect>,
>;

/// `parts` is a cut of `area` in `direction` by `constraints` that the solver
/// can give. Such a cut has one part for each constraint, and each part is a
/// slice of the area.
pub open spec fn is_cut(
    area: Rect,
    direction: Direction,
    constraints: Seq<Constraint>,
    parts: Seq<Rect>,
) -> bool {
    &&& layouts(direction, constraints, area).contains(parts)
    &&& parts.len() == constraints.len()
    &&& forall|i: int| 0 <= i < parts.len() ==> area.has_slice(direction, #[trigger] parts[i])
}

/// `part` is the second part of a cut of `area` in `direction` by
/// `constraints` that the solver can give.
pub open spec fn is_middle_slice(
    area: Rect,
    direction: Direction,
    constraints: Seq<Constraint>,
    part: Rect,
) -> bool {
    exists|parts: Seq<Rect>| #[trigger]
        is_cut(area, direction, constraints, parts) && parts.len() == 3 && part == parts[1]
}

/// `cell` is the middle column, cut by `columns`, of the middle row, cut by
/// `rows`, of `r`.
pub open spec fn is_middle_cell(
    r: Rect,
    rows: Seq<Constraint>,
    columns: Seq<Constraint>,
    cell: Rect,
) -> bool {
    exists|row: Rect| #[trigger]
        is_middle_slice(r, Direction::Vertical, rows, row) && is_middle_slice(
            row,
            Direction::Horizontal,
            columns,
            cell,
        )
}

/// Cuts `area` in `direction` into one part for each constraint.
///
/// This is `Layout::split` of ratatui, on a layout without margin and with
/// the flex `Legacy`. How long each part comes out is decided by ratatui's
/// constraint solver, and nothing is claimed of it here. Claimed is that the
/// result is one of the cuts that the solver can give for these arguments,
/// and of every such cut what the solver is required to keep and what is
/// copied from the area: there is one part for each constraint, and each part
/// is a slice of the area.
#[verifier::external_body]
fn split(direction: Direction, constraints: &Vec<Constraint>, area: Rect) -> (parts: Vec<Rect>)
    ensures
        layouts(direction, constraints@, area).contains(parts@),
        parts@.len() == constraints@.len(),
        forall|i: int| 0 <= i < parts@.len() ==> area.has_slice(direction, #[trigger] parts@[i]),
{
    let direction = match direction {
        Direction::Horizontal => tui::Direction::Horizontal,
        Direction::Vertical => tui::Direction::Vertical,
    };
    let constraints = constraints.iter().map(|c| match c {
        Constraint::Percentage(p) => tui::Constraint::Percentage(*p),
        Constraint::Length(l) => tui::Constraint::Length(*l),
        Constraint::Min(m) => tui::Constraint::Min(*m),
    });
    tui::Layout::new(direction, constraints).flex(tui::Flex::Legacy).split(
        tui::Rect { x: area.x, y: area.y, width: area.width, height: area.height },
    ).iter().map(|r| Rect { x: r.x, y: r.y, width: r.width, height: r.height }).collect()
}

/// The second of three parts.
pub fn middle(parts: &Vec<Rect>) -> (part: Rect)
    requires
        parts@.len() == 3,
    ensures
        part == parts@[1],
{
    parts[1]
}

/// Three parts: a margin, `percent` hundredths, and the same margin again.
pub open spec fn centered(percent: u16) -> Seq<Constraint> {
    seq![
        Constraint::Percentage(((100 - percent) / 2) as u16),
        Constraint::Percentage(percent),
        Constraint::Percentage(((100 - percent) / 2) as u16),
    ]
}

/// Three rows: what lies above the notification with the number `offset`,
/// the five rows of the notification, and the rest.
pub open spec fn notification_rows(offset: u16) -> Seq<Constraint> {
    seq![Constraint::Length((1 + 5 * offset) as u16), Constraint::Length(5), Constraint::Min(1)]
}

/// Three columns: three quarters less a hundredth, a quarter for the
/// notification, and a hundredth.
pub open spec fn notification_columns() -> Seq<Constraint> {
    seq![Constraint::Percentage(74), Constraint::Percentage(25), Constraint::Percentage(1)]
}

/// Three rows: 22 hundredths, the 15 rows of the help, and 20 hundredths.
pub open spec fn help_rows() -> Seq<Constraint> {
    seq![Constraint::Percentage(22), Constraint::Length(15), Constraint::Percentage(20)]
}

/// Three columns: the 85 columns of the help, with half of what is left of
/// `width` on each side.
pub open spec fn help_columns(width: u16) -> Seq<Constraint> {
    seq![
        Constraint::Length(((width - 85) / 2) as u16),
        Constraint::Length(85),
        Constraint::Length(((width - 85) / 2) as u16),
    ]
}

/// Computes [`centered`].
pub fn centered_constraints(percent: u16) -> (constraints: Vec<Constraint>)
    requires
        percent <= 100,
    ensures
        constraints@ == centered(percent),
{
    let margin: u16 = (100 - percent) / 2;
    let mut constraints: Vec<Constraint> = Vec::new();
    constraints.push(Constraint::Percentage(margin));
    constraints.push(Constraint::Percentage(percent));
    constraints.push(Constraint::Percentage(margin));
    assert(constraints@ =~= centered(percent));
    constraints
}

/// Computes [`notification_rows`].
pub fn notification_row_constraints(offset: u16) -> (constraints: Vec<Constraint>)
    requires
        1 + 5 * offset <= u16::MAX,
    ensures
        constraints@ == notification_rows(offset),
{
    let mut constraints: Vec<Constraint> = Vec::new();
    constraints.push(Constraint::Length(1 + 5 * offset));
    constraints.push(Constraint::Length(5));
    constraints.push(Constraint::Min(1));
    assert(constraints@ =~= notification_rows(offset));
    constraints
}

/// Computes [`notification_columns`].
pub fn notification_column_constraints() -> (constraints: Vec<Constraint>)
    ensures
        constraints@ == notification_columns(),
{
    let mut constraints: Vec<Constraint> = Vec::new();
    constraints.push(Constraint::Percentage(74));
    constraints.push(Constraint::Percentage(25));
    constraints.push(Constraint::Percentage(1));
    assert(constraints@ =~= notification_columns());
    constraints
}

/// Computes [`help_rows`].
pub fn help_row_constraints() -> (constraints: Vec<Constraint>)
    ensures
        constraints@ == help_rows(),
{
    let mut constraints: Vec<Constraint> = Vec::new();
    constraints.push(Constraint::Percentage(22));
    constraints.push(Constraint::Length(15));
    constraints.push(Constraint::Percentage(20));
    assert(constraints@ =~= help_rows());
    constraints
}

/// Computes [`help_columns`].
pub fn help_column_constraints(width: u16) -> (constraints: Vec<Constraint>)
    requires
        width >= 85,
    ensures
        constraints@ == help_columns(width),
{
    let margin: u16 = (width - 85) / 2;
    let mut constraints: Vec<Constraint> = Vec::new();
    constraints.push(Constraint::Length(margin));
    constraints.push(Constraint::Length(85));
    constraints.push(Constraint::Length(margin));
    assert(constraints@ =~= help_columns(width));
    constraints
}

/// The second part of `area` cut in `direction` by three constraints.
pub fn middle_slice(direction: Direction, constraints: &Vec<Constraint>, area: Rect) -> (part: Rect)
    requires
        constraints@.len() == 3,
    ensures
        is_middle_slice(area, direction, constraints@, part),
        area.has_slice(direction, part),
{
    let parts = split(direction, constraints, area);
    assert(is_cut(area, direction, constraints@, parts@));
    middle(&parts)
}

/// The middle row of `r` cut by `rows`, and of that the middle column cut by
/// `columns`. It lies inside `r`.
pub fn middle_cell(rows: &Vec<Constraint>, columns: &Vec<Constraint>, r: Rect) -> (cell: Rect)
    requires
        rows@.len() == 3,
        columns@.len() == 3,
    ensures
        is_middle_cell(r, rows@, columns@, cell),
        r.holds(cell),
{
    let row = middle_slice(Direction::Vertical, rows, r);
    let cell = middle_slice(Direction::Horizontal, columns, row);
    assert(is_middle_slice(r, Direction::Vertical, rows@, row) && is_middle_slice(
        row,
        Direction::Horizontal,
        columns@,
        cell,
    ));
    cell
}

/// The place of the notification with the number `offset`, counted from the
/// top: of `r` cut into the rows [`notification_rows`] the middle one, and of
/// that, cut into the columns [`notification_columns`], the middle one.
pub fn notification_rect(offset: u16, r: Rect) -> (area: Rect)
    requires
        1 + 5 * offset <= u16::MAX,
    ensures
        is_middle_cell(r, notification_rows(offset), notification_columns(), area),
        r.holds(area),
{
    middle_cell(&notification_row_constraints(offset), &notification_column_constraints(), r)
}

/// The place of the help: of `r` cut into the rows [`help_rows`] the middle
/// one, and of that, cut into the columns [`help_columns`], the middle one.
pub fn help_rect(r: Rect) -> (area: Rect)
    requires
        r.width >= 85,
    ensures
        is_middle_cell(r, help_rows(), help_columns(r.width), area),
        r.holds(area),
{
    middle_cell(&help_row_constraints(), &help_column_constraints(r.width), r)
}

/// The place of a popup in the middle of `r`: of `r` cut into rows by
/// [`centered`] of `percent_y` the middle one, and of that, cut into columns
/// by [`centered`] of `percent_x`, the middle one.
pub fn centered_rect(percent_x: u16, percent_y: u16, r: Rect) -> (area: Rect)
    requires
        percent_x <= 100,
        percent_y <= 100,
    ensures
        is_middle_cell(r, centered(percent_y), centered(percent_x), area),
        r.holds(area),
{
    middle_cell(&centered_constraints(percent_y), &centered_constraints(percent_x), r)
}

/// The number of terminal columns that a text takes when it is shown: what
/// `UnicodeWidthStr::width` of the crate unicode-width gives for it.
pub uninterp spec fn str_width(text: Seq<char>) -> usize;

/// The number of columns that `line` takes on the terminal: calls
/// `UnicodeWidthStr::width` on the line as a string.
#[verifier::external_body]
fn line_width(line: &Vec<char>) -> (width: usize)
    ensures
        width == str_width(line@),
{
    let text: String = line.iter().collect();
    unicode_width::UnicodeWidthStr::width(text.as_str())
}

/// The widths of some lines.
pub open spec fn widths_of(lines: Seq<Seq<char>>) -> Seq<usize> {
    Seq::new(lines.len(), |i: int| str_width(lines[i]))
}

/// The width of each line on the terminal.
pub fn line_widths(lines: &Vec<Vec<char>>) -> (widths: Vec<usize>)
    ensures
        widths@.len() == lines@.len(),
        forall|i: int| 0 <= i < lines@.len() ==> widths@[i] == str_width(lines@[i]@),
{
    let mut widths: Vec<usize> = Vec::new();
    let mut i: usize = 0;
    while i < lines.len()
        invariant
            i <= lines.len(),
            widths@.len() == i,
            forall|k: int| 0 <= k < i ==> widths@[k] == str_width(lines@[k]@),
        decreases lines.len() - i,
    {
        widths.push(line_width(&lines[i]));
        i = i + 1;
    }
    widths
}

/// A number narrowed to sixteen bits: what is left of it after division by
/// 65536.
pub open spec fn narrowed(n: int) -> u16 {
    (n % 0x10000) as u16
}

/// The rows that lines of these widths take in a frame `frame_width`
/// columns wide: one for each line, and one more for each time it wraps. A
/// width counts narrowed to sixteen bits.
pub open spec fn rows_needed(widths: Seq<usize>, frame_width: u16) -> int
    decreases widths.len(),
{
    if widths.len() == 0 {
        0
    } else {
        rows_needed(widths.drop_last(), frame_width) + 1 + narrowed(widths.last() as int)
            / frame_width
    }
}

/// The rows by which lines of these widths wrap in a frame `frame_width`
/// columns wide.
pub open spec fn wraps(widths: Seq<usize>, frame_width: u16) -> int
    decreases widths.len(),
{
    if widths.len() == 0 {
        0
    } else {
        wraps(widths.drop_last(), frame_width) + widths.last() / (frame_width as usize)
    }
}

/// The height of a text in a frame: one row more than [`rows_needed`]; where
/// that does not fit sixteen bits, the most that does.
pub fn content_height(widths: &Vec<usize>, frame_width: u16) -> (height: u16)
    requires
        frame_width > 0,
    ensures
        height == least(1 + rows_needed(widths@, frame_width), u16::MAX as int),
{
    let mut total: u32 = 1;
    let mut i: usize = 0;
    assert(widths@.subrange(0, 0) =~= Seq::<usize>::empty());
    while i < widths.len()
        invariant
            frame_width > 0,
            i <= widths.len(),
            total == least(1 + rows_needed(widths@.subrange(0, i as int), frame_width), 65536),
            rows_needed(widths@.subrange(0, i as int), frame_width) >= 0,
        decreases widths.len() - i,
    {
        let width: u16 = (widths[i] % 0x10000) as u16;
        let sum: u32 = total + 1 + ((width / frame_width) as u32);
        total = if sum > 65536 {
            65536
        } else {
            sum
        };
        i = i + 1;
        assert(widths@.subrange(0, i as int).drop_last() =~= widths@.subrange(0, i - 1));
    }
    assert(widths@.subrange(0, i as int) =~= widths@);
    if total >= 65535 {
        65535
    } else {
        total as u16
    }
}

/// The height that the prompt may grow to: two fifths of the frame's.
pub open spec fn max_prompt_height(frame_height: u16) -> int {
    frame_height * 2 / 5
}

/// Computes [`max_prompt_height`].
pub fn prompt_block_max_height(frame_height: u16) -> (height: u16)
    ensures
        height == max_prompt_height(frame_height),
{
    let doubled: u32 = (frame_height as u32) * 2;
    (doubled / 5) as u16
}

/// The height of the prompt's block: that of its content, up to `max_height`.
pub fn prompt_block_height(content_height: u16, max_height: u16) -> (height: u16)
    ensures
        height == least(content_height as int, max_height as int),
{
    if content_height <= max_height {
        content_height
    } else {
        max_height
    }
}

/// The height of the chat's block: what the prompt's block and three more
/// rows leave of the frame.
pub fn chat_block_height(frame_height: u16, prompt_height: u16, max_prompt_height: u16) -> (height:
    u16)
    requires
        prompt_height <= max_prompt_height,
        max_prompt_height + 3 <= frame_height,
    ensures
        height == frame_height - prompt_height - 3,
{
    frame_height - prompt_height - 3
}

/// How far the prompt is scrolled: by as many rows as its content is higher
/// than its block may be.
pub fn prompt_scroll(content_height: u16, max_height: u16) -> (scroll: u16)
    ensures
        scroll == if content_height >= max_height {
            content_height - max_height
        } else {
            0
        },
{
    if content_height >= max_height {
        content_height - max_height
    } else {
        0
    }
}

/// The height of the chat's messages: their lines and three rows more, and
/// one row for each time a line wraps; never more than fits a `usize`.
pub fn chat_messages_height(widths: &Vec<usize>, frame_width: u16) -> (height: usize)
    requires
        frame_width > 0,
    ensures
        height == least(widths@.len() + 3 + wraps(widths@, frame_width), usize::MAX as int),
{
    let mut total: usize = if widths.len() > usize::MAX - 3 {
        usize::MAX
    } else {
        widths.len() + 3
    };
    let mut i: usize = 0;
    assert(widths@.subrange(0, 0) =~= Seq::<usize>::empty());
    while i < widths.len()
        invariant
            frame_width > 0,
            i <= widths.len(),
            total == least(
                widths@.len() + 3 + wraps(widths@.subrange(0, i as int), frame_width),
                usize::MAX as int,
            ),
            wraps(widths@.subrange(0, i as int), frame_width) >= 0,
        decreases widths.len() - i,
    {
        let wrapped: usize = widths[i] / (frame_width as usize);
        total = if wrapped > usize::MAX - total {
            usize::MAX
        } else {
            total + wrapped
        };
        i = i + 1;
        assert(widths@.subrange(0, i as int).drop_last() =~= widths@.subrange(0, i - 1));
    }
    assert(widths@.subrange(0, i as int) =~= widths@);
    total
}

/// How the chat is scrolled.
#[derive(Debug, Clone, Copy, PartialEq, Eq, Structural)]
pub struct ChatScroll {
    /// The rows that the chat's text is moved up by.
    pub scroll: u16,
    /// The scroll position that the user has reached.
    pub position: usize,
    /// The chat shows its end.
    pub at_end: bool,
}

/// The rows that the messages are higher than the block, or 0.
pub open spec fn overflow_rows(messages_height: usize, block_height: u16) -> int {
    if messages_height > block_height {
        messages_height - block_height
    } else {
        0
    }
}

/// How the chat is scrolled, at `position`. The most that it can be scrolled
/// by is the number of rows that do not fit, narrowed to sixteen bits. Without
/// the focus the chat shows its end and the position follows it. With the
/// focus the position counts, as far as there is something to scroll to.
pub open spec fn chat_scrolled(
    messages_height: usize,
    block_height: u16,
    focused: bool,
    position: usize,
) -> ChatScroll {
    let over = overflow_rows(messages_height, block_height);
    let most = narrowed(over);
    if !focused {
        ChatScroll { scroll: most, position: over as usize, at_end: true }
    } else if over == 0 {
        ChatScroll { scroll: 0, position, at_end: false }
    } else if position >= most {
        ChatScroll { scroll: most, position: most as usize, at_end: true }
    } else {
        ChatScroll { scroll: position as u16, position, at_end: false }
    }
}

/// Computes [`chat_scrolled`].
pub fn chat_scroll(messages_height: usize, block_height: u16, focused: bool, position: usize) -> (s:
    ChatScroll)
    ensures
        s == chat_scrolled(messages_height, block_height, focused, position),
{
    let over: usize = if messages_height > block_height as usize {
        messages_height - block_height as usize
    } else {
        0
    };
    let most: u16 = (over % 0x10000) as u16;
    if !focused {
        ChatScroll { scroll: most, position: over, at_end: true }
    } else if over == 0 {
        ChatScroll { scroll: 0, position, at_end: false }
    } else if position >= most as usize {
        ChatScroll { scroll: most, position: most as usize, at_end: true }
    } else {
        ChatScroll { scroll: position as u16, position, at_end: false }
    }
}

/// The conversation of the history that is picked at `position`: the one at
/// that place, or the last one where the position lies beyond it; none in an
/// empty history.
pub fn history_index(position: usize, count: usize) -> (index: Option<usize>)
    ensures
        index == if count == 0 {
            None
        } else if position < count {
            Some(position)
        } else {
            Some((count - 1) as usize)
        },
{
    if count == 0 {
        None
    } else if position < count {
        Some(position)
    } else {
        Some(count - 1)
    }
}

/// How far the preview is scrolled: a position beyond the last row that can
/// be scrolled to is brought back to that row; with the focus elsewhere, or
/// with nothing to scroll, the preview shows its start.
pub fn preview_scroll(content_rows: u16, block_height: u16, focused: bool, position: usize) -> (s:
    (u16, usize))
    ensures
        s == if content_rows > block_height && focused && position > content_rows - block_height {
            ((content_rows - block_height) as u16, (content_rows - block_height) as usize)
        } else {
            (0u16, position)
        },
{
    if content_rows > block_height && focused && position > (content_rows - block_height) as usize {
        (content_rows - block_height, (content_rows - block_height) as usize)
    } else {
        (0, position)
    }
}

} // verus!
