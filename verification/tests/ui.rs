use tenere::ui::{
    centered_constraints, centered_rect, chat_block_height, chat_messages_height, chat_scroll,
    content_height, help_column_constraints, help_rect, help_row_constraints, line_widths, middle,
    notification_column_constraints, notification_rect, notification_row_constraints,
    preview_scroll, prompt_block_height, prompt_block_max_height, prompt_scroll, ChatScroll,
    Constraint, Rect,
};
use tenere::word::{is_whitespace, scan_spaces, scan_spaces_back, scan_word, scan_word_back};

fn rect(x: u16, y: u16, width: u16, height: u16) -> Rect {
    Rect { x, y, width, height }
}

fn holds(outer: Rect, inner: Rect) -> bool {
    outer.x <= inner.x
        && inner.x as u32 + inner.width as u32 <= outer.x as u32 + outer.width as u32
        && outer.y <= inner.y
        && inner.y as u32 + inner.height as u32 <= outer.y as u32 + outer.height as u32
}

#[test]
fn centered_constraints_values() {
    assert_eq!(
        centered_constraints(80),
        vec![Constraint::Percentage(10), Constraint::Percentage(80), Constraint::Percentage(10)]
    );
    assert_eq!(
        centered_constraints(55),
        vec![Constraint::Percentage(22), Constraint::Percentage(55), Constraint::Percentage(22)]
    );
    assert_eq!(
        centered_constraints(100),
        vec![Constraint::Percentage(0), Constraint::Percentage(100), Constraint::Percentage(0)]
    );
}

#[test]
fn notification_constraints_values() {
    assert_eq!(
        notification_row_constraints(0),
        vec![Constraint::Length(1), Constraint::Length(5), Constraint::Min(1)]
    );
    assert_eq!(
        notification_row_constraints(3),
        vec![Constraint::Length(16), Constraint::Length(5), Constraint::Min(1)]
    );
    assert_eq!(
        notification_column_constraints(),
        vec![Constraint::Percentage(74), Constraint::Percentage(25), Constraint::Percentage(1)]
    );
}

#[test]
fn help_constraints_values() {
    assert_eq!(
        help_row_constraints(),
        vec![Constraint::Percentage(22), Constraint::Length(15), Constraint::Percentage(20)]
    );
    assert_eq!(
        help_column_constraints(200),
        vec![Constraint::Length(57), Constraint::Length(85), Constraint::Length(57)]
    );
    assert_eq!(
        help_column_constraints(85),
        vec![Constraint::Length(0), Constraint::Length(85), Constraint::Length(0)]
    );
}

#[test]
fn middle_picks_second() {
    let parts = vec![rect(0, 0, 1, 1), rect(1, 2, 3, 4), rect(9, 9, 9, 9)];
    assert_eq!(middle(&parts), rect(1, 2, 3, 4));
}

#[test]
fn centered_rect_is_centered() {
    let frame = rect(0, 0, 100, 100);
    assert_eq!(centered_rect(50, 50, frame), rect(25, 25, 50, 50));
    assert_eq!(centered_rect(80, 80, frame), rect(10, 10, 80, 80));
}

#[test]
fn centered_rect_lies_inside() {
    for frame in [rect(0, 0, 100, 40), rect(5, 7, 33, 21), rect(0, 0, 1, 1), rect(3, 3, 0, 0)] {
        for percent in [0, 1, 33, 50, 80, 100] {
            let area = centered_rect(percent, 100 - percent, frame);
            assert!(holds(frame, area));
        }
    }
}

#[test]
fn popups_lie_inside_any_frame() {
    let mut seed: u64 = 2024;
    let mut next = move |bound: u32| -> u16 {
        seed = seed.wrapping_mul(6364136223846793005).wrapping_add(1442695040888963407);
        ((seed >> 33) as u32 % bound) as u16
    };
    for round in 0..600 {
        let frame = if round % 3 == 0 {
            rect(next(65536), next(65536), next(65536), next(65536))
        } else {
            rect(next(50), next(50), next(400), next(200))
        };
        let area = centered_rect(next(101), next(101), frame);
        assert!(holds(frame, area), "{:?} is not inside {:?}", area, frame);
        let area = notification_rect(next(13107), frame);
        assert!(holds(frame, area), "{:?} is not inside {:?}", area, frame);
        if frame.width >= 85 {
            let area = help_rect(frame);
            assert!(holds(frame, area), "{:?} is not inside {:?}", area, frame);
        }
    }
}

#[test]
fn notification_rect_stacks_from_top() {
    let frame = rect(0, 0, 100, 100);
    assert_eq!(notification_rect(0, frame), rect(74, 1, 25, 5));
    assert_eq!(notification_rect(1, frame), rect(74, 6, 25, 5));
    assert_eq!(notification_rect(2, frame), rect(74, 11, 25, 5));
    assert!(holds(frame, notification_rect(40, frame)));
}

#[test]
fn help_rect_is_in_the_middle() {
    let frame = rect(0, 0, 200, 100);
    assert_eq!(help_rect(frame), rect(57, 22, 85, 15));
    assert!(holds(rect(0, 0, 85, 10), help_rect(rect(0, 0, 85, 10))));
}

#[test]
fn line_widths_of_wide_characters() {
    let lines: Vec<Vec<char>> =
        vec!["abc".chars().collect(), "日本語".chars().collect(), Vec::new(), "é".chars().collect()];
    assert_eq!(line_widths(&lines), vec![3, 6, 0, 1]);
}

#[test]
fn content_height_values() {
    assert_eq!(content_height(&vec![], 10), 1);
    assert_eq!(content_height(&vec![0], 10), 2);
    assert_eq!(content_height(&vec![9, 10, 25], 10), 1 + 1 + 2 + 3);
    assert_eq!(content_height(&vec![3, 3], 1), 1 + 4 + 4);
}

#[test]
fn content_height_saturates() {
    assert_eq!(content_height(&vec![usize::MAX], 1), u16::MAX);
    assert_eq!(content_height(&vec![65533], 1), 65535);
    assert_eq!(content_height(&vec![65532], 1), 65534);
    assert_eq!(content_height(&vec![0; 70000], 7), u16::MAX);
}

#[test]
fn content_height_narrows_widths_to_sixteen_bits() {
    assert_eq!(content_height(&vec![65535], 1), 65535);
    assert_eq!(content_height(&vec![65536], 1), 2);
    assert_eq!(content_height(&vec![65537, 3], 1), 1 + 2 + 4);
    assert_eq!(content_height(&vec![65536 + 25], 10), 1 + 3);
    for width in [0usize, 9, 10, 4321, 65535, 65536, 70000, 1 << 20, usize::MAX] {
        for frame in [1u16, 7, 80, u16::MAX] {
            let rows = 1 + u32::from(width as u16 / frame);
            assert_eq!(u32::from(content_height(&vec![width], frame)), (1 + rows).min(65535));
        }
    }
}

#[test]
fn prompt_max_height_is_forty_percent() {
    assert_eq!(prompt_block_max_height(0), 0);
    assert_eq!(prompt_block_max_height(10), 4);
    assert_eq!(prompt_block_max_height(24), 9);
    assert_eq!(prompt_block_max_height(u16::MAX), 26214);
    for h in 0..=u16::MAX {
        assert_eq!(prompt_block_max_height(h), (0.4 * h as f32) as u16);
    }
}

#[test]
fn prompt_block_height_is_the_smaller() {
    assert_eq!(prompt_block_height(3, 9), 3);
    assert_eq!(prompt_block_height(12, 9), 9);
    assert_eq!(prompt_block_height(9, 9), 9);
}

#[test]
fn chat_block_height_values() {
    assert_eq!(chat_block_height(24, 2, 9), 19);
    assert_eq!(chat_block_height(24, 9, 9), 12);
    assert_eq!(chat_block_height(5, 2, 2), 0);
}

#[test]
fn prompt_scroll_values() {
    assert_eq!(prompt_scroll(3, 9), 0);
    assert_eq!(prompt_scroll(9, 9), 0);
    assert_eq!(prompt_scroll(12, 9), 3);
}

#[test]
fn chat_messages_height_values() {
    assert_eq!(chat_messages_height(&vec![], 10), 3);
    assert_eq!(chat_messages_height(&vec![9, 10, 25], 10), 3 + 3 + 0 + 1 + 2);
    assert_eq!(chat_messages_height(&vec![usize::MAX, 5], 1), usize::MAX);
}

#[test]
fn chat_scroll_without_focus_follows_end() {
    assert_eq!(
        chat_scroll(50, 20, false, 7),
        ChatScroll { scroll: 30, position: 30, at_end: true }
    );
    assert_eq!(chat_scroll(10, 20, false, 7), ChatScroll { scroll: 0, position: 0, at_end: true });
    assert_eq!(
        chat_scroll(100_000, 20, false, 7),
        ChatScroll { scroll: 34_444, position: 99_980, at_end: true }
    );
}

#[test]
fn chat_scroll_with_focus_keeps_position() {
    assert_eq!(
        chat_scroll(50, 20, true, 7),
        ChatScroll { scroll: 7, position: 7, at_end: false }
    );
    assert_eq!(
        chat_scroll(50, 20, true, 30),
        ChatScroll { scroll: 30, position: 30, at_end: true }
    );
    assert_eq!(
        chat_scroll(50, 20, true, 99),
        ChatScroll { scroll: 30, position: 30, at_end: true }
    );
    assert_eq!(
        chat_scroll(10, 20, true, 5),
        ChatScroll { scroll: 0, position: 5, at_end: false }
    );
}

#[test]
fn chat_scroll_narrows_the_overflow_to_sixteen_bits() {
    assert_eq!((100_000usize - 20) as u16, 34_444);
    assert_eq!(
        chat_scroll(100_000, 20, true, 40_000),
        ChatScroll { scroll: 34_444, position: 34_444, at_end: true }
    );
    assert_eq!(
        chat_scroll(100_000, 20, true, 100),
        ChatScroll { scroll: 100, position: 100, at_end: false }
    );
    assert_eq!(
        chat_scroll(65_536 + 20, 20, true, 5),
        ChatScroll { scroll: 0, position: 0, at_end: true }
    );
    assert_eq!(
        chat_scroll(65_535 + 20, 20, true, 70_000),
        ChatScroll { scroll: 65_535, position: 65_535, at_end: true }
    );
}

#[test]
fn preview_scroll_values() {
    assert_eq!(preview_scroll(30, 10, true, 25), (20, 20));
    assert_eq!(preview_scroll(30, 10, true, 20), (0, 20));
    assert_eq!(preview_scroll(30, 10, true, 5), (0, 5));
    assert_eq!(preview_scroll(30, 10, false, 25), (0, 25));
    assert_eq!(preview_scroll(5, 10, true, 25), (0, 25));
}

#[test]
fn whitespace_is_as_in_std() {
    for code in 0..=0x10FFFFu32 {
        if let Some(c) = char::from_u32(code) {
            assert_eq!(is_whitespace(c), c.is_whitespace());
        }
    }
}

#[test]
fn scans_stop_at_word_boundaries() {
    let line: Vec<char> = "  foo \tbar".chars().collect();
    assert_eq!(scan_spaces(&line, 0), 2);
    assert_eq!(scan_spaces(&line, 2), 2);
    assert_eq!(scan_word(&line, 2), 5);
    assert_eq!(scan_word(&line, 5), 5);
    assert_eq!(scan_spaces(&line, 5), 7);
    assert_eq!(scan_word(&line, 7), 10);
    assert_eq!(scan_spaces(&line, 10), 10);
    assert_eq!(scan_word_back(&line, 10), 7);
    assert_eq!(scan_spaces_back(&line, 7), 5);
    assert_eq!(scan_word_back(&line, 5), 2);
    assert_eq!(scan_spaces_back(&line, 2), 0);
    assert_eq!(scan_word_back(&line, 0), 0);
}
