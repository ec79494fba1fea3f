//! Which pane has the focus, and how the prompt's frame is drawn for it.
use crate::prompt::Mode;
use vstd::prelude::*;

verus! {

/// The pane that receives the keys.
#[derive(Debug, Clone, Copy, PartialEq, Eq, Structural)]
pub enum FocusedBlock {
    Prompt,
    Chat,
    History,
    Preview,
}

/// The line a frame is drawn with.
#[derive(Debug, Clone, Copy, PartialEq, Eq, Structural)]
pub enum BorderType {
    Thick,
    Rounded,
}

/// The colour a frame is drawn in.
#[derive(Debug, Clone, Copy, PartialEq, Eq, Structural)]
pub enum BorderColor {
    Default,
    Green,
    Yellow,
}

/// How the prompt's frame is drawn.
#[derive(Debug, Clone, Copy, PartialEq, Eq, Structural)]
pub struct BlockStyle {
    pub border_type: BorderType,
    pub border_color: BorderColor,
}

/// The frame of the prompt: thick while the prompt has the focus, and then
/// green in insert mode and yellow in visual mode; rounded and plain otherwise.
pub open spec fn prompt_style(focus: FocusedBlock, mode: Mode) -> BlockStyle {
    match focus {
        FocusedBlock::Prompt => BlockStyle {
            border_type: BorderType::Thick,
            border_color: match mode {
                Mode::Insert => BorderColor::Green,
                Mode::Normal => BorderColor::Default,
                Mode::Visual => BorderColor::Yellow,
            },
        },
        _ => BlockStyle { border_type: BorderType::Rounded, border_color: BorderColor::Default },
    }
}

/// Computes [`prompt_style`].
pub fn style_for(focus: &FocusedBlock, mode: &Mode) -> (style: BlockStyle)
    ensures
        style == prompt_style(*focus, *mode),
{
    match focus {
        FocusedBlock::Prompt => BlockStyle {
            border_type: BorderType::Thick,
            border_color: match mode {
                Mode::Insert => BorderColor::Green,
                Mode::Normal => BorderColor::Default,
                Mode::Visual => BorderColor::Yellow,
            },
        },
        _ => BlockStyle { border_type: BorderType::Rounded, border_color: BorderColor::Default },
    }
}

} // verus!
