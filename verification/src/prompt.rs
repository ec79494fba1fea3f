//! The prompt: a text buffer driven by vim-like keys.
//!
//! The editor is a state machine over the modes normal, insert and visual.
//! [`PromptView::key_binding`] is its transition function, and
//! [`Prompt::key_binding`] computes it.
use crate::buffer::{least, Buffer, BufferView};
use crate::key::{KeyCode, KeyEvent};
use crate::style::{prompt_style, style_for, BlockStyle, FocusedBlock};
use crate::ui::{
    content_height, line_widths, max_prompt_height, prompt_block_height, prompt_block_max_height,
    rows_needed, widths_of, Rect,
};
use vstd::prelude::*;

verus! {

/// The editing mode of the prompt.
#[derive(Debug, Clone, Copy, PartialEq, Eq, Structural)]
pub enum Mode {
    Normal,
    Insert,
    Visual,
}

/// What a prompt is, mathematically.
pub struct PromptView {
    pub mode: Mode,
    pub previous_key: KeyCode,
    pub editor: BufferView,
    pub block: BlockStyle,
}

impl PromptView {
    /// The buffer is well formed, and insert mode holds no selection.
    pub open spec fn wf(self) -> bool {
        &&& self.editor.wf()
        &&& (self.mode == Mode::Insert ==> self.editor.anchor is None)
    }

    /// A fresh prompt: normal mode, no key seen, an empty buffer.
    pub open spec fn initial() -> PromptView {
        PromptView {
            mode: Mode::Normal,
            previous_key: KeyCode::Null,
            editor: BufferView::empty(),
            block: prompt_style(FocusedBlock::Prompt, Mode::Normal),
        }
    }

    /// The same prompt with another buffer.
    pub open spec fn edit(self, editor: BufferView) -> PromptView {
        PromptView { editor, ..self }
    }

    /// The prompt in `mode`, its frame drawn for that mode.
    pub open spec fn enter(self, mode: Mode) -> PromptView {
        PromptView { mode, block: prompt_style(FocusedBlock::Prompt, mode), ..self }
    }

    /// The prompt in insert mode, the selection given up.
    pub open spec fn enter_insert(self) -> PromptView {
        self.enter(Mode::Insert).edit(self.editor.cancel_selection())
    }

    /// The key before this one was the character `c`.
    pub open spec fn after(self, c: char) -> bool {
        self.previous_key == KeyCode::Char(c)
    }

    /// What a key does in insert mode.
    pub open spec fn insert_key(self, code: KeyCode) -> PromptView {
        match code {
            KeyCode::Enter => self.edit(self.editor.insert_newline()),
            KeyCode::Char(c) => self.edit(self.editor.insert_char(c)),
            KeyCode::Backspace => self.edit(self.editor.delete_char_before_cursor()),
            KeyCode::Esc => self.enter(Mode::Normal),
            _ => self,
        }
    }

    /// What a character key does in normal and visual mode. `plain` says that
    /// no modifier is held; `clipboard` is what the outer clipboard holds, if
    /// it could be read.
    pub open spec fn command_char(
        self,
        c: char,
        plain: bool,
        clipboard: Option<Seq<char>>,
    ) -> PromptView {
        let e = self.editor;
        if c == 'i' {
            self.enter_insert()
        } else if c == 'v' {
            if self.mode == Mode::Visual {
                self.enter(Mode::Normal).edit(e.cancel_selection())
            } else {
                self.enter(Mode::Visual).edit(e.start_selection())
            }
        } else if c == 'h' {
            if plain {
                self.edit(e.move_back())
            } else {
                self
            }
        } else if c == 'j' {
            if plain {
                self.edit(e.move_down())
            } else {
                self
            }
        } else if c == 'k' {
            if plain {
                self.edit(e.move_up())
            } else {
                self
            }
        } else if c == 'l' {
            if plain {
                self.edit(e.move_forward())
            } else {
                self
            }
        } else if c == 'w' {
            if self.after('d') {
                self.edit(e.delete_word_forward())
            } else {
                self.edit(e.move_word_forward())
            }
        } else if c == 'b' {
            if self.after('d') {
                self.edit(e.delete_word_backward())
            } else {
                self.edit(e.move_word_backward())
            }
        } else if c == '$' {
            if self.after('d') {
                self.edit(e.delete_to_line_end())
            } else {
                self.edit(e.move_end())
            }
        } else if c == '0' {
            if self.after('d') {
                self.edit(e.delete_to_line_start())
            } else {
                self.edit(e.move_head())
            }
        } else if c == '^' {
            self.edit(e.move_head())
        } else if c == 'D' {
            self.edit(e.delete_to_line_end())
        } else if c == 'd' {
            if self.after('d') {
                self.edit(e.delete_current_line())
            } else {
                self
            }
        } else if c == 'C' {
            self.edit(e.delete_to_line_end()).enter_insert()
        } else if c == 'u' {
            self.edit(e.undo())
        } else if c == 'x' {
            self.edit(e.delete_char_at_cursor())
        } else if c == 'a' {
            self.edit(e.move_forward()).enter_insert()
        } else if c == 'A' {
            self.edit(e.move_end()).enter_insert()
        } else if c == 'o' {
            self.edit(e.move_end().insert_newline()).enter_insert()
        } else if c == 'O' {
            self.edit(e.move_head().insert_newline().move_up()).enter_insert()
        } else if c == 'I' {
            self.edit(e.move_head()).enter_insert()
        } else if c == 'G' {
            self.edit(e.move_document_end())
        } else if c == 'g' {
            if self.after('g') {
                self.edit(e.move_document_start())
            } else {
                self
            }
        } else if c == 'y' {
            self.edit(e.copy())
        } else if c == 'p' {
            if e.yank.len() > 0 {
                self.edit(e.paste())
            } else {
                match clipboard {
                    Some(text) => self.edit(e.insert_text(text)),
                    None => self,
                }
            }
        } else {
            self
        }
    }

    /// What a key does in normal and visual mode.
    pub open spec fn command_key(self, key: KeyEvent, clipboard: Option<Seq<char>>) -> PromptView {
        let plain = key.modifiers.is_none();
        match key.code {
            KeyCode::Esc => self.enter(Mode::Normal).edit(self.editor.cancel_selection()),
            KeyCode::Left => if plain {
                self.edit(self.editor.move_back())
            } else {
                self
            },
            KeyCode::Down => if plain {
                self.edit(self.editor.move_down())
            } else {
                self
            },
            KeyCode::Up => if plain {
                self.edit(self.editor.move_up())
            } else {
                self
            },
            KeyCode::Right => if plain {
                self.edit(self.editor.move_forward())
            } else {
                self
            },
            KeyCode::Char(c) => self.command_char(c, plain, clipboard),
            _ => self,
        }
    }

    /// The transition function of the editor: what the key does in the
    /// present mode, after which the key is remembered as the previous one.
    pub open spec fn key_binding(self, key: KeyEvent, clipboard: Option<Seq<char>>) -> PromptView {
        let s = match self.mode {
            Mode::Insert => self.insert_key(key.code),
            _ => self.command_key(key, clipboard),
        };
        PromptView { previous_key: key.code, ..s }
    }

    /// The key is the one that pastes, and the yank register has nothing to
    /// give: only then does the editor read what the outer clipboard holds.
    pub open spec fn wants_clipboard(self, key: KeyEvent) -> bool {
        self.mode != Mode::Insert && key.code == KeyCode::Char('p') && self.editor.yank.len() == 0
    }

    /// What the key copies, for the outer clipboard to mirror: the yank key
    /// in normal or visual mode hands out what it put into the register.
    pub open spec fn mirrored(self, key: KeyEvent) -> Option<Seq<char>> {
        if self.mode != Mode::Insert && key.code == KeyCode::Char('y') {
            Some(self.editor.selected_text())
        } else {
            None
        }
    }
}

/// The view of a text that may be missing.
pub open spec fn text_view(text: Option<&Vec<char>>) -> Option<Seq<char>> {
    match text {
        Some(t) => Some(t@),
        None => None,
    }
}

/// The prompt of the chat: the text being written, and the state of the
/// keys that edit it.
pub struct Prompt {
    pub mode: Mode,
    pub previous_key: KeyCode,
    pub editor: Buffer,
    pub block: BlockStyle,
}

impl View for Prompt {
    type V = PromptView;

    open spec fn view(&self) -> PromptView {
        PromptView {
            mode: self.mode,
            previous_key: self.previous_key,
            editor: self.editor@,
            block: self.block,
        }
    }
}

impl Default for Prompt {
    fn default() -> (p: Prompt)
        ensures
            p@ == PromptView::initial(),
            p@.wf(),
    {
        Prompt {
            mode: Mode::Normal,
            previous_key: KeyCode::Null,
            editor: Buffer::new(),
            block: style_for(&FocusedBlock::Prompt, &Mode::Normal),
        }
    }
}

impl Prompt {
    /// A fresh prompt.
    pub fn new() -> (p: Prompt)
        ensures
            p@ == PromptView::initial(),
            p@.wf(),
    {
        Prompt {
            mode: Mode::Normal,
            previous_key: KeyCode::Null,
            editor: Buffer::new(),
            block: style_for(&FocusedBlock::Prompt, &Mode::Normal),
        }
    }

    /// Empties the buffer and forgets its undo stack; mode, remembered key
    /// and yank register stay.
    pub fn clear(&mut self)
        ensures
            final(self)@ == old(self)@.edit(old(self)@.editor.clear()),
            final(self)@.wf(),
    {
        self.editor.clear();
    }

    /// The height of the prompt's block in a frame of the size `frame_size`:
    /// one row, and the rows that the lines take at the frame's width, but
    /// not more than two fifths of the frame's height.
    pub fn height(&self, frame_size: &Rect) -> (height: u16)
        requires
            frame_size.width > 0,
        ensures
            height == least(
                1 + rows_needed(widths_of(self@.editor.text.lines), frame_size.width),
                max_prompt_height(frame_size.height),
            ),
    {
        let widths = line_widths(self.editor.lines());
        assert(widths@ =~= widths_of(self@.editor.text.lines));
        let content = content_height(&widths, frame_size.width);
        prompt_block_height(content, prompt_block_max_height(frame_size.height))
    }

    /// Draws the frame for the pane that has the focus.
    pub fn update(&mut self, focused_block: &FocusedBlock)
        ensures
            final(self)@ == (PromptView {
                block: prompt_style(*focused_block, old(self)@.mode),
                ..old(self)@
            }),
    {
        self.block = style_for(focused_block, &self.mode);
    }

    /// Whether the key before this one was the character `c`.
    fn after(&self, c: char) -> (b: bool)
        ensures
            b == self@.after(c),
    {
        match self.previous_key {
            KeyCode::Char(p) => p == c,
            _ => false,
        }
    }

    fn enter(&mut self, mode: Mode)
        ensures
            final(self)@ == old(self)@.enter(mode),
    {
        self.mode = mode;
        self.block = style_for(&FocusedBlock::Prompt, &self.mode);
    }

    fn enter_insert(&mut self)
        requires
            old(self)@.editor.wf(),
        ensures
            final(self)@ == old(self)@.enter_insert(),
            final(self)@.wf(),
    {
        self.enter(Mode::Insert);
        self.editor.cancel_selection();
    }

    /// Whether the editor would read the outer clipboard for this key.
    pub fn wants_clipboard(&self, key_event: &KeyEvent) -> (wanted: bool)
        ensures
            wanted == self@.wants_clipboard(*key_event),
    {
        let pastes = match key_event.code {
            KeyCode::Char(c) => c == 'p',
            _ => false,
        };
        let inserting = match self.mode {
            Mode::Insert => true,
            _ => false,
        };
        !inserting && pastes && self.editor.yank_text().len() == 0
    }

    fn insert_key(&mut self, code: KeyCode)
        requires
            old(self)@.wf(),
            old(self)@.mode == Mode::Insert,
        ensures
            final(self)@ == old(self)@.insert_key(code),
            final(self)@.wf(),
    {
        match code {
            KeyCode::Enter => {
                self.editor.insert_newline();
            },
            KeyCode::Char(c) => {
                self.editor.insert_char(c);
            },
            KeyCode::Backspace => {
                self.editor.delete_char_before_cursor();
            },
            KeyCode::Esc => {
                self.enter(Mode::Normal);
            },
            _ => {},
        }
    }

    fn command_char(&mut self, c: char, plain: bool, clipboard: Option<&Vec<char>>)
        requires
            old(self)@.wf(),
            old(self)@.mode != Mode::Insert,
        ensures
            final(self)@ == old(self)@.command_char(c, plain, text_view(clipboard)),
            final(self)@.wf(),
    {
        if c == 'i' {
            self.enter_insert();
        } else if c == 'v' {
            let visual = match self.mode {
                Mode::Visual => true,
                _ => false,
            };
            if visual {
                self.enter(Mode::Normal);
                self.editor.cancel_selection();
            } else {
                self.enter(Mode::Visual);
                self.editor.start_selection();
            }
        } else if c == 'h' {
            if plain {
                self.editor.move_back();
            }
        } else if c == 'j' {
            if plain {
                self.editor.move_down();
            }
        } else if c == 'k' {
            if plain {
                self.editor.move_up();
            }
        } else if c == 'l' {
            if plain {
                self.editor.move_forward();
            }
        } else if c == 'w' {
            if self.after('d') {
                self.editor.delete_word_forward();
            } else {
                self.editor.move_word_forward();
            }
        } else if c == 'b' {
            if self.after('d') {
                self.editor.delete_word_backward();
            } else {
                self.editor.move_word_backward();
            }
        } else if c == '$' {
            if self.after('d') {
                self.editor.delete_to_line_end();
            } else {
                self.editor.move_end();
            }
        } else if c == '0' {
            if self.after('d') {
                self.editor.delete_to_line_start();
            } else {
                self.editor.move_head();
            }
        } else if c == '^' {
            self.editor.move_head();
        } else if c == 'D' {
            self.editor.delete_to_line_end();
        } else if c == 'd' {
            if self.after('d') {
                self.editor.delete_current_line();
            }
        } else if c == 'C' {
            self.editor.delete_to_line_end();
            self.enter_insert();
        } else if c == 'u' {
            self.editor.undo();
        } else if c == 'x' {
            self.editor.delete_char_at_cursor();
        } else if c == 'a' {
            self.editor.move_forward();
            self.enter_insert();
        } else if c == 'A' {
            self.editor.move_end();
            self.enter_insert();
        } else if c == 'o' {
            self.editor.move_end();
            self.editor.insert_newline();
            self.enter_insert();
        } else if c == 'O' {
            self.editor.move_head();
            self.editor.insert_newline();
            self.editor.move_up();
            self.enter_insert();
        } else if c == 'I' {
            self.editor.move_head();
            self.enter_insert();
        } else if c == 'G' {
            self.editor.move_document_end();
        } else if c == 'g' {
            if self.after('g') {
                self.editor.move_document_start();
            }
        } else if c == 'y' {
            self.editor.copy();
        } else if c == 'p' {
            if !self.editor.paste() {
                match clipboard {
                    Some(text) => {
                        self.editor.insert_text(text);
                    },
                    None => {},
                }
            }
        }
    }

    fn command_key(&mut self, key_event: KeyEvent, clipboard: Option<&Vec<char>>)
        requires
            old(self)@.wf(),
            old(self)@.mode != Mode::Insert,
        ensures
            final(self)@ == old(self)@.command_key(key_event, text_view(clipboard)),
            final(self)@.wf(),
    {
        let plain = key_event.modifiers.bits == 0;
        match key_event.code {
            KeyCode::Esc => {
                self.enter(Mode::Normal);
                self.editor.cancel_selection();
            },
            KeyCode::Left => {
                if plain {
                    self.editor.move_back();
                }
            },
            KeyCode::Down => {
                if plain {
                    self.editor.move_down();
                }
            },
            KeyCode::Up => {
                if plain {
                    self.editor.move_up();
                }
            },
            KeyCode::Right => {
                if plain {
                    self.editor.move_forward();
                }
            },
            KeyCode::Char(c) => {
                self.command_char(c, plain, clipboard);
            },
            _ => {},
        }
    }

    /// Handles one key press. `clipboard` is what the outer clipboard holds,
    /// or `None` where there is none or it could not be read; it is looked at
    /// only where [`PromptView::wants_clipboard`] holds. The result is the
    /// text that the key copied, for the outer clipboard to mirror.
    pub fn key_binding(&mut self, key_event: KeyEvent, clipboard: Option<&Vec<char>>) -> (mirror:
        Option<Vec<char>>)
        requires
            old(self)@.wf(),
        ensures
            final(self)@ == old(self)@.key_binding(key_event, text_view(clipboard)),
            final(self)@.wf(),
            match mirror {
                Some(text) => old(self)@.mirrored(key_event) == Some(text@),
                None => old(self)@.mirrored(key_event) is None,
            },
    {
        let inserting = match self.mode {
            Mode::Insert => true,
            _ => false,
        };
        let yanks = match key_event.code {
            KeyCode::Char(c) => c == 'y',
            _ => false,
        };
        let mirror = if !inserting && yanks {
            Some(self.editor.selected())
        } else {
            None
        };
        if inserting {
            self.insert_key(key_event.code);
        } else {
            self.command_key(key_event, clipboard);
        }
        self.previous_key = key_event.code;
        mirror
    }
}

} // verus!
