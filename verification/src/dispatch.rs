//! The dispatch loop's decisions.
//!
//! One loop owns the whole state of the client and is its only writer. It
//! takes one event at a time — a tick of the clock, a key, a resize, an
//! event of the answer stream — changes the state, and is told what to do
//! outside of it. The waiting and the doing are the caller's; what an event
//! changes and asks for is decided here.
use crate::key::{KeyCode, KeyEvent};
use crate::llm::{AnswerView, LLMAnswer};
use crate::prompt::{text_view, Mode, Prompt, PromptView};
use crate::session::{turns_view, Session, SessionView, Turn, TurnView};
use crate::strings::string_of;
use crate::style::{prompt_style, FocusedBlock};
use vstd::prelude::*;

verus! {

/// What the loop takes.
#[derive(Debug, Clone)]
pub enum Event {
    /// The clock has ticked.
    Tick,
    /// A key was pressed.
    Key(KeyEvent),
    /// The terminal has a new size.
    Resize(u16, u16),
    /// The answer stream has an event.
    LLMEvent(LLMAnswer),
    /// The backend failed, with a reason.
    LLMFailure(String),
}

/// An event, texts as sequences of characters.
pub enum EventView {
    Tick,
    Key(KeyEvent),
    Resize(u16, u16),
    LLMEvent(AnswerView),
    LLMFailure(Seq<char>),
}

impl View for Event {
    type V = EventView;

    open spec fn view(&self) -> EventView {
        match self {
            Event::Tick => EventView::Tick,
            Event::Key(key) => EventView::Key(*key),
            Event::Resize(w, h) => EventView::Resize(*w, *h),
            Event::LLMEvent(event) => EventView::LLMEvent(event@),
            Event::LLMFailure(reason) => EventView::LLMFailure(reason@),
        }
    }
}

/// What the loop is to do outside of the state.
#[derive(Debug, Clone)]
pub enum Effect {
    /// Nothing.
    Idle,
    /// Start an answer producer on the conversation.
    StartStream,
    /// Set the cancellation flag of the live stream.
    StopStream,
    /// Put this text on the outer clipboard.
    Mirror(Vec<char>),
    /// Hand this finished conversation, which has at least one turn, to the
    /// history.
    Archive(Vec<Turn>),
}

/// An effect, texts as sequences of characters.
pub enum EffectView {
    Idle,
    StartStream,
    StopStream,
    Mirror(Seq<char>),
    Archive(Seq<TurnView>),
}

impl View for Effect {
    type V = EffectView;

    open spec fn view(&self) -> EffectView {
        match self {
            Effect::Idle => EffectView::Idle,
            Effect::StartStream => EffectView::StartStream,
            Effect::StopStream => EffectView::StopStream,
            Effect::Mirror(text) => EffectView::Mirror(text@),
            Effect::Archive(turns) => EffectView::Archive(turns_view(turns@)),
        }
    }
}

/// What the client is, mathematically.
pub struct AppView {
    pub running: bool,
    pub prompt: PromptView,
    pub session: SessionView,
    pub focused_block: FocusedBlock,
    pub show_help_popup: bool,
    pub show_history_popup: bool,
    pub scroll: usize,
}

/// The pane that the focus goes to next.
pub open spec fn next_focus(focus: FocusedBlock) -> FocusedBlock {
    match focus {
        FocusedBlock::Prompt => FocusedBlock::Chat,
        FocusedBlock::Chat => FocusedBlock::Prompt,
        FocusedBlock::History => FocusedBlock::Preview,
        FocusedBlock::Preview => FocusedBlock::History,
    }
}

impl AppView {
    /// Prompt and session are well formed.
    pub open spec fn wf(self) -> bool {
        self.prompt.wf() && self.session.wf()
    }

    /// A client that has just started: running, the focus on an empty prompt.
    pub open spec fn initial() -> AppView {
        AppView {
            running: true,
            prompt: PromptView::initial(),
            session: SessionView::empty(),
            focused_block: FocusedBlock::Prompt,
            show_help_popup: false,
            show_history_popup: false,
            scroll: 0,
        }
    }

    /// The focus on `focus`, the prompt's frame drawn for it.
    pub open spec fn focus_on(self, focus: FocusedBlock) -> AppView {
        AppView {
            focused_block: focus,
            prompt: PromptView { block: prompt_style(focus, self.prompt.mode), ..self.prompt },
            ..self
        }
    }

    /// The key submits the prompt: `Enter` in normal mode, with the focus on
    /// the prompt.
    pub open spec fn submits(self, key: KeyEvent) -> bool {
        self.focused_block == FocusedBlock::Prompt && key.code == KeyCode::Enter
            && self.prompt.mode == Mode::Normal
    }

    /// The submission is taken: there is something to send, and no stream is
    /// live.
    pub open spec fn submission_taken(self) -> bool {
        self.prompt.editor.whole_text().len() > 0 && !self.session.streaming
    }

    /// What submitting the prompt changes. An empty prompt changes nothing.
    /// Else the session decides: it takes the text as a turn of the user and
    /// the prompt is emptied, or it turns the text down and the prompt stays.
    pub open spec fn submit(self) -> AppView {
        let text = self.prompt.editor.whole_text();
        if text.len() == 0 {
            self
        } else if self.session.streaming {
            AppView { session: self.session.submit(text), ..self }
        } else {
            AppView {
                session: self.session.submit(text),
                prompt: self.prompt.edit(self.prompt.editor.clear()),
                ..self
            }
        }
    }

    /// What a key changes while the focus is not on the prompt.
    pub open spec fn command(self, key: KeyEvent) -> AppView {
        match key.code {
            KeyCode::Tab => self.focus_on(next_focus(self.focused_block)),
            KeyCode::Esc => if self.show_help_popup {
                AppView { show_help_popup: false, ..self }
            } else if self.show_history_popup {
                AppView { show_history_popup: false, ..self.focus_on(FocusedBlock::Chat) }
            } else {
                self
            },
            KeyCode::Down => AppView { scroll: self.scroll_down(), ..self },
            KeyCode::Up => AppView { scroll: self.scroll_up(), ..self },
            KeyCode::Char(c) => if c == 'q' {
                AppView { running: false, ..self }
            } else if c == '?' {
                AppView { show_help_popup: !self.show_help_popup, ..self }
            } else if c == 'h' {
                AppView { show_history_popup: true, ..self.focus_on(FocusedBlock::History) }
            } else if c == 't' {
                AppView { session: self.session.request_cancel(), ..self }
            } else if c == 'n' {
                AppView { session: self.session.new_chat(), ..self }
            } else if c == 'j' {
                AppView { scroll: self.scroll_down(), ..self }
            } else if c == 'k' {
                AppView { scroll: self.scroll_up(), ..self }
            } else {
                self
            },
            _ => self,
        }
    }

    /// The scroll position one row further down.
    pub open spec fn scroll_down(self) -> usize {
        if self.scroll < usize::MAX {
            (self.scroll + 1) as usize
        } else {
            self.scroll
        }
    }

    /// The scroll position one row further up.
    pub open spec fn scroll_up(self) -> usize {
        if self.scroll > 0 {
            (self.scroll - 1) as usize
        } else {
            self.scroll
        }
    }

    /// What a key changes. With the focus on the prompt, `Tab` moves the
    /// focus on, `Enter` in normal mode submits, and every other key goes to
    /// the editor. With the focus elsewhere the key is a command.
    pub open spec fn on_key(self, key: KeyEvent, clipboard: Option<Seq<char>>) -> AppView {
        if self.focused_block == FocusedBlock::Prompt {
            if key.code == KeyCode::Tab {
                self.focus_on(next_focus(self.focused_block))
            } else if self.submits(key) {
                self.submit()
            } else {
                AppView { prompt: self.prompt.key_binding(key, clipboard), ..self }
            }
        } else {
            self.command(key)
        }
    }

    /// What a key asks for outside of the state.
    pub open spec fn key_effect(self, key: KeyEvent) -> EffectView {
        if self.focused_block == FocusedBlock::Prompt {
            if key.code == KeyCode::Tab {
                EffectView::Idle
            } else if self.submits(key) {
                if self.submission_taken() {
                    EffectView::StartStream
                } else {
                    EffectView::Idle
                }
            } else {
                match self.prompt.mirrored(key) {
                    Some(text) => EffectView::Mirror(text),
                    None => EffectView::Idle,
                }
            }
        } else if key.code == KeyCode::Char('t') && self.session.streaming
            && !self.session.cancel_requested {
            EffectView::StopStream
        } else if key.code == KeyCode::Char('n') && !self.session.streaming
            && self.session.conversation.len() > 0 {
            EffectView::Archive(self.session.conversation)
        } else {
            EffectView::Idle
        }
    }

    /// What one event changes: a tick lets the notifications age, a key does
    /// what [`AppView::on_key`] says, a resize changes nothing, an event of
    /// the answer stream goes to the session, and so does a failure.
    pub open spec fn dispatch(self, event: EventView, clipboard: Option<Seq<char>>) -> AppView {
        match event {
            EventView::Tick => AppView { session: self.session.tick(), ..self },
            EventView::Key(key) => self.on_key(key, clipboard),
            EventView::Resize(_, _) => self,
            EventView::LLMEvent(answer) => AppView { session: self.session.handle(answer), ..self },
            EventView::LLMFailure(reason) => AppView { session: self.session.fail(reason), ..self },
        }
    }

    /// What one event asks for outside of the state: only keys ask for
    /// anything.
    pub open spec fn effect(self, event: EventView) -> EffectView {
        match event {
            EventView::Key(key) => self.key_effect(key),
            _ => EffectView::Idle,
        }
    }

    /// The state after a sequence of events, none of which finds anything on
    /// the outer clipboard.
    pub open spec fn dispatch_all(self, events: Seq<EventView>) -> AppView
        decreases events.len(),
    {
        if events.len() == 0 {
            self
        } else {
            self.dispatch_all(events.drop_last()).dispatch(events.last(), None)
        }
    }
}

/// The state of the client.
pub struct App {
    pub running: bool,
    pub prompt: Prompt,
    pub session: Session,
    pub focused_block: FocusedBlock,
    pub show_help_popup: bool,
    pub show_history_popup: bool,
    pub scroll: usize,
}

impl View for App {
    type V = AppView;

    open spec fn view(&self) -> AppView {
        AppView {
            running: self.running,
            prompt: self.prompt@,
            session: self.session@,
            focused_block: self.focused_block,
            show_help_popup: self.show_help_popup,
            show_history_popup: self.show_history_popup,
            scroll: self.scroll,
        }
    }
}

/// Computes [`next_focus`].
pub fn focus_after(focus: FocusedBlock) -> (next: FocusedBlock)
    ensures
        next == next_focus(focus),
{
    match focus {
        FocusedBlock::Prompt => FocusedBlock::Chat,
        FocusedBlock::Chat => FocusedBlock::Prompt,
        FocusedBlock::History => FocusedBlock::Preview,
        FocusedBlock::Preview => FocusedBlock::History,
    }
}

impl App {
    /// A client that has just started.
    pub fn new() -> (app: App)
        ensures
            app@ == AppView::initial(),
            app@.wf(),
    {
        App {
            running: true,
            prompt: Prompt::new(),
            session: Session::new(),
            focused_block: FocusedBlock::Prompt,
            show_help_popup: false,
            show_history_popup: false,
            scroll: 0,
        }
    }

    fn focus_on(&mut self, focus: FocusedBlock)
        ensures
            final(self)@ == old(self)@.focus_on(focus),
    {
        self.focused_block = focus;
        self.prompt.update(&focus);
    }

    fn submit(&mut self) -> (effect: Effect)
        requires
            old(self)@.wf(),
        ensures
            final(self)@ == old(self)@.submit(),
            final(self)@.wf(),
            effect@ == if old(self)@.submission_taken() {
                EffectView::StartStream
            } else {
                EffectView::Idle
            },
    {
        let text = self.prompt.editor.text();
        if text.len() == 0 {
            return Effect::Idle;
        }
        if self.session.submit(string_of(&text)) {
            self.prompt.clear();
            Effect::StartStream
        } else {
            Effect::Idle
        }
    }

    fn command(&mut self, key: KeyEvent) -> (effect: Effect)
        requires
            old(self)@.wf(),
            old(self)@.focused_block != FocusedBlock::Prompt,
        ensures
            final(self)@ == old(self)@.command(key),
            final(self)@.wf(),
            effect@ == old(self)@.key_effect(key),
    {
        match key.code {
            KeyCode::Tab => {
                self.focus_on(focus_after(self.focused_block));
            },
            KeyCode::Esc => {
                if self.show_help_popup {
                    self.show_help_popup = false;
                } else if self.show_history_popup {
                    self.focus_on(FocusedBlock::Chat);
                    self.show_history_popup = false;
                }
            },
            KeyCode::Down => {
                self.scroll_down();
            },
            KeyCode::Up => {
                self.scroll_up();
            },
            KeyCode::Char(c) => {
                if c == 'q' {
                    self.running = false;
                } else if c == '?' {
                    self.show_help_popup = !self.show_help_popup;
                } else if c == 'h' {
                    self.focus_on(FocusedBlock::History);
                    self.show_history_popup = true;
                } else if c == 't' {
                    if self.session.request_cancel() {
                        return Effect::StopStream;
                    }
                } else if c == 'n' {
                    match self.session.new_chat() {
                        Some(turns) => {
                            if turns.len() > 0 {
                                return Effect::Archive(turns);
                            }
                        },
                        None => {},
                    }
                } else if c == 'j' {
                    self.scroll_down();
                } else if c == 'k' {
                    self.scroll_up();
                }
            },
            _ => {},
        }
        Effect::Idle
    }

    fn scroll_down(&mut self)
        ensures
            final(self)@ == (AppView { scroll: old(self)@.scroll_down(), ..old(self)@ }),
    {
        if self.scroll < usize::MAX {
            self.scroll = self.scroll + 1;
        }
    }

    fn scroll_up(&mut self)
        ensures
            final(self)@ == (AppView { scroll: old(self)@.scroll_up(), ..old(self)@ }),
    {
        if self.scroll > 0 {
            self.scroll = self.scroll - 1;
        }
    }

    fn on_key(&mut self, key: KeyEvent, clipboard: Option<&Vec<char>>) -> (effect: Effect)
        requires
            old(self)@.wf(),
        ensures
            final(self)@ == old(self)@.on_key(key, text_view(clipboard)),
            final(self)@.wf(),
            effect@ == old(self)@.key_effect(key),
    {
        let on_prompt = match self.focused_block {
            FocusedBlock::Prompt => true,
            _ => false,
        };
        if !on_prompt {
            return self.command(key);
        }
        let normal = match self.prompt.mode {
            Mode::Normal => true,
            _ => false,
        };
        match key.code {
            KeyCode::Tab => {
                self.focus_on(focus_after(self.focused_block));
                Effect::Idle
            },
            KeyCode::Enter => {
                if normal {
                    self.submit()
                } else {
                    self.edit(key, clipboard)
                }
            },
            _ => self.edit(key, clipboard),
        }
    }

    fn edit(&mut self, key: KeyEvent, clipboard: Option<&Vec<char>>) -> (effect: Effect)
        requires
            old(self)@.wf(),
        ensures
            final(self)@ == (AppView {
                prompt: old(self)@.prompt.key_binding(key, text_view(clipboard)),
                ..old(self)@
            }),
            final(self)@.wf(),
            effect@ == match old(self)@.prompt.mirrored(key) {
                Some(text) => EffectView::Mirror(text),
                None => EffectView::Idle,
            },
    {
        match self.prompt.key_binding(key, clipboard) {
            Some(text) => Effect::Mirror(text),
            None => Effect::Idle,
        }
    }

    /// Whether the loop is to read the outer clipboard before it dispatches
    /// this event: the event is a key that goes to the editor and that the
    /// editor would read the clipboard for.
    pub fn wants_clipboard(&self, event: &Event) -> (wanted: bool)
        ensures
            wanted == (event@ matches EventView::Key(key) && self@.focused_block
                == FocusedBlock::Prompt && self@.prompt.wants_clipboard(key)),
    {
        let on_prompt = match self.focused_block {
            FocusedBlock::Prompt => true,
            _ => false,
        };
        match event {
            Event::Key(key) => on_prompt && self.prompt.wants_clipboard(key),
            _ => false,
        }
    }

    /// Takes one event. `clipboard` is what the outer clipboard holds, or
    /// `None` where there is none or it could not be read. The result is
    /// what the loop is to do outside of the state.
    pub fn dispatch(&mut self, event: Event, clipboard: Option<&Vec<char>>) -> (effect: Effect)
        requires
            old(self)@.wf(),
        ensures
            final(self)@ == old(self)@.dispatch(event@, text_view(clipboard)),
            effect@ == old(self)@.effect(event@),
            final(self)@.wf(),
    {
        match event {
            Event::Tick => {
                self.session.tick();
                Effect::Idle
            },
            Event::Key(key) => self.on_key(key, clipboard),
            Event::Resize(_, _) => Effect::Idle,
            Event::LLMEvent(answer) => {
                self.session.handle(answer);
                Effect::Idle
            },
            Event::LLMFailure(reason) => {
                self.session.fail(reason);
                Effect::Idle
            },
        }
    }
}

} // verus!
