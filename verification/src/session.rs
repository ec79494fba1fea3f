//! The state that the dispatch loop owns: the conversation, the answer that
//! is coming in, the one stream that may be live, and the notifications.
//!
//! The loop is the only writer. An answer producer never touches this state:
//! it posts events, and the loop hands each of them to [`Session::handle`].
use crate::llm::{AnswerView, LLMAnswer};
use vstd::prelude::*;

verus! {

/// Who said it.
#[derive(Debug, Clone, Copy, PartialEq, Eq, Structural)]
pub enum Role {
    User,
    Assistant,
}

/// One message of the conversation.
#[derive(Debug, Clone)]
pub struct Turn {
    pub role: Role,
    pub content: String,
}

/// One message of the conversation, its text as a sequence of characters.
pub struct TurnView {
    pub role: Role,
    pub content: Seq<char>,
}

impl View for Turn {
    type V = TurnView;

    open spec fn view(&self) -> TurnView {
        TurnView { role: self.role, content: self.content@ }
    }
}

/// How urgent a notification is.
#[derive(Debug, Clone, Copy, PartialEq, Eq, Structural)]
pub enum NotificationLevel {
    Info,
    Warning,
    Error,
}

/// A short message for the user that goes away by itself.
#[derive(Debug, Clone)]
pub struct Notification {
    pub message: String,
    pub level: NotificationLevel,
    /// How many ticks it still has to live.
    pub ttl: u16,
}

/// A notification, its text as a sequence of characters.
pub struct NotificationView {
    pub message: Seq<char>,
    pub level: NotificationLevel,
    pub ttl: int,
}

impl View for Notification {
    type V = NotificationView;

    open spec fn view(&self) -> NotificationView {
        NotificationView { message: self.message@, level: self.level, ttl: self.ttl as int }
    }
}

/// The number of ticks a notification lives.
pub const NOTIFICATION_TTL: u16 = 8;

/// The number of notifications that are kept; a further one pushes the
/// oldest out.
pub const MAX_NOTIFICATIONS: usize = 8;

/// The notifications after one tick: those whose time is up are gone, the
/// others have one tick less to live.
pub open spec fn ticked(notes: Seq<NotificationView>) -> Seq<NotificationView>
    decreases notes.len(),
{
    if notes.len() == 0 {
        Seq::empty()
    } else if notes.last().ttl > 0 {
        ticked(notes.drop_last()).push(
            NotificationView { ttl: notes.last().ttl - 1, ..notes.last() },
        )
    } else {
        ticked(notes.drop_last())
    }
}

/// The fragments put together, first to last.
pub open spec fn joined(fragments: Seq<Seq<char>>) -> Seq<char>
    decreases fragments.len(),
{
    if fragments.len() == 0 {
        Seq::empty()
    } else {
        joined(fragments.drop_last()) + fragments.last()
    }
}

/// The fragments as events of a stream.
pub open spec fn fragment_events(fragments: Seq<Seq<char>>) -> Seq<AnswerView>
    decreases fragments.len(),
{
    if fragments.len() == 0 {
        Seq::empty()
    } else {
        fragment_events(fragments.drop_last()).push(AnswerView::Answer(fragments.last()))
    }
}

/// What a session is, mathematically.
pub struct SessionView {
    /// The finished turns.
    pub conversation: Seq<TurnView>,
    /// What has arrived of the answer that is coming in.
    pub answer: Seq<char>,
    /// A stream is live.
    pub streaming: bool,
    /// The live stream was asked to stop.
    pub cancel_requested: bool,
    /// The notifications on show, the oldest first.
    pub notifications: Seq<NotificationView>,
}

impl SessionView {
    /// No turn, no stream, no notification.
    pub open spec fn empty() -> SessionView {
        SessionView {
            conversation: Seq::empty(),
            answer: Seq::empty(),
            streaming: false,
            cancel_requested: false,
            notifications: Seq::empty(),
        }
    }

    /// The queue of notifications is within its bound, and only a live
    /// stream can have been asked to stop.
    pub open spec fn wf(self) -> bool {
        &&& self.notifications.len() <= MAX_NOTIFICATIONS
        &&& (self.cancel_requested ==> self.streaming)
    }

    /// One more notification; a full queue loses its oldest.
    pub open spec fn notify(self, level: NotificationLevel, message: Seq<char>) -> SessionView {
        let all = self.notifications.push(
            NotificationView { message, level, ttl: NOTIFICATION_TTL as int },
        );
        SessionView {
            notifications: if all.len() > MAX_NOTIFICATIONS {
                all.drop_first()
            } else {
                all
            },
            ..self
        }
    }

    /// The user submits `text`. While a stream is live the submission is
    /// turned down with a warning and nothing else changes; else `text`
    /// becomes a turn of the user and a stream goes live.
    pub open spec fn submit(self, text: Seq<char>) -> SessionView {
        if self.streaming {
            self.notify(NotificationLevel::Warning, busy_message())
        } else {
            SessionView {
                conversation: self.conversation.push(TurnView { role: Role::User, content: text }),
                answer: Seq::empty(),
                streaming: true,
                cancel_requested: false,
                ..self
            }
        }
    }

    /// One event of the answer stream arrives. Without a live stream it is
    /// dropped. `StartAnswer` empties the answer, a fragment is appended to
    /// it, and `EndAnswer` makes the answer a turn of the assistant and
    /// retires the stream.
    pub open spec fn handle(self, event: AnswerView) -> SessionView {
        if !self.streaming {
            self
        } else {
            match event {
                AnswerView::StartAnswer => SessionView { answer: Seq::empty(), ..self },
                AnswerView::Answer(text) => SessionView { answer: self.answer + text, ..self },
                AnswerView::EndAnswer => SessionView {
                    conversation: self.conversation.push(
                        TurnView { role: Role::Assistant, content: self.answer },
                    ),
                    answer: Seq::empty(),
                    streaming: false,
                    cancel_requested: false,
                    ..self
                },
            }
        }
    }

    /// The events of a stream handled one after the other.
    pub open spec fn handle_all(self, events: Seq<AnswerView>) -> SessionView
        decreases events.len(),
    {
        if events.len() == 0 {
            self
        } else {
            self.handle_all(events.drop_last()).handle(events.last())
        }
    }

    /// The backend failed: the user is told, what had arrived of the answer
    /// is thrown away, and the stream is retired.
    pub open spec fn fail(self, reason: Seq<char>) -> SessionView {
        SessionView {
            answer: Seq::empty(),
            streaming: false,
            cancel_requested: false,
            ..self.notify(NotificationLevel::Error, reason)
        }
    }

    /// The user asks the live stream to stop. The request is recorded once
    /// for each stream.
    pub open spec fn request_cancel(self) -> SessionView {
        if self.streaming {
            SessionView { cancel_requested: true, ..self }
        } else {
            self
        }
    }

    /// One tick of the clock.
    pub open spec fn tick(self) -> SessionView {
        SessionView { notifications: ticked(self.notifications), ..self }
    }

    /// The conversation is handed off and a new one begins. While a stream is
    /// live the request is turned down with a warning.
    pub open spec fn new_chat(self) -> SessionView {
        if self.streaming {
            self.notify(NotificationLevel::Warning, busy_message())
        } else {
            SessionView { conversation: Seq::empty(), answer: Seq::empty(), ..self }
        }
    }
}

/// What the user is told when a stream is still live.
pub open spec fn busy_message() -> Seq<char> {
    "An answer is still streaming"@
}

/// The views of some turns.
pub open spec fn turns_view(turns: Seq<Turn>) -> Seq<TurnView> {
    Seq::new(turns.len(), |i: int| turns[i]@)
}

/// The views of some notifications.
pub open spec fn notes_view(notes: Seq<Notification>) -> Seq<NotificationView> {
    Seq::new(notes.len(), |i: int| notes[i]@)
}

/// The state of the chat.
pub struct Session {
    conversation: Vec<Turn>,
    answer: String,
    streaming: bool,
    cancel_requested: bool,
    notifications: Vec<Notification>,
}

impl View for Session {
    type V = SessionView;

    closed spec fn view(&self) -> SessionView {
        SessionView {
            conversation: turns_view(self.conversation@),
            answer: self.answer@,
            streaming: self.streaming,
            cancel_requested: self.cancel_requested,
            notifications: notes_view(self.notifications@),
        }
    }
}

impl Session {
    /// A session without turns.
    pub fn new() -> (s: Session)
        ensures
            s@ == SessionView::empty(),
            s@.wf(),
    {
        let s = Session {
            conversation: Vec::new(),
            answer: String::new(),
            streaming: false,
            cancel_requested: false,
            notifications: Vec::new(),
        };
        assert(s@.conversation =~= Seq::empty());
        assert(s@.notifications =~= Seq::empty());
        s
    }

    /// The finished turns, first to last.
    pub fn conversation(&self) -> (turns: &Vec<Turn>)
        ensures
            turns_view(turns@) == self@.conversation,
    {
        &self.conversation
    }

    /// What has arrived of the answer that is coming in.
    pub fn answer(&self) -> (text: &String)
        ensures
            text@ == self@.answer,
    {
        &self.answer
    }

    /// Whether a stream is live.
    pub fn is_streaming(&self) -> (b: bool)
        ensures
            b == self@.streaming,
    {
        self.streaming
    }

    /// Whether the live stream was asked to stop.
    pub fn cancel_requested(&self) -> (b: bool)
        ensures
            b == self@.cancel_requested,
    {
        self.cancel_requested
    }

    /// The notifications on show, the oldest first.
    pub fn notifications(&self) -> (notes: &Vec<Notification>)
        ensures
            notes_view(notes@) == self@.notifications,
    {
        &self.notifications
    }

    /// Shows a notification.
    pub fn notify(&mut self, level: NotificationLevel, message: String)
        requires
            old(self)@.wf(),
        ensures
            final(self)@ == old(self)@.notify(level, message@),
            final(self)@.wf(),
    {
        self.notifications.push(Notification { message, level, ttl: NOTIFICATION_TTL });
        if self.notifications.len() > MAX_NOTIFICATIONS {
            self.notifications.remove(0);
        }
        assert(self@.notifications =~= old(self)@.notify(level, message@).notifications);
    }

    /// Takes a submission of the user. Tells whether it was accepted: it is
    /// not while a stream is live.
    pub fn submit(&mut self, text: String) -> (accepted: bool)
        requires
            old(self)@.wf(),
        ensures
            final(self)@ == old(self)@.submit(text@),
            accepted == !old(self)@.streaming,
            final(self)@.streaming,
            final(self)@.wf(),
    {
        if self.streaming {
            self.notify(NotificationLevel::Warning, String::from_str("An answer is still streaming"));
            false
        } else {
            self.conversation.push(Turn { role: Role::User, content: text });
            self.answer = String::new();
            self.streaming = true;
            self.cancel_requested = false;
            assert(self@.conversation =~= old(self)@.submit(text@).conversation);
            true
        }
    }

    /// Takes one event of the answer stream.
    pub fn handle(&mut self, event: LLMAnswer)
        requires
            old(self)@.wf(),
        ensures
            final(self)@ == old(self)@.handle(event@),
            final(self)@.wf(),
    {
        if self.streaming {
            match event {
                LLMAnswer::StartAnswer => {
                    self.answer = String::new();
                },
                LLMAnswer::Answer(text) => {
                    self.answer.append(text.as_str());
                },
                LLMAnswer::EndAnswer => {
                    let content = self.answer.clone();
                    self.conversation.push(Turn { role: Role::Assistant, content });
                    self.answer = String::new();
                    self.streaming = false;
                    self.cancel_requested = false;
                    assert(self@.conversation =~= old(self)@.handle(event@).conversation);
                },
            }
        }
    }

    /// Takes the failure of the backend.
    pub fn fail(&mut self, reason: String)
        requires
            old(self)@.wf(),
        ensures
            final(self)@ == old(self)@.fail(reason@),
            !final(self)@.streaming,
            final(self)@.wf(),
    {
        self.notify(NotificationLevel::Error, reason);
        self.answer = String::new();
        self.streaming = false;
        self.cancel_requested = false;
    }

    /// Asks the live stream to stop. Tells whether the flag is to be set
    /// now: there is a live stream and it was not asked before.
    pub fn request_cancel(&mut self) -> (set_flag: bool)
        requires
            old(self)@.wf(),
        ensures
            final(self)@ == old(self)@.request_cancel(),
            set_flag == (old(self)@.streaming && !old(self)@.cancel_requested),
            final(self)@.wf(),
    {
        if self.streaming && !self.cancel_requested {
            self.cancel_requested = true;
            true
        } else {
            false
        }
    }

    /// Lets one tick of the clock pass.
    pub fn tick(&mut self)
        requires
            old(self)@.wf(),
        ensures
            final(self)@ == old(self)@.tick(),
            final(self)@.wf(),
    {
        let mut kept: Vec<Notification> = Vec::new();
        let mut i: usize = 0;
        assert(notes_view(self.notifications@).subrange(0, 0) =~= Seq::empty());
        assert(notes_view(kept@) =~= Seq::empty());
        while i < self.notifications.len()
            invariant
                i <= self.notifications.len(),
                notes_view(kept@) == ticked(notes_view(self.notifications@).subrange(0, i as int)),
                kept.len() <= i,
            decreases self.notifications.len() - i,
        {
            let ghost before = notes_view(kept@);
            let ghost all = notes_view(self.notifications@);
            let note = &self.notifications[i];
            if note.ttl > 0 {
                kept.push(
                    Notification {
                        message: note.message.clone(),
                        level: note.level,
                        ttl: note.ttl - 1,
                    },
                );
            }
            i = i + 1;
            proof {
                assert(all.subrange(0, i as int).drop_last() =~= all.subrange(0, i - 1));
                assert(all.subrange(0, i as int).last() == all[i - 1]);
                if all[i - 1].ttl > 0 {
                    assert(notes_view(kept@) =~= before.push(
                        NotificationView { ttl: all[i - 1].ttl - 1, ..all[i - 1] },
                    ));
                } else {
                    assert(notes_view(kept@) =~= before);
                }
            }
        }
        assert(notes_view(self.notifications@).subrange(0, i as int) =~= notes_view(
            self.notifications@,
        ));
        self.notifications = kept;
    }

    /// Hands off the conversation and begins a new one. While a stream is
    /// live nothing is handed off and the user is warned.
    pub fn new_chat(&mut self) -> (finished: Option<Vec<Turn>>)
        requires
            old(self)@.wf(),
        ensures
            final(self)@ == old(self)@.new_chat(),
            final(self)@.wf(),
            old(self)@.streaming ==> finished is None,
            !old(self)@.streaming ==> (finished matches Some(turns) && turns_view(turns@) == old(
                self,
            )@.conversation),
    {
        if self.streaming {
            self.notify(NotificationLevel::Warning, String::from_str("An answer is still streaming"));
            None
        } else {
            let mut turns: Vec<Turn> = Vec::new();
            turns.append(&mut self.conversation);
            self.answer = String::new();
            assert(turns_view(turns@) =~= old(self)@.conversation);
            assert(self@.conversation =~= Seq::empty());
            Some(turns)
        }
    }
}

/// Without a live stream, events of a stream change nothing: what a retired
/// producer still sends is never seen.
pub proof fn lemma_retired_stream_is_ignored(s: SessionView, events: Seq<AnswerView>)
    requires
        !s.streaming,
    ensures
        s.handle_all(events) == s,
    decreases events.len(),
{
    if events.len() > 0 {
        lemma_retired_stream_is_ignored(s, events.drop_last());
    }
}

/// Handling a run of one event is handling that event.
pub proof fn lemma_handle_one(s: SessionView, event: AnswerView)
    ensures
        s.handle_all(seq![event]) == s.handle(event),
{
    reveal_with_fuel(SessionView::handle_all, 2);
    assert(seq![event].drop_last() =~= Seq::<AnswerView>::empty());
}

/// Handling two runs of events one after the other is handling them as one.
pub proof fn lemma_handle_all_append(s: SessionView, first: Seq<AnswerView>, second: Seq<AnswerView>)
    ensures
        s.handle_all(first + second) == s.handle_all(first).handle_all(second),
    decreases second.len(),
{
    if second.len() == 0 {
        assert(first + second =~= first);
    } else {
        assert((first + second).drop_last() =~= first + second.drop_last());
        lemma_handle_all_append(s, first, second.drop_last());
    }
}

/// Fragments that arrive on a live stream are appended to the answer in the
/// order of their arrival, and change nothing else.
pub proof fn lemma_fragments_accumulate(s: SessionView, fragments: Seq<Seq<char>>)
    requires
        s.streaming,
    ensures
        s.handle_all(fragment_events(fragments)) == (SessionView {
            answer: s.answer + joined(fragments),
            ..s
        }),
    decreases fragments.len(),
{
    if fragments.len() == 0 {
        assert(s.answer + joined(fragments) =~= s.answer);
    } else {
        lemma_fragments_accumulate(s, fragments.drop_last());
        assert(fragment_events(fragments).drop_last() =~= fragment_events(fragments.drop_last()));
        assert((s.answer + joined(fragments.drop_last())) + fragments.last() =~= s.answer + joined(
            fragments,
        ));
    }
}

/// One stream gives one turn. On a live stream, `StartAnswer`, any number of
/// fragments and `EndAnswer` add exactly one turn of the assistant to the
/// conversation: the fragments put together. The stream is retired by it, and
/// whatever events come after are not seen.
pub proof fn lemma_stream_commits_one_turn(
    s: SessionView,
    fragments: Seq<Seq<char>>,
    later: Seq<AnswerView>,
)
    requires
        s.streaming,
    ensures
        s.handle_all(
            seq![AnswerView::StartAnswer] + fragment_events(fragments) + seq![
                AnswerView::EndAnswer,
            ] + later,
        ) == (SessionView {
            conversation: s.conversation.push(
                TurnView { role: Role::Assistant, content: joined(fragments) },
            ),
            answer: Seq::empty(),
            streaming: false,
            cancel_requested: false,
            ..s
        }),
{
    let start = seq![AnswerView::StartAnswer];
    let end = seq![AnswerView::EndAnswer];
    let body = fragment_events(fragments);
    let s1 = s.handle(AnswerView::StartAnswer);
    lemma_handle_one(s, AnswerView::StartAnswer);
    lemma_handle_all_append(s, start, body);
    lemma_fragments_accumulate(s1, fragments);
    let s2 = s.handle_all(start + body);
    assert(s1.answer + joined(fragments) =~= joined(fragments));
    lemma_handle_one(s2, AnswerView::EndAnswer);
    lemma_handle_all_append(s, start + body, end);
    let s3 = s.handle_all(start + body + end);
    lemma_handle_all_append(s, start + body + end, later);
    lemma_retired_stream_is_ignored(s3, later);
}

/// At most one stream is live: a submission while one is live starts no
/// second one and leaves the conversation as it is.
pub proof fn lemma_one_stream_at_a_time(s: SessionView, text: Seq<char>)
    requires
        s.streaming,
    ensures
        s.submit(text).conversation == s.conversation,
        s.submit(text).answer == s.answer,
        s.submit(text).streaming,
        s.submit(text).cancel_requested == s.cancel_requested,
{
}

} // verus!

verus! {

/// A tick removes notifications and adds none.
pub proof fn lemma_ticked_is_shorter(notes: Seq<NotificationView>)
    ensures
        ticked(notes).len() <= notes.len(),
    decreases notes.len(),
{
    if notes.len() > 0 {
        lemma_ticked_is_shorter(notes.drop_last());
    }
}

/// Whatever is done to a session, it stays well formed: the queue of
/// notifications stays within its bound, and only a live stream is ever
/// asked to stop.
pub proof fn lemma_session_stays_wf(
    s: SessionView,
    text: Seq<char>,
    event: AnswerView,
    level: NotificationLevel,
)
    requires
        s.wf(),
    ensures
        s.notify(level, text).wf(),
        s.submit(text).wf(),
        s.handle(event).wf(),
        s.fail(text).wf(),
        s.request_cancel().wf(),
        s.tick().wf(),
        s.new_chat().wf(),
{
    lemma_ticked_is_shorter(s.notifications);
}

} // verus!
