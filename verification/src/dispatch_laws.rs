//! What holds of the client's state whatever events arrive.
use crate::dispatch::{AppView, EventView};
use crate::llm::AnswerView;
use crate::prompt_laws::lemma_key_binding_wf;
use crate::session::{
    fragment_events, joined, lemma_session_stays_wf, lemma_stream_commits_one_turn,
    NotificationLevel, Role, SessionView, TurnView,
};
use vstd::prelude::*;

verus! {

/// The events of an answer stream as events of the loop.
pub open spec fn stream_events(answers: Seq<AnswerView>) -> Seq<EventView>
    decreases answers.len(),
{
    if answers.len() == 0 {
        Seq::empty()
    } else {
        stream_events(answers.drop_last()).push(EventView::LLMEvent(answers.last()))
    }
}

/// No event leads out of the well-formed states.
pub proof fn lemma_dispatch_wf(app: AppView, event: EventView, clipboard: Option<Seq<char>>)
    requires
        app.wf(),
    ensures
        app.dispatch(event, clipboard).wf(),
{
    let text = app.prompt.editor.whole_text();
    lemma_session_stays_wf(app.session, text, AnswerView::EndAnswer, NotificationLevel::Info);
    match event {
        EventView::Key(key) => {
            lemma_key_binding_wf(app.prompt, key, clipboard);
            crate::buffer_laws::lemma_apply_wf(
                app.prompt.editor,
                crate::buffer_laws::BufferOp::Clear,
            );
        },
        EventView::LLMEvent(answer) => {
            lemma_session_stays_wf(app.session, text, answer, NotificationLevel::Info);
        },
        EventView::LLMFailure(reason) => {
            lemma_session_stays_wf(app.session, reason, AnswerView::EndAnswer, NotificationLevel::Info);
        },
        _ => {},
    }
}

/// Whatever events arrive, in whatever order, the state stays well formed,
/// and with it the cursor stays inside the prompt's text.
pub proof fn lemma_events_keep_state_wf(app: AppView, events: Seq<EventView>)
    requires
        app.wf(),
    ensures
        app.dispatch_all(events).wf(),
        0 <= app.dispatch_all(events).prompt.editor.text.row < app.dispatch_all(
            events,
        ).prompt.editor.text.lines.len(),
        0 <= app.dispatch_all(events).prompt.editor.text.col <= app.dispatch_all(
            events,
        ).prompt.editor.text.line().len(),
    decreases events.len(),
{
    if events.len() > 0 {
        lemma_events_keep_state_wf(app, events.drop_last());
        lemma_dispatch_wf(app.dispatch_all(events.drop_last()), events.last(), None);
    }
}

/// The events of an answer stream change the session and nothing else, and
/// the session takes them one by one.
pub proof fn lemma_stream_reaches_session(app: AppView, answers: Seq<AnswerView>)
    ensures
        app.dispatch_all(stream_events(answers)) == (AppView {
            session: app.session.handle_all(answers),
            ..app
        }),
    decreases answers.len(),
{
    if answers.len() > 0 {
        lemma_stream_reaches_session(app, answers.drop_last());
        assert(stream_events(answers).drop_last() =~= stream_events(answers.drop_last()));
    }
}

/// One stream gives one turn: with a stream live, the loop makes of
/// `StartAnswer`, any number of fragments and `EndAnswer` exactly one turn of
/// the assistant, which holds the fragments put together; and events of
/// that stream that come after its `EndAnswer` change nothing.
pub proof fn lemma_loop_commits_one_turn(
    app: AppView,
    fragments: Seq<Seq<char>>,
    later: Seq<AnswerView>,
)
    requires
        app.session.streaming,
    ensures
        app.dispatch_all(
            stream_events(
                seq![AnswerView::StartAnswer] + fragment_events(fragments) + seq![
                    AnswerView::EndAnswer,
                ] + later,
            ),
        ) == (AppView {
            session: SessionView {
                conversation: app.session.conversation.push(
                    TurnView { role: Role::Assistant, content: joined(fragments) },
                ),
                answer: Seq::empty(),
                streaming: false,
                cancel_requested: false,
                ..app.session
            },
            ..app
        }),
{
    let answers = seq![AnswerView::StartAnswer] + fragment_events(fragments) + seq![
        AnswerView::EndAnswer,
    ] + later;
    lemma_stream_reaches_session(app, answers);
    lemma_stream_commits_one_turn(app.session, fragments, later);
}

} // verus!
