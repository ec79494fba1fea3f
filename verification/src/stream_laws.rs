//! What a producer sends is what the session commits.
use crate::llm::AnswerView;
use crate::producer::{output, outputs, state_after, Arrival, Input, Output, ProducerState};
use crate::session::{
    fragment_events, joined, lemma_handle_all_append, lemma_handle_one,
    lemma_stream_commits_one_turn, Role, SessionView, TurnView,
};
use vstd::prelude::*;

verus! {

/// The events that the outputs put on the channel, in their order.
pub open spec fn sent(outs: Seq<Output>) -> Seq<AnswerView>
    decreases outs.len(),
{
    if outs.len() == 0 {
        Seq::empty()
    } else {
        match outs.last() {
            Output::Send(event) => sent(outs.drop_last()).push(event),
            _ => sent(outs.drop_last()),
        }
    }
}

/// The fragments that arrive while the stream is open and the flag is
/// unset, in their order.
pub open spec fn forwarded(inputs: Seq<Input>) -> Seq<Seq<char>>
    decreases inputs.len(),
{
    if inputs.len() == 0 {
        Seq::empty()
    } else if state_after(ProducerState::Streaming, inputs.drop_last())
        == ProducerState::Streaming && !inputs.last().cancelled {
        match inputs.last().arrival {
            Arrival::Fragment(text) => forwarded(inputs.drop_last()).push(text),
            _ => forwarded(inputs.drop_last()),
        }
    } else {
        forwarded(inputs.drop_last())
    }
}

/// The stream was closed with `EndAnswer`: by the flag, or by the end of the
/// answer.
pub open spec fn ended(inputs: Seq<Input>) -> bool
    decreases inputs.len(),
{
    if inputs.len() == 0 {
        false
    } else {
        ended(inputs.drop_last()) || (state_after(ProducerState::Streaming, inputs.drop_last())
            == ProducerState::Streaming && (inputs.last().cancelled
            || inputs.last().arrival is Done))
    }
}

/// What goes on the channel of an open stream: the fragments that were
/// forwarded, and after them `EndAnswer` if the stream was closed with it.
/// Nothing else is ever sent.
pub proof fn lemma_channel_holds_the_stream(inputs: Seq<Input>)
    ensures
        sent(outputs(ProducerState::Streaming, inputs)) == if ended(inputs) {
            fragment_events(forwarded(inputs)).push(AnswerView::EndAnswer)
        } else {
            fragment_events(forwarded(inputs))
        },
        ended(inputs) ==> state_after(ProducerState::Streaming, inputs) == ProducerState::Finished,
    decreases inputs.len(),
{
    if inputs.len() > 0 {
        let before = inputs.drop_last();
        lemma_channel_holds_the_stream(before);
        let outs = outputs(ProducerState::Streaming, inputs);
        assert(outs.drop_last() =~= outputs(ProducerState::Streaming, before));
        assert(outs.last() == output(state_after(ProducerState::Streaming, before), inputs.last()));
        if state_after(ProducerState::Streaming, before) == ProducerState::Streaming
            && !inputs.last().cancelled {
            match inputs.last().arrival {
                Arrival::Fragment(text) => {
                    let so_far = forwarded(before);
                    assert(forwarded(inputs) == so_far.push(text));
                    assert(so_far.push(text).drop_last() =~= so_far);
                    assert(fragment_events(so_far.push(text)) == fragment_events(so_far).push(
                        AnswerView::Answer(text),
                    ));
                },
                _ => {},
            }
        }
    }
}

/// From the backend to the conversation. A session with a live stream
/// takes `StartAnswer` and then whatever a producer puts on the channel. If
/// the producer closes the stream with `EndAnswer` — because the answer is
/// complete or because the flag was set — the session commits exactly one
/// turn of the assistant. It holds the fragments that arrived before the
/// stream was closed, in their order, and nothing that arrived after.
pub proof fn lemma_backend_to_conversation(s: SessionView, inputs: Seq<Input>)
    requires
        s.streaming,
        ended(inputs),
    ensures
        s.handle_all(
            seq![AnswerView::StartAnswer] + sent(outputs(ProducerState::Streaming, inputs)),
        ) == (SessionView {
            conversation: s.conversation.push(
                TurnView { role: Role::Assistant, content: joined(forwarded(inputs)) },
            ),
            answer: Seq::empty(),
            streaming: false,
            cancel_requested: false,
            ..s
        }),
{
    lemma_channel_holds_the_stream(inputs);
    let fragments = forwarded(inputs);
    lemma_stream_commits_one_turn(s, fragments, Seq::empty());
    assert(seq![AnswerView::StartAnswer] + fragment_events(fragments) + seq![
        AnswerView::EndAnswer,
    ] + Seq::<AnswerView>::empty() =~= seq![AnswerView::StartAnswer] + fragment_events(
        fragments,
    ).push(AnswerView::EndAnswer));
}

/// A stream that was closed by a failure, or not yet at all, puts no
/// `EndAnswer` on the channel: the session commits nothing of it.
pub proof fn lemma_unfinished_stream_commits_nothing(s: SessionView, inputs: Seq<Input>)
    requires
        s.streaming,
        !ended(inputs),
    ensures
        s.handle_all(
            seq![AnswerView::StartAnswer] + sent(outputs(ProducerState::Streaming, inputs)),
        ) == (SessionView { answer: joined(forwarded(inputs)), ..s }),
{
    lemma_channel_holds_the_stream(inputs);
    let start = seq![AnswerView::StartAnswer];
    let s1 = s.handle(AnswerView::StartAnswer);
    lemma_handle_one(s, AnswerView::StartAnswer);
    lemma_handle_all_append(s, start, fragment_events(forwarded(inputs)));
    crate::session::lemma_fragments_accumulate(s1, forwarded(inputs));
    assert(s1.answer + joined(forwarded(inputs)) =~= joined(forwarded(inputs)));
}

} // verus!
