//! The answer producer's protocol.
//!
//! A producer talks to a backend and turns what arrives into the events of
//! one answer stream: `StartAnswer` once, the fragments in the order of their
//! arrival, and one closing event. Before each fragment it reads the
//! cancellation flag; once the flag is set it sends no further fragment and
//! closes the stream. What it does with each arrival is decided here; the
//! waiting and the sending are the caller's.
use crate::llm::{AnswerView, LLMAnswer};
use vstd::prelude::*;

verus! {

/// Where a producer stands.
#[derive(Debug, Clone, Copy, PartialEq, Eq, Structural)]
pub enum ProducerState {
    /// Nothing was sent yet.
    Ready,
    /// `StartAnswer` was sent and the stream is open.
    Streaming,
    /// The stream is closed; nothing more will be sent.
    Finished,
}

/// What the backend delivered.
#[derive(Debug, Clone)]
pub enum BackendEvent {
    /// The next piece of text.
    Fragment(String),
    /// The answer is complete.
    Done,
    /// The backend gave up, with a reason.
    Failed(String),
}

/// What the backend delivered, texts as sequences of characters.
pub enum Arrival {
    Fragment(Seq<char>),
    Done,
    Failed(Seq<char>),
}

impl View for BackendEvent {
    type V = Arrival;

    open spec fn view(&self) -> Arrival {
        match self {
            BackendEvent::Fragment(text) => Arrival::Fragment(text@),
            BackendEvent::Done => Arrival::Done,
            BackendEvent::Failed(reason) => Arrival::Failed(reason@),
        }
    }
}

/// What the producer is to do next.
#[derive(Debug, Clone)]
pub enum ProducerAction {
    /// Nothing.
    Idle,
    /// Put this event on the channel.
    Send(LLMAnswer),
    /// Report the failure, with its reason; the channel gets nothing.
    Fail(String),
}

/// What the producer is to do next, texts as sequences of characters.
pub enum Output {
    Idle,
    Send(AnswerView),
    Fail(Seq<char>),
}

impl View for ProducerAction {
    type V = Output;

    open spec fn view(&self) -> Output {
        match self {
            ProducerAction::Idle => Output::Idle,
            ProducerAction::Send(event) => Output::Send(event@),
            ProducerAction::Fail(reason) => Output::Fail(reason@),
        }
    }
}

/// One arrival from the backend, and what the cancellation flag read when it
/// came.
pub struct Input {
    pub arrival: Arrival,
    pub cancelled: bool,
}

impl Output {
    /// The output closes the stream: `EndAnswer`, or a failure.
    pub open spec fn is_closing(self) -> bool {
        self == Output::Send(AnswerView::EndAnswer) || self is Fail
    }

    /// The output is a fragment of the answer.
    pub open spec fn is_fragment(self) -> bool {
        self matches Output::Send(AnswerView::Answer(_))
    }
}

/// The state after one arrival. An open stream closes when the flag is set,
/// when the backend is done and when it fails; nothing else changes a state.
pub open spec fn next_state(state: ProducerState, input: Input) -> ProducerState {
    match state {
        ProducerState::Streaming => if input.cancelled {
            ProducerState::Finished
        } else {
            match input.arrival {
                Arrival::Fragment(_) => ProducerState::Streaming,
                _ => ProducerState::Finished,
            }
        },
        _ => state,
    }
}

/// What one arrival makes the producer do. On an open stream: with the flag
/// set, `EndAnswer`, whatever arrived; else the fragment that arrived,
/// `EndAnswer` when the backend is done, the failure when it failed. On a
/// stream that is not open: nothing.
pub open spec fn output(state: ProducerState, input: Input) -> Output {
    match state {
        ProducerState::Streaming => if input.cancelled {
            Output::Send(AnswerView::EndAnswer)
        } else {
            match input.arrival {
                Arrival::Fragment(text) => Output::Send(AnswerView::Answer(text)),
                Arrival::Done => Output::Send(AnswerView::EndAnswer),
                Arrival::Failed(reason) => Output::Fail(reason),
            }
        },
        _ => Output::Idle,
    }
}

/// The state after a sequence of arrivals.
pub open spec fn state_after(state: ProducerState, inputs: Seq<Input>) -> ProducerState
    decreases inputs.len(),
{
    if inputs.len() == 0 {
        state
    } else {
        next_state(state_after(state, inputs.drop_last()), inputs.last())
    }
}

/// What a sequence of arrivals makes the producer do, one output for each.
pub open spec fn outputs(state: ProducerState, inputs: Seq<Input>) -> Seq<Output>
    decreases inputs.len(),
{
    if inputs.len() == 0 {
        Seq::empty()
    } else {
        outputs(state, inputs.drop_last()).push(
            output(state_after(state, inputs.drop_last()), inputs.last()),
        )
    }
}

/// How many of the outputs close the stream.
pub open spec fn closings(outs: Seq<Output>) -> nat
    decreases outs.len(),
{
    if outs.len() == 0 {
        0
    } else {
        closings(outs.drop_last()) + if outs.last().is_closing() {
            1nat
        } else {
            0nat
        }
    }
}

/// An answer producer.
pub struct Producer {
    state: ProducerState,
}

impl View for Producer {
    type V = ProducerState;

    closed spec fn view(&self) -> ProducerState {
        self.state
    }
}

impl Producer {
    /// A producer that has sent nothing yet.
    pub fn new() -> (p: Producer)
        ensures
            p@ == ProducerState::Ready,
    {
        Producer { state: ProducerState::Ready }
    }

    /// Where the producer stands.
    pub fn state(&self) -> (s: ProducerState)
        ensures
            s == self@,
    {
        self.state
    }

    /// Opens the stream: a producer that has sent nothing yet hands out
    /// `StartAnswer`, once. Any other producer hands out nothing and stays as
    /// it is.
    pub fn start(&mut self) -> (event: Option<LLMAnswer>)
        ensures
            old(self)@ == ProducerState::Ready ==> final(self)@ == ProducerState::Streaming,
            old(self)@ == ProducerState::Ready ==> (event matches Some(e) && e@
                == AnswerView::StartAnswer),
            old(self)@ != ProducerState::Ready ==> final(self)@ == old(self)@ && event is None,
    {
        match self.state {
            ProducerState::Ready => {
                self.state = ProducerState::Streaming;
                Some(LLMAnswer::StartAnswer)
            },
            _ => None,
        }
    }

    /// Decides what to do with one arrival from the backend. `cancelled` is
    /// what the cancellation flag read just now.
    pub fn advance(&mut self, event: BackendEvent, cancelled: bool) -> (action: ProducerAction)
        ensures
            final(self)@ == next_state(old(self)@, Input { arrival: event@, cancelled }),
            action@ == output(old(self)@, Input { arrival: event@, cancelled }),
    {
        match self.state {
            ProducerState::Streaming => {
                if cancelled {
                    self.state = ProducerState::Finished;
                    ProducerAction::Send(LLMAnswer::EndAnswer)
                } else {
                    match event {
                        BackendEvent::Fragment(text) => ProducerAction::Send(
                            LLMAnswer::Answer(text),
                        ),
                        BackendEvent::Done => {
                            self.state = ProducerState::Finished;
                            ProducerAction::Send(LLMAnswer::EndAnswer)
                        },
                        BackendEvent::Failed(reason) => {
                            self.state = ProducerState::Finished;
                            ProducerAction::Fail(reason)
                        },
                    }
                }
            },
            _ => ProducerAction::Idle,
        }
    }
}

/// A stream that is not open stays so and sends nothing, whatever arrives.
pub proof fn lemma_closed_stream_is_silent(state: ProducerState, inputs: Seq<Input>)
    requires
        state != ProducerState::Streaming,
    ensures
        state_after(state, inputs) == state,
        outputs(state, inputs).len() == inputs.len(),
        forall|j: int| 0 <= j < inputs.len() ==> outputs(state, inputs)[j] == Output::Idle,
        closings(outputs(state, inputs)) == 0,
    decreases inputs.len(),
{
    if inputs.len() > 0 {
        lemma_closed_stream_is_silent(state, inputs.drop_last());
        assert(outputs(state, inputs).drop_last() =~= outputs(state, inputs.drop_last()));
    }
}

/// The shape of every stream. From an open stream, whatever arrives:
/// there is one output for each arrival; the stream is still open exactly
/// when no output closed it, and then every arrival so far was a fragment
/// read with the flag unset; and at most one output closes the stream.
pub proof fn lemma_stream_shape(inputs: Seq<Input>)
    ensures
        outputs(ProducerState::Streaming, inputs).len() == inputs.len(),
        state_after(ProducerState::Streaming, inputs) == ProducerState::Streaming || state_after(
            ProducerState::Streaming,
            inputs,
        ) == ProducerState::Finished,
        state_after(ProducerState::Streaming, inputs) == ProducerState::Streaming <==> closings(
            outputs(ProducerState::Streaming, inputs),
        ) == 0,
        state_after(ProducerState::Streaming, inputs) == ProducerState::Finished <==> closings(
            outputs(ProducerState::Streaming, inputs),
        ) == 1,
        state_after(ProducerState::Streaming, inputs) == ProducerState::Streaming ==> forall|
            j: int,
        |
            0 <= j < inputs.len() ==> !(#[trigger] inputs[j]).cancelled
                && inputs[j].arrival is Fragment,
    decreases inputs.len(),
{
    if inputs.len() > 0 {
        let before = inputs.drop_last();
        lemma_stream_shape(before);
        assert(outputs(ProducerState::Streaming, inputs).drop_last() =~= outputs(
            ProducerState::Streaming,
            before,
        ));
        if state_after(ProducerState::Streaming, inputs) == ProducerState::Streaming {
            assert forall|j: int| 0 <= j < inputs.len() implies !(#[trigger] inputs[j]).cancelled
                && inputs[j].arrival is Fragment by {
                if j < before.len() {
                    assert(inputs[j] == before[j]);
                }
            }
        }
    }
}

/// The state after the first `n` arrivals: a stream that was closed then is
/// closed at the end.
pub proof fn lemma_closed_stays_closed(inputs: Seq<Input>, n: int)
    requires
        0 <= n <= inputs.len(),
        state_after(ProducerState::Streaming, inputs.subrange(0, n)) == ProducerState::Finished,
    ensures
        state_after(ProducerState::Streaming, inputs) == ProducerState::Finished,
    decreases inputs.len() - n,
{
    if n < inputs.len() {
        assert(inputs.subrange(0, n + 1).drop_last() =~= inputs.subrange(0, n));
        lemma_closed_stays_closed(inputs, n + 1);
    } else {
        assert(inputs.subrange(0, n) =~= inputs);
    }
}

/// Each output answers the arrival at its own place: it is decided by the
/// state after the arrivals before it.
pub proof fn lemma_output_at(state: ProducerState, inputs: Seq<Input>, j: int)
    requires
        0 <= j < inputs.len(),
    ensures
        outputs(state, inputs).len() == inputs.len(),
        outputs(state, inputs)[j] == output(state_after(state, inputs.subrange(0, j)), inputs[j]),
    decreases inputs.len(),
{
    let before = inputs.drop_last();
    if before.len() > 0 && j < before.len() {
        lemma_output_at(state, before, j);
        assert(before.subrange(0, j) =~= inputs.subrange(0, j));
    } else {
        lemma_outputs_len(state, before);
        assert(inputs.subrange(0, j) =~= before);
    }
}

/// There is one output for each arrival.
pub proof fn lemma_outputs_len(state: ProducerState, inputs: Seq<Input>)
    ensures
        outputs(state, inputs).len() == inputs.len(),
    decreases inputs.len(),
{
    if inputs.len() > 0 {
        lemma_outputs_len(state, inputs.drop_last());
    }
}

/// Cancellation is honoured at the next reading of the flag: once an
/// arrival is read with the flag set, no output at or after it is a fragment.
pub proof fn lemma_cancel_stops_fragments(inputs: Seq<Input>, i: int, j: int)
    requires
        0 <= i <= j < inputs.len(),
        inputs[i].cancelled,
    ensures
        !outputs(ProducerState::Streaming, inputs)[j].is_fragment(),
{
    lemma_output_at(ProducerState::Streaming, inputs, j);
    if i < j {
        let upto = inputs.subrange(0, j);
        lemma_stream_shape(upto);
        if state_after(ProducerState::Streaming, upto) == ProducerState::Streaming {
            assert(upto[i] == inputs[i]);
        }
    }
}

/// Fragments keep their order and their text: an output that is a fragment
/// is the fragment that arrived at the same place, read with the flag unset.
pub proof fn lemma_fragments_in_order(inputs: Seq<Input>, j: int)
    requires
        0 <= j < inputs.len(),
        outputs(ProducerState::Streaming, inputs)[j].is_fragment(),
    ensures
        !inputs[j].cancelled,
        (inputs[j].arrival matches Arrival::Fragment(text) && outputs(
            ProducerState::Streaming,
            inputs,
        )[j] == Output::Send(AnswerView::Answer(text))),
{
    lemma_output_at(ProducerState::Streaming, inputs, j);
    lemma_stream_shape(inputs.subrange(0, j));
}

/// A stream is closed by the first arrival that is read with the flag set,
/// that ends the answer or that fails; and it is closed once: whatever
/// arrives after that, exactly one output closes the stream.
pub proof fn lemma_exactly_one_closing(inputs: Seq<Input>, i: int)
    requires
        0 <= i < inputs.len(),
        inputs[i].cancelled || !(inputs[i].arrival is Fragment),
    ensures
        state_after(ProducerState::Streaming, inputs) == ProducerState::Finished,
        closings(outputs(ProducerState::Streaming, inputs)) == 1,
{
    let upto = inputs.subrange(0, i + 1);
    lemma_stream_shape(upto);
    assert(upto[i] == inputs[i]);
    lemma_closed_stays_closed(inputs, i + 1);
    lemma_stream_shape(inputs);
}

} // verus!
