//! The events of an answer stream, and the backends that can give one.
use vstd::prelude::*;

verus! {

/// One event of an answer stream.
#[derive(Clone, Debug)]
pub enum LLMAnswer {
    /// The answer begins.
    StartAnswer,
    /// The next fragment of the answer's text.
    Answer(String),
    /// The answer is complete.
    EndAnswer,
}

/// An event of an answer stream, its text as a sequence of characters.
pub enum AnswerView {
    StartAnswer,
    Answer(Seq<char>),
    EndAnswer,
}

impl View for LLMAnswer {
    type V = AnswerView;

    open spec fn view(&self) -> AnswerView {
        match self {
            LLMAnswer::StartAnswer => AnswerView::StartAnswer,
            LLMAnswer::Answer(text) => AnswerView::Answer(text@),
            LLMAnswer::EndAnswer => AnswerView::EndAnswer,
        }
    }
}

/// The backends that can answer.
#[derive(Clone, Copy, Debug, PartialEq, Eq, Structural)]
pub enum LLMBackend {
    ChatGPT,
}

/// The place where a backend is chosen.
#[derive(Clone, Copy, Debug)]
pub struct LLMModel {}

} // verus!
