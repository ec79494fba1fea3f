//! The core of a terminal chat client: a modal text editor for the prompt,
//! the protocol between an answer producer and the loop that consumes its
//! events, and the geometry of the screen.
pub mod buffer;
pub mod buffer_laws;
pub mod dispatch;
pub mod dispatch_laws;
pub mod key;
pub mod llm;
pub mod producer;
pub mod prompt;
pub mod prompt_laws;
pub mod session;
pub mod stream_laws;
pub mod strings;
pub mod style;
pub mod text;
pub mod text_laws;
pub mod ui;
pub mod word;
