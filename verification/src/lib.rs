//! A quiz engine without I/O. A pack of questions is read from a JSON text,
//! a session chooses the questions and keeps the score, and each question
//! judges the lines that the user types. Showing the prompts and reading
//! the lines is left to the caller.

pub mod error;
pub mod json;
pub mod pack;
pub mod question;
pub mod session;
pub mod text;

pub use error::{ParseCause, QuestionError, QuestionResult};
pub use json::Json;
pub use pack::Pack;
pub use question::{
    Answer, AnyQuestion, BasicQuestion, IntQuestion, MultipleChoiceQuestion, Question, Reply,
};
pub use session::Session;
