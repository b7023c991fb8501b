//! The errors of loading a pack and of judging an answer.

use vstd::prelude::*;

verus! {

/// The error type of `serde_json`, `serde_json::Error`, carried as an opaque value.
#[verifier::external_type_specification]
#[verifier::external_body]
pub struct ExDocumentError(serde_json::Error);

/// The error of the standard library's integer parsing, `std::num::ParseIntError`,
/// carried as an opaque value.
#[verifier::external_type_specification]
#[verifier::external_body]
pub struct ExParseIntError(std::num::ParseIntError);

/// What lies beneath a `ParseError`.
#[derive(Debug)]
pub enum ParseCause {
    /// The pack's text is not a JSON document.
    Document(serde_json::Error),
    /// An answer to an integer question is not a decimal integer that fits 64 bits.
    Integer(std::num::ParseIntError),
}

/// What can go wrong with a pack or with an answer.
#[derive(Debug)]
pub enum QuestionError {
    /// A text could not be parsed: a pack's document or an integer answer.
    ParseError(ParseCause),
    /// The document has no `questions` array.
    EmptyPack,
    /// A question has no type, or one that is not known.
    BadQuestionType,
    /// A question has no prompt.
    NoPrompt,
    /// A multiple-choice question lists a choice that is not a string.
    BadChoiceType,
    /// A question has no answer, or one of the wrong shape.
    BadAnswer,
    /// Any other failure, described in words.
    OtherError(String),
}

pub type QuestionResult<T> = Result<T, QuestionError>;

impl QuestionError {
    /// Whether this is the failure of parsing an integer answer.
    pub open spec fn is_integer_failure(self) -> bool {
        self matches QuestionError::ParseError(ParseCause::Integer(_))
    }

    /// Whether this is the failure of parsing a pack's document.
    pub open spec fn is_document_failure(self) -> bool {
        self matches QuestionError::ParseError(ParseCause::Document(_))
    }
}

} // verus!
