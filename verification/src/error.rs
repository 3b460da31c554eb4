//! The failure taxonomy of the generation pipeline.

use crate::models::WordType;
use crate::text::concat;
use vstd::prelude::*;
use vstd::string::StringExecFns;

verus! {

/// Everything that can make a run fail.
#[derive(Debug, PartialEq, Eq)]
pub enum Error {
    /// Local file access failed.
    Io(String),
    /// A JSON document could not be written or read.
    Serialization(String),
    /// An HTTP transport failure.
    Http(String),
    /// The object store rejected or failed an operation.
    S3(String),
    /// The object store holds nothing under the requested key.
    NotFound(String),
    /// A generated image could not be decoded or re-encoded.
    Image(String),
    /// An AI provider call failed or returned an unusable answer.
    AiProvider(String),
    /// A category list is shorter than the largest draw taken from it.
    InsufficientWords(WordType),
    /// No duplicate-free selection was found within the attempt limit.
    SelectionExhausted,
    /// The day index holds the largest representable id already.
    Overflow,
    /// Invalid configuration.
    Config(String),
    /// A caller handed over inconsistent input.
    InvalidInput(String),
    /// A date was not in `YYYY-MM-DD` form.
    DateParse(String),
    /// An internal protocol was violated.
    Invariant(String),
    /// Any other failure.
    Generic(String),
    /// The build of one difficulty's challenge failed for good.
    Challenge { difficulty: String, cause: Box<Error> },
}

/// Mathematical value of an [`Error`].
pub enum ErrorModel {
    Io(Seq<char>),
    Serialization(Seq<char>),
    Http(Seq<char>),
    S3(Seq<char>),
    NotFound(Seq<char>),
    Image(Seq<char>),
    AiProvider(Seq<char>),
    InsufficientWords(WordType),
    SelectionExhausted,
    Overflow,
    Config(Seq<char>),
    InvalidInput(Seq<char>),
    DateParse(Seq<char>),
    Invariant(Seq<char>),
    Generic(Seq<char>),
    Challenge { difficulty: Seq<char>, cause: Box<ErrorModel> },
}

impl View for Error {
    type V = ErrorModel;

    open spec fn view(&self) -> ErrorModel
        decreases self,
    {
        match self {
            Error::Io(m) => ErrorModel::Io(m@),
            Error::Serialization(m) => ErrorModel::Serialization(m@),
            Error::Http(m) => ErrorModel::Http(m@),
            Error::S3(m) => ErrorModel::S3(m@),
            Error::NotFound(m) => ErrorModel::NotFound(m@),
            Error::Image(m) => ErrorModel::Image(m@),
            Error::AiProvider(m) => ErrorModel::AiProvider(m@),
            Error::InsufficientWords(t) => ErrorModel::InsufficientWords(*t),
            Error::SelectionExhausted => ErrorModel::SelectionExhausted,
            Error::Overflow => ErrorModel::Overflow,
            Error::Config(m) => ErrorModel::Config(m@),
            Error::InvalidInput(m) => ErrorModel::InvalidInput(m@),
            Error::DateParse(m) => ErrorModel::DateParse(m@),
            Error::Invariant(m) => ErrorModel::Invariant(m@),
            Error::Generic(m) => ErrorModel::Generic(m@),
            Error::Challenge { difficulty, cause } => ErrorModel::Challenge {
                difficulty: difficulty@,
                cause: Box::new((**cause)@),
            },
        }
    }
}

/// The lower-case name of a word category.
pub open spec fn word_type_name(t: WordType) -> Seq<char> {
    match t {
        WordType::Object => "object"@,
        WordType::Gerund => "gerund"@,
        WordType::Concept => "concept"@,
    }
}

/// The human-readable text of an error value.
pub open spec fn message_of(e: ErrorModel) -> Seq<char>
    decreases e,
{
    match e {
        ErrorModel::Io(m) => "IO error: "@ + m,
        ErrorModel::Serialization(m) => "Serialization error: "@ + m,
        ErrorModel::Http(m) => "HTTP request error: "@ + m,
        ErrorModel::S3(m) => "S3/CDN error: "@ + m,
        ErrorModel::NotFound(m) => "S3/CDN error: File not found: "@ + m,
        ErrorModel::Image(m) => "Image processing error: "@ + m,
        ErrorModel::AiProvider(m) => "AI provider error: "@ + m,
        ErrorModel::InsufficientWords(t) => "Word selection error: Not enough words in list: "@
            + word_type_name(t),
        ErrorModel::SelectionExhausted =>
            "Word selection error: Could not generate unique words after 100 attempts"@,
        ErrorModel::Overflow => "Invariant violation: Day ID overflow"@,
        ErrorModel::Config(m) => "Config error: "@ + m,
        ErrorModel::InvalidInput(m) => "Invalid input: "@ + m,
        ErrorModel::DateParse(m) => "Date parsing error: "@ + m,
        ErrorModel::Invariant(m) => "Invariant violation: "@ + m,
        ErrorModel::Generic(m) => "Generic error: "@ + m,
        ErrorModel::Challenge { difficulty, cause } => "["@ + difficulty + "] "@ + message_of(
            *cause,
        ),
    }
}

impl WordType {
    /// The lower-case name of the category.
    pub fn name(&self) -> (r: &'static str)
        ensures
            r@ == word_type_name(*self),
    {
        match self {
            WordType::Object => "object",
            WordType::Gerund => "gerund",
            WordType::Concept => "concept",
        }
    }
}

impl Error {
    /// The human-readable text of the error.
    pub fn message(&self) -> (r: String)
        ensures
            r@ == message_of(self@),
        decreases self,
    {
        match self {
            Error::Io(m) => concat("IO error: ", m.as_str()),
            Error::Serialization(m) => concat("Serialization error: ", m.as_str()),
            Error::Http(m) => concat("HTTP request error: ", m.as_str()),
            Error::S3(m) => concat("S3/CDN error: ", m.as_str()),
            Error::NotFound(m) => concat("S3/CDN error: File not found: ", m.as_str()),
            Error::Image(m) => concat("Image processing error: ", m.as_str()),
            Error::AiProvider(m) => concat("AI provider error: ", m.as_str()),
            Error::InsufficientWords(t) => concat(
                "Word selection error: Not enough words in list: ",
                t.name(),
            ),
            Error::SelectionExhausted => String::from_str(
                "Word selection error: Could not generate unique words after 100 attempts",
            ),
            Error::Overflow => String::from_str("Invariant violation: Day ID overflow"),
            Error::Config(m) => concat("Config error: ", m.as_str()),
            Error::InvalidInput(m) => concat("Invalid input: ", m.as_str()),
            Error::DateParse(m) => concat("Date parsing error: ", m.as_str()),
            Error::Invariant(m) => concat("Invariant violation: ", m.as_str()),
            Error::Generic(m) => concat("Generic error: ", m.as_str()),
            Error::Challenge { difficulty, cause } => {
                let head = concat("[", difficulty.as_str());
                let head = concat(head.as_str(), "] ");
                let tail = cause.message();
                concat(head.as_str(), tail.as_str())
            },
        }
    }
}

} // verus!
