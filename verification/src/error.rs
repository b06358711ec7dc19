//! The ways in which a generation session can fail.

use vstd::prelude::*;
use vstd::string::StringExecFns;

verus! {

/// Why an operation of a session failed. Every one of them is fatal for the
/// session it came from: nothing is retried and nothing is recovered.
#[derive(Clone, Copy, Debug, PartialEq, Eq, Structural)]
pub enum SessionError {
    /// The engine could not load the model: bad path, corrupt file, no memory.
    ModelLoad,
    /// The engine could not set up a context of the size asked for.
    ContextCreation,
    /// A prompt was handed to a session that is past taking one.
    AlreadySubmitted,
    /// The engine could not turn the prompt into tokens.
    Tokenization,
    /// The prompt is longer than the context window.
    ContextOverflow,
    /// The engine failed while generating, or generation was asked of a
    /// session that cannot generate.
    Sampling,
}

/// The description of each failure, as shown to a person.
pub open spec fn message_text(error: SessionError) -> Seq<char> {
    match error {
        SessionError::ModelLoad => "loading model failed"@,
        SessionError::ContextCreation => "creating inference context failed"@,
        SessionError::AlreadySubmitted => "a prompt was already submitted to this session"@,
        SessionError::Tokenization => "tokenizing the prompt failed"@,
        SessionError::ContextOverflow => "the prompt does not fit the context window"@,
        SessionError::Sampling => "sampling failed during generation"@,
    }
}

impl SessionError {
    /// A description of the failure for a person to read.
    pub fn message(&self) -> (text: String)
        ensures
            text@ == message_text(*self),
    {
        match self {
            SessionError::ModelLoad => String::from_str("loading model failed"),
            SessionError::ContextCreation => String::from_str("creating inference context failed"),
            SessionError::AlreadySubmitted => String::from_str(
                "a prompt was already submitted to this session",
            ),
            SessionError::Tokenization => String::from_str("tokenizing the prompt failed"),
            SessionError::ContextOverflow => String::from_str(
                "the prompt does not fit the context window",
            ),
            SessionError::Sampling => String::from_str("sampling failed during generation"),
        }
    }
}

} // verus!
