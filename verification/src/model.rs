//! The lifecycle of a session as a state machine over mathematical values.
//!
//! A session starts `Created`, takes one prompt, is asked once to stream, and
//! then hands out fragments one pull at a time until the engine is done, the
//! budget is used up or the engine fails. What the engine does is not part of
//! the machine: each of its reports reaches the machine as an event.

use vstd::prelude::*;
use crate::error::SessionError;

verus! {

/// Where a session stands in its life.
#[derive(Clone, Copy, Debug, PartialEq, Eq, Structural)]
pub enum SessionState {
    /// The engine is ready and no prompt was given yet.
    Created,
    /// The prompt is in the context; no fragment was pulled yet.
    PromptFed,
    /// At least one fragment was handed out, and more may come.
    Streaming,
    /// The stream ran to its end.
    Completed,
    /// The session met a fatal error and does nothing any more.
    Failed,
}

/// What the engine reported when it was asked to load the model and to set up
/// a context.
#[derive(Clone, Copy, Debug, PartialEq, Eq, Structural)]
pub enum EngineStart {
    /// Model and context are there.
    Ready,
    /// The model could not be loaded.
    ModelLoadFailed,
    /// The model is loaded, but no context of the size asked for could be had.
    ContextCreationFailed,
}

/// What the engine reported when it was given the prompt.
#[derive(Clone, Copy, Debug, PartialEq, Eq, Structural)]
pub enum FeedOutcome {
    /// The prompt came to this many tokens, and the engine did not object.
    Accepted { prompt_tokens: usize },
    /// The prompt could not be turned into tokens.
    TokenizationFailed,
    /// The engine found the prompt too long for its context.
    Overflow,
}

/// What one pull from the engine gave, as a mathematical value.
pub enum PullEvent {
    /// The next piece of text.
    Fragment(Seq<char>),
    /// The engine has nothing more to say.
    EndOfSequence,
    /// The engine failed.
    Fault,
}

/// Whether a prompt of `prompt_tokens` tokens fits a window of `window` tokens.
pub open spec fn fits(window: nat, prompt_tokens: nat) -> bool {
    prompt_tokens <= window
}

/// A session as the contracts see it.
pub struct SessionModel {
    /// The state.
    pub state: SessionState,
    /// The size of the context window, in tokens.
    pub window: nat,
    /// The most fragments that the stream may hand out; zero until a stream
    /// is asked for.
    pub budget: nat,
    /// How many fragments were handed out.
    pub delivered: nat,
    /// The fragments handed out so far, joined in order.
    pub transcript: Seq<char>,
    /// The clock reading at which the prompt was taken.
    pub submitted_at: nat,
    /// The time from taking the prompt to the end of the stream, once the
    /// stream has ended.
    pub elapsed: Option<nat>,
}

impl SessionModel {
    /// What holds of every session at every moment.
    pub open spec fn wf(self) -> bool {
        &&& self.delivered <= self.budget
        &&& self.elapsed is Some <==> self.state == SessionState::Completed
        &&& self.state == SessionState::Created ==> self.budget == 0
        &&& self.state == SessionState::PromptFed ==> self.delivered == 0
        &&& self.state == SessionState::Streaming ==> 0 < self.delivered < self.budget
        &&& self.state == SessionState::Completed ==> self.budget > 0
        &&& self.delivered == 0 ==> self.transcript == Seq::<char>::empty()
    }

    /// A new session over a window of `window` tokens.
    pub open spec fn created(window: nat) -> SessionModel {
        SessionModel {
            state: SessionState::Created,
            window,
            budget: 0,
            delivered: 0,
            transcript: Seq::empty(),
            submitted_at: 0,
            elapsed: None,
        }
    }

    /// What `submit` answers. A session takes a prompt only while it is
    /// `Created`; the engine's objections are passed on in kind, and a prompt
    /// that does not fit the window is an overflow even where the engine let
    /// it pass.
    pub open spec fn submit_result(self, feed: FeedOutcome) -> Result<(), SessionError> {
        if self.state != SessionState::Created {
            Err(SessionError::AlreadySubmitted)
        } else {
            match feed {
                FeedOutcome::TokenizationFailed => Err(SessionError::Tokenization),
                FeedOutcome::Overflow => Err(SessionError::ContextOverflow),
                FeedOutcome::Accepted { prompt_tokens } => if fits(self.window, prompt_tokens as nat) {
                    Ok(())
                } else {
                    Err(SessionError::ContextOverflow)
                },
            }
        }
    }

    /// The session after `submit`. A prompt that is taken moves the session to
    /// `PromptFed` and starts the clock; one that is turned away because the
    /// session already had its prompt changes nothing; any other failure
    /// leaves the session `Failed`.
    pub open spec fn after_submit(self, feed: FeedOutcome, now: nat) -> SessionModel {
        match self.submit_result(feed) {
            Ok(_) => SessionModel { state: SessionState::PromptFed, submitted_at: now, ..self },
            Err(SessionError::AlreadySubmitted) => self,
            Err(_) => SessionModel { state: SessionState::Failed, ..self },
        }
    }

    /// What `stream` answers. A stream can be asked for once, of a session
    /// that holds its prompt, and for at least one fragment.
    pub open spec fn stream_result(self, max_tokens: nat) -> Result<(), SessionError> {
        if self.state == SessionState::PromptFed && self.budget == 0 && max_tokens > 0 {
            Ok(())
        } else {
            Err(SessionError::Sampling)
        }
    }

    /// The session after `stream`: the budget is set where the stream was
    /// granted, and nothing changes where it was not.
    pub open spec fn after_stream(self, max_tokens: nat) -> SessionModel {
        if self.stream_result(max_tokens) is Ok {
            SessionModel { budget: max_tokens, ..self }
        } else {
            self
        }
    }

    /// Whether the session is waiting for the engine's next fragment.
    pub open spec fn expects_fragment(self) -> bool {
        ||| self.state == SessionState::Streaming
        ||| self.state == SessionState::PromptFed && self.budget > 0
    }

    /// The time from taking the prompt to `now`; zero if the clock went back.
    pub open spec fn elapsed_at(self, now: nat) -> nat {
        if now >= self.submitted_at {
            (now - self.submitted_at) as nat
        } else {
            0
        }
    }

    /// What `pull` answers. While the session waits for a fragment the
    /// engine's report is passed on: the fragment, the end of the stream, or
    /// the failure. A completed session stays at its end. Any other session
    /// has no stream to pull from.
    pub open spec fn pull_result(self, event: PullEvent) -> Result<Option<Seq<char>>, SessionError> {
        if self.expects_fragment() {
            match event {
                PullEvent::Fragment(text) => Ok(Some(text)),
                PullEvent::EndOfSequence => Ok(None),
                PullEvent::Fault => Err(SessionError::Sampling),
            }
        } else if self.state == SessionState::Completed {
            Ok(None)
        } else {
            Err(SessionError::Sampling)
        }
    }

    /// The session after `pull`. A fragment is counted and joined to the
    /// transcript, and the one that uses up the budget completes the session;
    /// the end of the stream completes it too; a failure of the engine leaves
    /// it `Failed`. A session that was not waiting for a fragment is unchanged.
    pub open spec fn after_pull(self, event: PullEvent, now: nat) -> SessionModel {
        if !self.expects_fragment() {
            self
        } else {
            match event {
                PullEvent::Fragment(text) => if self.delivered + 1 >= self.budget {
                    SessionModel {
                        state: SessionState::Completed,
                        delivered: self.delivered + 1,
                        transcript: self.transcript + text,
                        elapsed: Some(self.elapsed_at(now)),
                        ..self
                    }
                } else {
                    SessionModel {
                        state: SessionState::Streaming,
                        delivered: self.delivered + 1,
                        transcript: self.transcript + text,
                        ..self
                    }
                },
                PullEvent::EndOfSequence => SessionModel {
                    state: SessionState::Completed,
                    elapsed: Some(self.elapsed_at(now)),
                    ..self
                },
                PullEvent::Fault => SessionModel { state: SessionState::Failed, ..self },
            }
        }
    }
}

} // verus!
