//! One generation session, driven from outside.
//!
//! The session owns the lifecycle and none of the engine. Its driver makes
//! each engine call and hands the report to the session, which decides what
//! the caller gets and where the session stands afterwards. Fragments are
//! handed on one by one, as soon as the engine has produced them.
//!
//! The session reads no clock either. Where a call takes `now`, it is the
//! driver's reading of a clock that does not go back, in whatever unit the
//! driver counts; the elapsed time comes out in the same unit.

use vstd::prelude::*;
use vstd::string::StringExecFns;
use crate::config::GenerationConfig;
use crate::error::SessionError;
use crate::model::{EngineStart, FeedOutcome, PullEvent, SessionModel, SessionState};

verus! {

/// What one pull from the engine gave.
#[derive(Debug)]
pub enum PullOutcome {
    /// The next piece of text.
    Fragment(String),
    /// The engine has nothing more to say.
    EndOfSequence,
    /// The engine failed.
    Fault,
}

impl View for PullOutcome {
    type V = PullEvent;

    open spec fn view(&self) -> PullEvent {
        match self {
            PullOutcome::Fragment(text) => PullEvent::Fragment(text@),
            PullOutcome::EndOfSequence => PullEvent::EndOfSequence,
            PullOutcome::Fault => PullEvent::Fault,
        }
    }
}

/// The part of a session that changes in one piece.
#[derive(Clone, Copy, Debug)]
struct Progress {
    state: SessionState,
    budget: usize,
    delivered: usize,
    submitted_at: u64,
    elapsed: Option<u64>,
}

/// A generation session: the settings it was made with, where it stands, and
/// the text it has handed out.
#[derive(Debug)]
pub struct GenerationSession {
    config: GenerationConfig,
    progress: Progress,
    transcript: String,
}

impl View for GenerationSession {
    type V = SessionModel;

    closed spec fn view(&self) -> SessionModel {
        SessionModel {
            state: self.progress.state,
            window: self.config.spec_context_window_size() as nat,
            budget: self.progress.budget as nat,
            delivered: self.progress.delivered as nat,
            transcript: self.transcript@,
            submitted_at: self.progress.submitted_at as nat,
            elapsed: match self.progress.elapsed {
                Some(t) => Some(t as nat),
                None => None,
            },
        }
    }
}

impl GenerationSession {
    #[verifier::type_invariant]
    spec fn well_formed(&self) -> bool {
        self@.wf()
    }

    /// The settings that the session was made with.
    pub closed spec fn spec_config(&self) -> GenerationConfig {
        self.config
    }

    /// Makes a session from the settings and from what the engine reported
    /// when it was started. There is a session only where the engine is ready;
    /// its failures are passed on in kind.
    pub fn create(config: GenerationConfig, engine: EngineStart) -> (result: Result<
        GenerationSession,
        SessionError,
    >)
        ensures
            match engine {
                EngineStart::Ready => result matches Ok(session) && session.spec_config() == config
                    && session@ == SessionModel::created(config.spec_context_window_size() as nat),
                EngineStart::ModelLoadFailed => result matches Err(SessionError::ModelLoad),
                EngineStart::ContextCreationFailed => result matches Err(
                    SessionError::ContextCreation,
                ),
            },
    {
        match engine {
            EngineStart::Ready => Ok(
                GenerationSession {
                    config,
                    progress: Progress {
                        state: SessionState::Created,
                        budget: 0,
                        delivered: 0,
                        submitted_at: 0,
                        elapsed: None,
                    },
                    transcript: String::new(),
                },
            ),
            EngineStart::ModelLoadFailed => Err(SessionError::ModelLoad),
            EngineStart::ContextCreationFailed => Err(SessionError::ContextCreation),
        }
    }

    /// The settings that the session was made with.
    pub fn config(&self) -> (config: &GenerationConfig)
        ensures
            *config == self.spec_config(),
            config.spec_context_window_size() == self@.window,
    {
        &self.config
    }

    /// Where the session stands. Every session is well-formed, at every
    /// moment.
    pub fn state(&self) -> (state: SessionState)
        ensures
            state == self@.state,
            self@.wf(),
    {
        proof {
            use_type_invariant(self);
        }
        self.progress.state
    }

    /// The most fragments that the stream may hand out; zero while no stream
    /// was asked for.
    pub fn budget(&self) -> (budget: usize)
        ensures
            budget == self@.budget,
    {
        self.progress.budget
    }

    /// How many fragments were handed out. It never exceeds the budget.
    pub fn fragments_delivered(&self) -> (count: usize)
        ensures
            count == self@.delivered,
            count <= self@.budget,
    {
        proof {
            use_type_invariant(self);
        }
        self.progress.delivered
    }

    /// The fragments handed out so far, joined in the order they came.
    pub fn transcript(&self) -> (text: &str)
        ensures
            text@ == self@.transcript,
    {
        self.transcript.as_str()
    }

    /// The time from taking the prompt to the end of the stream, in the
    /// clock's unit. It is there once the session is `Completed`, and only
    /// then.
    pub fn elapsed(&self) -> (elapsed: Option<u64>)
        ensures
            elapsed is Some <==> self@.state == SessionState::Completed,
            match elapsed {
                Some(t) => self@.elapsed == Some(t as nat),
                None => self@.elapsed is None,
            },
    {
        proof {
            use_type_invariant(self);
        }
        self.progress.elapsed
    }

    /// Takes the prompt, given what the engine reported when it was fed, and
    /// the reading of the clock. The prompt is taken where the session is
    /// `Created`, the engine did not object and the prompt fits the window;
    /// the session is then `PromptFed`. A session that is past `Created`
    /// answers `AlreadySubmitted` and stays as it is. Any other failure leaves
    /// the session `Failed`.
    pub fn submit(&mut self, feed: FeedOutcome, now: u64) -> (result: Result<(), SessionError>)
        ensures
            result == old(self)@.submit_result(feed),
            final(self)@ == old(self)@.after_submit(feed, now as nat),
            final(self)@.wf(),
            final(self).spec_config() == old(self).spec_config(),
    {
        proof {
            use_type_invariant(&*self);
        }
        if self.progress.state != SessionState::Created {
            return Err(SessionError::AlreadySubmitted);
        }
        let verdict = match feed {
            FeedOutcome::TokenizationFailed => Err(SessionError::Tokenization),
            FeedOutcome::Overflow => Err(SessionError::ContextOverflow),
            FeedOutcome::Accepted { prompt_tokens } => {
                if self.admits(prompt_tokens) {
                    Ok(())
                } else {
                    Err(SessionError::ContextOverflow)
                }
            },
        };
        let progress = self.progress;
        match verdict {
            Ok(()) => {
                self.progress = Progress {
                    state: SessionState::PromptFed,
                    submitted_at: now,
                    ..progress
                };
            },
            Err(_) => {
                self.progress = Progress { state: SessionState::Failed, ..progress };
            },
        }
        verdict
    }

    /// Whether the session would take a prompt of `prompt_tokens` tokens: it
    /// is still `Created` and the prompt fits its window. The driver feeds
    /// the engine where this holds, and not otherwise.
    pub fn accepts(&self, prompt_tokens: usize) -> (taking: bool)
        ensures
            taking == (self@.submit_result(FeedOutcome::Accepted { prompt_tokens }) is Ok),
    {
        self.progress.state == SessionState::Created && self.admits(prompt_tokens)
    }

    /// Whether a prompt of `prompt_tokens` tokens fits the session's window.
    pub fn admits(&self, prompt_tokens: usize) -> (fitting: bool)
        ensures
            fitting == crate::model::fits(self@.window, prompt_tokens as nat),
    {
        let window: u32 = self.config.context_window_size();
        prompt_tokens <= window as usize
    }

    /// Asks for a stream of at most `max_tokens` fragments. The stream is
    /// granted once, to a session that is `PromptFed`, and for one fragment
    /// at least; the session stays `PromptFed` until the first pull. Where it
    /// is not granted the answer is `Sampling` and nothing changes.
    pub fn stream(&mut self, max_tokens: usize) -> (result: Result<(), SessionError>)
        ensures
            result == old(self)@.stream_result(max_tokens as nat),
            final(self)@ == old(self)@.after_stream(max_tokens as nat),
            final(self)@.wf(),
            final(self).spec_config() == old(self).spec_config(),
    {
        proof {
            use_type_invariant(&*self);
        }
        let progress = self.progress;
        if progress.state == SessionState::PromptFed && progress.budget == 0 && max_tokens > 0 {
            self.progress = Progress { budget: max_tokens, ..progress };
            Ok(())
        } else {
            Err(SessionError::Sampling)
        }
    }

    /// Whether the session is waiting for the engine's next fragment. The
    /// driver pulls from the engine while this holds, and not after.
    pub fn expects_fragment(&self) -> (waiting: bool)
        ensures
            waiting == self@.expects_fragment(),
    {
        self.progress.state == SessionState::Streaming || (self.progress.state
            == SessionState::PromptFed && self.progress.budget > 0)
    }

    /// Takes what one pull from the engine gave, with the reading of the
    /// clock, and hands the fragment on if there is one. The fragment that
    /// uses up the budget and the end of the engine's stream complete the
    /// session; a failure of the engine leaves it `Failed`, and what was
    /// handed out before stays handed out. A session that is not waiting for
    /// a fragment takes nothing: `None` once it is `Completed`, `Sampling`
    /// otherwise.
    pub fn pull(&mut self, outcome: PullOutcome, now: u64) -> (result: Result<
        Option<String>,
        SessionError,
    >)
        ensures
            match result {
                Ok(Some(fragment)) => old(self)@.pull_result(outcome@) == Ok::<
                    Option<Seq<char>>,
                    SessionError,
                >(Some(fragment@)),
                Ok(None) => old(self)@.pull_result(outcome@) == Ok::<
                    Option<Seq<char>>,
                    SessionError,
                >(None),
                Err(error) => old(self)@.pull_result(outcome@) == Err::<
                    Option<Seq<char>>,
                    SessionError,
                >(error),
            },
            final(self)@ == old(self)@.after_pull(outcome@, now as nat),
            final(self)@.wf(),
            final(self).spec_config() == old(self).spec_config(),
    {
        proof {
            use_type_invariant(&*self);
        }
        let progress = self.progress;
        if !self.expects_fragment() {
            return if progress.state == SessionState::Completed {
                Ok(None)
            } else {
                Err(SessionError::Sampling)
            };
        }
        let elapsed: u64 = if now >= progress.submitted_at {
            now - progress.submitted_at
        } else {
            0
        };
        match outcome {
            PullOutcome::Fragment(fragment) => {
                let delivered: usize = progress.delivered + 1;
                if delivered >= progress.budget {
                    self.progress = Progress {
                        state: SessionState::Completed,
                        delivered,
                        elapsed: Some(elapsed),
                        ..progress
                    };
                } else {
                    self.progress = Progress {
                        state: SessionState::Streaming,
                        delivered,
                        ..progress
                    };
                }
                let mut transcript = String::new();
                std::mem::swap(&mut transcript, &mut self.transcript);
                transcript.append(fragment.as_str());
                self.transcript = transcript;
                Ok(Some(fragment))
            },
            PullOutcome::EndOfSequence => {
                self.progress = Progress {
                    state: SessionState::Completed,
                    elapsed: Some(elapsed),
                    ..progress
                };
                Ok(None)
            },
            PullOutcome::Fault => {
                self.progress = Progress { state: SessionState::Failed, ..progress };
                Err(SessionError::Sampling)
            },
        }
    }
}

} // verus!
