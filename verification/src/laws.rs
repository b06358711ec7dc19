//! What holds of a session over any course of calls.
//!
//! A course of calls is a sequence of operations, each with what the engine
//! reported for it. The laws below speak of the session that such a course
//! leaves behind and of the fragments that it hands out on the way.

use vstd::prelude::*;
use vstd::seq_lib::lemma_flatten_concat;
use crate::error::SessionError;
use crate::model::{FeedOutcome, PullEvent, SessionModel, SessionState};

verus! {

/// One call on a session.
pub enum Op {
    /// `submit`, with the engine's report on the prompt and the clock.
    Submit { feed: FeedOutcome, now: nat },
    /// `stream`, with the budget asked for.
    Stream { max_tokens: nat },
    /// `pull`, with the engine's report and the clock.
    Pull { event: PullEvent, now: nat },
}

/// The session after one call.
pub open spec fn step(m: SessionModel, op: Op) -> SessionModel {
    match op {
        Op::Submit { feed, now } => m.after_submit(feed, now),
        Op::Stream { max_tokens } => m.after_stream(max_tokens),
        Op::Pull { event, now } => m.after_pull(event, now),
    }
}

/// The fragments that one call hands to the caller: one or none.
pub open spec fn handed_out(m: SessionModel, op: Op) -> Seq<Seq<char>> {
    match op {
        Op::Pull { event, now } => match m.pull_result(event) {
            Ok(Some(fragment)) => seq![fragment],
            _ => Seq::empty(),
        },
        _ => Seq::empty(),
    }
}

/// The session after a course of calls.
pub open spec fn run(m: SessionModel, ops: Seq<Op>) -> SessionModel
    decreases ops.len(),
{
    if ops.len() == 0 {
        m
    } else {
        run(step(m, ops.first()), ops.drop_first())
    }
}

/// The fragments that a course of calls hands out, in the order they come.
pub open spec fn deliveries(m: SessionModel, ops: Seq<Op>) -> Seq<Seq<char>>
    decreases ops.len(),
{
    if ops.len() == 0 {
        Seq::empty()
    } else {
        handed_out(m, ops.first()) + deliveries(step(m, ops.first()), ops.drop_first())
    }
}

/// A call leaves a well-formed session well-formed, keeps its window, counts
/// exactly the fragments it hands out and joins them to the transcript.
pub proof fn lemma_step_keeps_order(m: SessionModel, op: Op)
    requires
        m.wf(),
    ensures
        step(m, op).wf(),
        step(m, op).window == m.window,
        step(m, op).delivered == m.delivered + handed_out(m, op).len(),
        step(m, op).transcript == m.transcript + handed_out(m, op).flatten(),
        m.budget > 0 ==> step(m, op).budget == m.budget,
        m.state != SessionState::Created ==> step(m, op).state != SessionState::Created,
{
    let out = handed_out(m, op);
    if out.len() == 0 {
        assert(out.flatten() =~= Seq::<char>::empty());
        assert(step(m, op).transcript =~= m.transcript + out.flatten());
    } else {
        out.lemma_flatten_one_element();
        assert(step(m, op).transcript =~= m.transcript + out.flatten());
    }
}

/// A course of calls leaves a well-formed session well-formed, keeps its
/// window, and never brings a session back to `Created`. Once a budget is set
/// it stays as it is.
pub proof fn lemma_run_keeps_order(m: SessionModel, ops: Seq<Op>)
    requires
        m.wf(),
    ensures
        run(m, ops).wf(),
        run(m, ops).window == m.window,
        m.budget > 0 ==> run(m, ops).budget == m.budget,
        m.state != SessionState::Created ==> run(m, ops).state != SessionState::Created,
    decreases ops.len(),
{
    if ops.len() > 0 {
        lemma_step_keeps_order(m, ops.first());
        lemma_run_keeps_order(step(m, ops.first()), ops.drop_first());
    }
}

/// How far a state is along the lifecycle: `Created`, then `PromptFed`, then
/// `Streaming`, then one of the two ends.
pub open spec fn stage(state: SessionState) -> nat {
    match state {
        SessionState::Created => 0,
        SessionState::PromptFed => 1,
        SessionState::Streaming => 2,
        SessionState::Completed => 3,
        SessionState::Failed => 3,
    }
}

/// A session only moves forward: no course of calls takes it to an earlier
/// stage, and one that has reached an end stays at that end.
pub proof fn lemma_lifecycle_moves_forward(m: SessionModel, ops: Seq<Op>)
    ensures
        stage(run(m, ops).state) >= stage(m.state),
        m.state == SessionState::Completed || m.state == SessionState::Failed ==> run(m, ops) == m,
    decreases ops.len(),
{
    if ops.len() > 0 {
        lemma_lifecycle_moves_forward(step(m, ops.first()), ops.drop_first());
    }
}

/// A session takes one prompt in its life: once `submit` has succeeded, every
/// later `submit` is turned away as `AlreadySubmitted` and changes nothing,
/// whatever was called in between and whatever the engine reports.
pub proof fn lemma_submit_at_most_once(
    m: SessionModel,
    feed: FeedOutcome,
    now: nat,
    between: Seq<Op>,
    again: FeedOutcome,
    later: nat,
)
    requires
        m.wf(),
        m.submit_result(feed) is Ok,
    ensures
        m.state == SessionState::Created,
        m.after_submit(feed, now).state == SessionState::PromptFed,
        run(m.after_submit(feed, now), between).submit_result(again) == Err::<(), SessionError>(
            SessionError::AlreadySubmitted,
        ),
        run(m.after_submit(feed, now), between).after_submit(again, later) == run(
            m.after_submit(feed, now),
            between,
        ),
{
    let fed = m.after_submit(feed, now);
    lemma_step_keeps_order(m, Op::Submit { feed, now });
    lemma_run_keeps_order(fed, between);
}

/// A failed session does nothing any more: no course of calls changes it, and
/// none gets a fragment out of it.
pub proof fn lemma_failed_session_is_silent(m: SessionModel, ops: Seq<Op>)
    requires
        m.state == SessionState::Failed,
    ensures
        run(m, ops) == m,
        deliveries(m, ops) == Seq::<Seq<char>>::empty(),
    decreases ops.len(),
{
    if ops.len() > 0 {
        assert(step(m, ops.first()) == m);
        assert(handed_out(m, ops.first()) == Seq::<Seq<char>>::empty());
        lemma_failed_session_is_silent(m, ops.drop_first());
        assert(deliveries(m, ops) =~= Seq::<Seq<char>>::empty());
    }
}

/// A completed session stays at its end: no course of calls changes it, and
/// none gets a further fragment out of it.
pub proof fn lemma_completed_session_is_silent(m: SessionModel, ops: Seq<Op>)
    requires
        m.state == SessionState::Completed,
    ensures
        run(m, ops) == m,
        deliveries(m, ops) == Seq::<Seq<char>>::empty(),
    decreases ops.len(),
{
    if ops.len() > 0 {
        assert(step(m, ops.first()) == m);
        assert(handed_out(m, ops.first()) == Seq::<Seq<char>>::empty());
        lemma_completed_session_is_silent(m, ops.drop_first());
        assert(deliveries(m, ops) =~= Seq::<Seq<char>>::empty());
    }
}

/// A prompt of more tokens than the window holds is an overflow, whether the
/// engine saw it so or let it pass. The session that was given it has failed:
/// no later call changes it, and none gets a fragment out of it.
pub proof fn lemma_overflow_fails_session(
    m: SessionModel,
    feed: FeedOutcome,
    now: nat,
    later: Seq<Op>,
)
    requires
        m.state == SessionState::Created,
        feed is Overflow || (feed matches FeedOutcome::Accepted { prompt_tokens } && prompt_tokens
            > m.window),
    ensures
        m.submit_result(feed) == Err::<(), SessionError>(SessionError::ContextOverflow),
        m.after_submit(feed, now).state == SessionState::Failed,
        run(m.after_submit(feed, now), later).state == SessionState::Failed,
        deliveries(m.after_submit(feed, now), later) == Seq::<Seq<char>>::empty(),
{
    lemma_failed_session_is_silent(m.after_submit(feed, now), later);
}

/// The transcript is the fragments joined in the order they were handed out,
/// and the count of fragments is their number.
pub proof fn lemma_transcript_joins_deliveries(m: SessionModel, ops: Seq<Op>)
    requires
        m.wf(),
    ensures
        run(m, ops).transcript == m.transcript + deliveries(m, ops).flatten(),
        run(m, ops).delivered == m.delivered + deliveries(m, ops).len(),
    decreases ops.len(),
{
    if ops.len() == 0 {
        assert(m.transcript + deliveries(m, ops).flatten() =~= m.transcript);
    } else {
        let next = step(m, ops.first());
        let head = handed_out(m, ops.first());
        let tail = deliveries(next, ops.drop_first());
        lemma_step_keeps_order(m, ops.first());
        lemma_transcript_joins_deliveries(next, ops.drop_first());
        lemma_flatten_concat(head, tail);
        assert(run(m, ops).transcript =~= m.transcript + (head + tail).flatten());
    }
}

/// A stream never hands out more fragments than the budget it was asked for:
/// from the moment `stream` has succeeded, whatever is called and whatever the
/// engine reports.
pub proof fn lemma_stream_within_budget(m: SessionModel, max_tokens: nat, ops: Seq<Op>)
    requires
        m.wf(),
        m.stream_result(max_tokens) is Ok,
    ensures
        deliveries(m.after_stream(max_tokens), ops).len() <= max_tokens,
        run(m.after_stream(max_tokens), ops).delivered <= max_tokens,
{
    let armed = m.after_stream(max_tokens);
    lemma_step_keeps_order(m, Op::Stream { max_tokens });
    lemma_run_keeps_order(armed, ops);
    lemma_transcript_joins_deliveries(armed, ops);
}

/// Whether `ops` is the course of pulls in which the engine gives the
/// fragments of `script` one by one and then reports `last`.
pub open spec fn is_scripted(ops: Seq<Op>, script: Seq<Seq<char>>, last: PullEvent) -> bool {
    &&& ops.len() == script.len() + 1
    &&& forall|i: int|
        0 <= i < script.len() ==> (#[trigger] ops[i]) is Pull && ops[i]->event
            == PullEvent::Fragment(script[i])
    &&& ops.last() is Pull
    &&& ops.last()->event == last
}

/// What a stream hands out of a scripted engine. `room` being what is left of
/// the budget: a script shorter than `room` is handed out whole, and the
/// session ends as the engine's last report says, `Completed` at the end of
/// the stream and `Failed` at a failure. A longer script is cut at `room`
/// fragments, and the session is `Completed` by the budget.
pub proof fn lemma_scripted_stream(
    m: SessionModel,
    ops: Seq<Op>,
    script: Seq<Seq<char>>,
    last: PullEvent,
)
    requires
        m.wf(),
        m.expects_fragment(),
        is_scripted(ops, script, last),
        last is EndOfSequence || last is Fault,
    ensures
        script.len() < m.budget - m.delivered ==> {
            &&& deliveries(m, ops) == script
            &&& run(m, ops).state == if last is Fault {
                SessionState::Failed
            } else {
                SessionState::Completed
            }
        },
        script.len() >= m.budget - m.delivered ==> {
            &&& deliveries(m, ops) == script.take(m.budget - m.delivered)
            &&& run(m, ops).state == SessionState::Completed
        },
    decreases ops.len(),
{
    let room = m.budget - m.delivered;
    let first = ops.first();
    let next = step(m, first);
    let rest = ops.drop_first();
    if script.len() == 0 {
        assert(rest.len() == 0);
        assert(first == ops.last());
        assert(deliveries(next, rest) == Seq::<Seq<char>>::empty());
        assert(deliveries(m, ops) =~= script);
        assert(run(next, rest) == next);
    } else {
        assert(first == ops[0]);
        assert(first->event == PullEvent::Fragment(script[0]));
        assert(handed_out(m, first) == seq![script[0]]);
        if room <= 1 {
            lemma_completed_session_is_silent(next, rest);
            assert(deliveries(m, ops) =~= script.take(room));
        } else {
            let shorter = script.drop_first();
            assert(is_scripted(rest, shorter, last)) by {
                assert forall|i: int| 0 <= i < shorter.len() implies (#[trigger] rest[i]) is Pull
                    && rest[i]->event == PullEvent::Fragment(shorter[i]) by {
                    assert(rest[i] == ops[i + 1]);
                }
                assert(rest.last() == ops.last());
            }
            lemma_step_keeps_order(m, first);
            lemma_scripted_stream(next, rest, shorter, last);
            if script.len() < room {
                assert(deliveries(m, ops) =~= script);
            } else {
                assert(seq![script[0]] + shorter.take(room - 1) =~= script.take(room));
            }
        }
    }
}

/// Streaming loses nothing and adds nothing: where the engine's whole answer
/// fits the budget, the fragments handed out are the engine's fragments, and
/// joined in the order they were handed out they are the engine's full text,
/// which is also what the transcript has gained.
pub proof fn lemma_streaming_matches_full_text(
    m: SessionModel,
    ops: Seq<Op>,
    script: Seq<Seq<char>>,
)
    requires
        m.wf(),
        m.expects_fragment(),
        is_scripted(ops, script, PullEvent::EndOfSequence),
        script.len() <= m.budget - m.delivered,
    ensures
        deliveries(m, ops) == script,
        deliveries(m, ops).flatten() == script.flatten(),
        run(m, ops).transcript == m.transcript + script.flatten(),
        run(m, ops).state == SessionState::Completed,
{
    lemma_scripted_stream(m, ops, script, PullEvent::EndOfSequence);
    lemma_transcript_joins_deliveries(m, ops);
    assert(script.take(script.len() as int) =~= script);
}

} // verus!
