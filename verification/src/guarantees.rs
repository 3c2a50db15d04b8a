//! What holds of every run of the streaming request engine.

use vstd::prelude::*;
use crate::decoder::{done_text, feed_spec};
use crate::engine::{
    ApiErrorView, Directive, EngineView, Outcome, Phase, RetryCause, RetryPolicy, SignalView,
    StreamEventView, bounded, fail, initial, on_document_spec, on_frame_spec, on_frames_spec,
    on_status_spec, pending, recover, step_spec,
};
use crate::json::frame_document;

verus! {

/// Whether a phase is final.
pub open spec fn is_terminal(phase: Phase) -> bool {
    phase == Phase::Succeeded || phase == Phase::Failed
}

/// How one answer relates to the state before it: the policy stays, the
/// counter goes up by one at most and stays within the bound.
pub open spec fn advances(s: EngineView, o: Outcome) -> bool {
    &&& o.state.policy == s.policy
    &&& s.retries <= o.state.retries <= s.retries + 1
    &&& bounded(o.state)
    &&& o.state.retries > s.retries ==> o.next == Directive::Request
}

/// The shape of the events of one answer: `Done` comes last and only when the
/// operation ends, a fatal error is followed by `Done` at once, and the
/// directive is the one that belongs to the phase reached.
pub open spec fn closes_properly(o: Outcome) -> bool {
    &&& o.next == pending(o.state.phase)
    &&& forall|i: int|
        0 <= i < o.events.len() && (#[trigger] o.events[i]) is Done ==> i == o.events.len() - 1
            && is_terminal(o.state.phase)
    &&& forall|i: int|
        0 <= i < o.events.len() && (#[trigger] o.events[i]) is FatalError ==> i + 2
            == o.events.len() && o.events[i + 1] is Done
}

/// The first answer of a state that is not final ends the operation exactly
/// where its last event is `Done`.
pub open spec fn ends_with_done(s: EngineView, o: Outcome) -> bool {
    !is_terminal(s.phase) && is_terminal(o.state.phase) ==> o.events.len() > 0
        && o.events.last() is Done
}

/// A send operation starts within the bound, with the first request to be
/// issued.
pub proof fn initial_is_bounded(policy: RetryPolicy)
    ensures
        bounded(initial(policy)),
        pending(initial(policy).phase) == Directive::Request,
{
}

proof fn frames_are_sound(s: EngineView, frames: Seq<Seq<char>>)
    requires
        bounded(s),
        s.phase == Phase::Streaming,
    ensures
        advances(s, on_frames_spec(s, frames)),
        closes_properly(on_frames_spec(s, frames)),
        ends_with_done(s, on_frames_spec(s, frames)),
    decreases frames.len(),
{
    if frames.len() > 0 {
        let first = on_frame_spec(s, frames[0]);
        if first.next == Directive::Read {
            let rest = on_frames_spec(first.state, frames.drop_first());
            frames_are_sound(first.state, frames.drop_first());
            let o = on_frames_spec(s, frames);
            assert(o.events =~= first.events + rest.events);
            assert forall|i: int| 0 <= i < first.events.len() implies !(first.events[i] is Done)
                && !(first.events[i] is FatalError) by {}
            assert forall|i: int| 0 <= i < o.events.len() && (#[trigger] o.events[i]) is Done
                implies i == o.events.len() - 1 && is_terminal(o.state.phase) by {
                if i >= first.events.len() {
                    assert(o.events[i] == rest.events[i - first.events.len()]);
                }
            }
            assert forall|i: int|
                0 <= i < o.events.len() && (#[trigger] o.events[i]) is FatalError implies i + 2
                == o.events.len() && o.events[i + 1] is Done by {
                if i >= first.events.len() {
                    assert(o.events[i] == rest.events[i - first.events.len()]);
                    assert(o.events[i + 1] == rest.events[i + 1 - first.events.len()]);
                }
            }
            if is_terminal(o.state.phase) {
                assert(o.events.last() == rest.events.last());
            }
        }
    }
}

/// Retry bound as an invariant. Whatever the driver reports, the policy
/// stays, the retry counter never passes the policy's bound and grows only
/// together with the directive to issue the request again.
pub proof fn step_keeps_bound(s: EngineView, signal: SignalView)
    requires
        bounded(s),
    ensures
        advances(s, step_spec(s, signal)),
{
    match signal {
        SignalView::Chunk(bytes) => {
            if s.phase == Phase::Streaming {
                let fed = feed_spec(s.buffer, bytes);
                frames_are_sound(EngineView { buffer: fed.0, ..s }, fed.1);
            }
        },
        _ => {},
    }
}

/// Event order. In every answer `Done` is the last event and is delivered
/// exactly when the operation ends; a fatal error is followed by `Done` at
/// once.
pub proof fn events_close_properly(s: EngineView, signal: SignalView)
    requires
        bounded(s),
    ensures
        closes_properly(step_spec(s, signal)),
        ends_with_done(s, step_spec(s, signal)),
{
    match signal {
        SignalView::Chunk(bytes) => {
            if s.phase == Phase::Streaming {
                let fed = feed_spec(s.buffer, bytes);
                frames_are_sound(EngineView { buffer: fed.0, ..s }, fed.1);
            }
        },
        _ => {},
    }
}

/// No events after the end. Once the operation has succeeded or failed, no
/// signal changes the state or yields an event, and the directive is to stop.
pub proof fn terminal_is_silent(s: EngineView, signal: SignalView)
    requires
        is_terminal(s.phase),
    ensures
        step_spec(s, signal).state == s,
        step_spec(s, signal).events.len() == 0,
        step_spec(s, signal).next == Directive::Stop,
{
}

/// The state that a sequence of signals leaves, and all events delivered on
/// the way, in order.
pub open spec fn run(s: EngineView, signals: Seq<SignalView>) -> (EngineView, Seq<StreamEventView>)
    decreases signals.len(),
{
    if signals.len() == 0 {
        (s, Seq::empty())
    } else {
        let first = step_spec(s, signals[0]);
        let rest = run(first.state, signals.drop_first());
        (rest.0, first.events + rest.1)
    }
}

/// Whatever follows the end of an operation delivers nothing.
pub proof fn run_after_end_is_silent(s: EngineView, signals: Seq<SignalView>)
    requires
        is_terminal(s.phase),
    ensures
        run(s, signals) == (s, Seq::<StreamEventView>::empty()),
    decreases signals.len(),
{
    if signals.len() > 0 {
        terminal_is_silent(s, signals[0]);
        run_after_end_is_silent(s, signals.drop_first());
        assert(step_spec(s, signals[0]).events =~= Seq::empty());
        assert(Seq::<StreamEventView>::empty() + Seq::<StreamEventView>::empty()
            =~= Seq::<StreamEventView>::empty());
    }
}

/// Strict event order over a whole operation. Whatever the driver reports
/// and for however long, the retry counter stays within the policy's bound,
/// at most one `Done` is delivered and nothing after it, every fatal error
/// is followed by `Done` at once, and the operation has ended exactly when
/// the last event delivered is `Done`.
pub proof fn run_closes_once(s: EngineView, signals: Seq<SignalView>)
    requires
        bounded(s),
        !is_terminal(s.phase),
    ensures
        bounded(run(s, signals).0),
        run(s, signals).0.policy == s.policy,
        forall|i: int|
            0 <= i < run(s, signals).1.len() && (#[trigger] run(s, signals).1[i]) is Done ==> i
                == run(s, signals).1.len() - 1,
        forall|i: int|
            0 <= i < run(s, signals).1.len() && (#[trigger] run(s, signals).1[i]) is FatalError
                ==> i + 2 == run(s, signals).1.len() && run(s, signals).1[i + 1] is Done,
        is_terminal(run(s, signals).0.phase) <==> run(s, signals).1.len() > 0 && run(
            s,
            signals,
        ).1.last() is Done,
    decreases signals.len(),
{
    if signals.len() > 0 {
        let first = step_spec(s, signals[0]);
        let rest = run(first.state, signals.drop_first());
        let all = run(s, signals).1;
        step_keeps_bound(s, signals[0]);
        events_close_properly(s, signals[0]);
        assert(all =~= first.events + rest.1);
        if is_terminal(first.state.phase) {
            run_after_end_is_silent(first.state, signals.drop_first());
            assert(all =~= first.events);
        } else {
            run_closes_once(first.state, signals.drop_first());
            assert forall|i: int| 0 <= i < first.events.len() implies !(first.events[i] is Done)
                && !(first.events[i] is FatalError) by {}
            assert forall|i: int| 0 <= i < all.len() && (#[trigger] all[i]) is Done implies i
                == all.len() - 1 by {
                if i >= first.events.len() {
                    assert(all[i] == rest.1[i - first.events.len()]);
                }
            }
            assert forall|i: int| 0 <= i < all.len() && (#[trigger] all[i]) is FatalError implies i
                + 2 == all.len() && all[i + 1] is Done by {
                if i >= first.events.len() {
                    assert(all[i] == rest.1[i - first.events.len()]);
                    assert(all[i + 1] == rest.1[i + 1 - first.events.len()]);
                }
            }
            if rest.1.len() > 0 {
                assert(all.last() == rest.1.last());
            } else {
                if all.len() > 0 {
                    assert(all.last() == first.events.last());
                }
            }
        }
    }
}

/// No retry on hard errors. A status that is neither success nor 429 ends
/// the operation with that status at once, whatever the policy: no retry is
/// counted and no request follows.
pub proof fn hard_status_fails_at_once(s: EngineView, code: u16)
    requires
        s.phase == Phase::Attempting,
        !(200 <= code < 300),
        code != 429,
    ensures
        on_status_spec(s, code).events == seq![
            StreamEventView::FatalError(ApiErrorView::HttpError(code)),
            StreamEventView::Done,
        ],
        on_status_spec(s, code).next == Directive::Stop,
        on_status_spec(s, code).state.phase == Phase::Failed,
        on_status_spec(s, code).state.retries == s.retries,
{
}

/// The state after `k` responses with status 429 in a row.
pub open spec fn after_rate_limits(s: EngineView, k: nat) -> EngineView
    decreases k,
{
    if k == 0 {
        s
    } else {
        on_status_spec(after_rate_limits(s, (k - 1) as nat), 429).state
    }
}

/// Retry bound. With retries enabled and a bound of `n`, an operation whose
/// every request is answered with 429 is asked to repeat the request after
/// each of the first `n` responses, and fails with the rate-limit error on
/// response `n + 1`: `n + 1` requests in all.
pub proof fn rate_limit_bound(policy: RetryPolicy, k: nat)
    requires
        policy.enabled,
        0 <= policy.max_attempts,
        k <= policy.max_attempts,
    ensures
        after_rate_limits(initial(policy), k) == (EngineView {
            retries: k as i32,
            ..initial(policy)
        }),
        k < policy.max_attempts ==> on_status_spec(after_rate_limits(initial(policy), k), 429)
            .next == Directive::Request && on_status_spec(
            after_rate_limits(initial(policy), k),
            429,
        ).events == seq![StreamEventView::Retrying(RetryCause::RateLimit, (k + 1) as i32)],
        k == policy.max_attempts ==> on_status_spec(after_rate_limits(initial(policy), k), 429)
            == fail(after_rate_limits(initial(policy), k), ApiErrorView::TooManyRequests),
    decreases k,
{
    if k > 0 {
        rate_limit_bound(policy, (k - 1) as nat);
    }
}

/// A restart starts afresh. Where a recoverable failure is answered by a
/// retry, the next attempt begins with an empty decoder and an empty reply,
/// so that nothing of the abandoned attempt reaches a later snapshot.
pub proof fn restart_starts_afresh(s: EngineView, cause: RetryCause, error: ApiErrorView)
    requires
        s.policy.allows(s.retries),
    ensures
        recover(s, cause, error).next == Directive::Request,
        recover(s, cause, error).state.phase == Phase::Attempting,
        recover(s, cause, error).state.retries == s.retries + 1,
        recover(s, cause, error).state.buffer == Seq::<u8>::empty(),
        recover(s, cause, error).state.message == Seq::<char>::empty(),
        recover(s, cause, error).events == seq![
            StreamEventView::Retrying(cause, (s.retries + 1) as i32),
        ],
{
}

/// Without retries the first recoverable failure is final.
pub proof fn no_retry_when_disabled(s: EngineView, cause: RetryCause, error: ApiErrorView)
    requires
        !s.policy.enabled,
    ensures
        recover(s, cause, error) == fail(s, error),
{
}

/// Whether a frame carries a content delta and nothing else of note: it is
/// not the terminator, and its document has no error object.
pub open spec fn is_content_frame(frame: Seq<char>) -> bool {
    &&& frame != done_text()
    &&& frame_document(frame) is Some
    &&& frame_document(frame)->Some_0.error is None
    &&& frame_document(frame)->Some_0.content is Some
}

/// The content delta of a content frame.
pub open spec fn delta_of(frame: Seq<char>) -> Seq<char> {
    frame_document(frame)->Some_0.content->Some_0
}

/// The deltas of frames, one after the other.
pub open spec fn joined_deltas(frames: Seq<Seq<char>>) -> Seq<char>
    decreases frames.len(),
{
    if frames.len() == 0 {
        Seq::empty()
    } else {
        delta_of(frames[0]) + joined_deltas(frames.drop_first())
    }
}

/// Snapshots. Content frames yield one event each; the event of a frame
/// carries the whole reply up to and including that frame, which is the
/// reply before followed by the deltas so far, each once; and the reply
/// assembled in the end is the text of the last event.
pub proof fn snapshots_accumulate(s: EngineView, frames: Seq<Seq<char>>)
    requires
        s.phase == Phase::Streaming,
        forall|i: int| 0 <= i < frames.len() ==> is_content_frame(#[trigger] frames[i]),
    ensures
        on_frames_spec(s, frames).next == Directive::Read,
        on_frames_spec(s, frames).state == (EngineView {
            message: s.message + joined_deltas(frames),
            ..s
        }),
        on_frames_spec(s, frames).events.len() == frames.len(),
        forall|i: int|
            0 <= i < frames.len() ==> (#[trigger] on_frames_spec(s, frames).events[i])
                == StreamEventView::ContentUpdate(
                s.message + joined_deltas(frames.subrange(0, i + 1)),
            ),
    decreases frames.len(),
{
    if frames.len() == 0 {
        assert(s.message + joined_deltas(frames) =~= s.message);
    } else {
        let first = on_frame_spec(s, frames[0]);
        let rest_frames = frames.drop_first();
        assert(is_content_frame(frames[0]));
        let d = delta_of(frames[0]);
        assert(first == on_document_spec(s, frame_document(frames[0])->Some_0));
        assert forall|i: int| 0 <= i < rest_frames.len() implies is_content_frame(
            #[trigger] rest_frames[i],
        ) by {
            assert(rest_frames[i] == frames[i + 1]);
        }
        snapshots_accumulate(first.state, rest_frames);
        let rest = on_frames_spec(first.state, rest_frames);
        let o = on_frames_spec(s, frames);
        assert(o.events =~= first.events + rest.events);
        assert((s.message + d) + joined_deltas(rest_frames) =~= s.message + joined_deltas(
            frames,
        ));
        assert forall|i: int| 0 <= i < frames.len() implies (#[trigger] o.events[i])
            == StreamEventView::ContentUpdate(
            s.message + joined_deltas(frames.subrange(0, i + 1)),
        ) by {
            let prefix = frames.subrange(0, i + 1);
            assert(prefix[0] == frames[0]);
            assert(prefix.drop_first() =~= rest_frames.subrange(0, i));
            if i == 0 {
                assert(joined_deltas(prefix.drop_first()) =~= Seq::<char>::empty());
                assert(s.message + joined_deltas(prefix) =~= s.message + d);
            } else {
                assert(o.events[i] == rest.events[i - 1]);
                assert((s.message + d) + joined_deltas(rest_frames.subrange(0, i))
                    =~= s.message + joined_deltas(prefix));
            }
        }
    }
}

} // verus!
