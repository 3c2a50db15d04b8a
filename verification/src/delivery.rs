//! What the consumer is sent does not depend on how the transport cut the
//! response body into chunks.

use vstd::prelude::*;
use vstd::utf8::*;
use crate::decoder::{feed_spec, scan};
use crate::engine::{
    Directive, EngineView, Outcome, Phase, SignalView, StreamEventView, on_chunk_spec,
    on_frame_spec, on_frames_spec, step_spec,
};
use crate::guarantees::run;
use crate::reassembly::{joined, joined_is_utf8, scan_split, well_formed};

verus! {

/// The signals with which a driver reports chunks, one after the other.
pub open spec fn chunk_signals(chunks: Seq<Seq<u8>>) -> Seq<SignalView> {
    Seq::new(chunks.len(), |i: int| SignalView::Chunk(chunks[i]))
}

/// A state with another decoder buffer.
pub open spec fn with_buffer(s: EngineView, buffer: Seq<u8>) -> EngineView {
    EngineView { buffer, ..s }
}

/// Interpreting frames neither reads nor, while the body is still read,
/// changes the decoder's buffer; and once the reading of the body has ended,
/// nothing of the buffer is left.
pub proof fn frames_ignore_buffer(s: EngineView, buffer: Seq<u8>, frames: Seq<Seq<char>>)
    requires
        s.phase == Phase::Streaming,
    ensures
        on_frames_spec(with_buffer(s, buffer), frames).events == on_frames_spec(s, frames).events,
        on_frames_spec(with_buffer(s, buffer), frames).next == on_frames_spec(s, frames).next,
        on_frames_spec(s, frames).next == Directive::Read ==> {
            &&& on_frames_spec(s, frames).state.phase == Phase::Streaming
            &&& on_frames_spec(s, frames).state.buffer == s.buffer
            &&& on_frames_spec(with_buffer(s, buffer), frames).state == with_buffer(
                on_frames_spec(s, frames).state,
                buffer,
            )
        },
        on_frames_spec(s, frames).next != Directive::Read ==> {
            &&& on_frames_spec(s, frames).state.phase != Phase::Streaming
            &&& on_frames_spec(with_buffer(s, buffer), frames).state == on_frames_spec(
                s,
                frames,
            ).state
        },
    decreases frames.len(),
{
    if frames.len() > 0 {
        let first = on_frame_spec(s, frames[0]);
        let other = on_frame_spec(with_buffer(s, buffer), frames[0]);
        assert(other.events == first.events && other.next == first.next);
        if first.next == Directive::Read {
            assert(other.state == with_buffer(first.state, buffer));
            frames_ignore_buffer(first.state, buffer, frames.drop_first());
        }
    }
}

/// Frames in two parts. Interpreting one sequence of frames after another is
/// interpreting them as one sequence, as long as the first does not end the
/// reading of the body; where it does, what follows is never looked at.
pub proof fn frames_compose(s: EngineView, front: Seq<Seq<char>>, back: Seq<Seq<char>>)
    requires
        s.phase == Phase::Streaming,
    ensures
        on_frames_spec(s, front + back) == ({
            let first = on_frames_spec(s, front);
            if first.next == Directive::Read {
                let rest = on_frames_spec(first.state, back);
                Outcome { state: rest.state, events: first.events + rest.events, next: rest.next }
            } else {
                first
            }
        }),
    decreases front.len(),
{
    let none = Seq::<StreamEventView>::empty();
    if front.len() == 0 {
        assert(front + back =~= back);
        assert(none + on_frames_spec(s, back).events =~= on_frames_spec(s, back).events);
    } else {
        let all = front + back;
        assert(all[0] == front[0]);
        assert(all.drop_first() =~= front.drop_first() + back);
        let head = on_frame_spec(s, front[0]);
        if head.next == Directive::Read {
            frames_compose(head.state, front.drop_first(), back);
            let mid = on_frames_spec(head.state, front.drop_first());
            if mid.next == Directive::Read {
                let rest = on_frames_spec(mid.state, back);
                assert(head.events + (mid.events + rest.events) =~= (head.events + mid.events)
                    + rest.events);
            }
        }
    }
}

/// Chunks that arrive while no body is read change nothing.
pub proof fn chunks_out_of_place_are_silent(s: EngineView, chunks: Seq<Seq<u8>>)
    requires
        s.phase != Phase::Streaming,
    ensures
        run(s, chunk_signals(chunks)) == (s, Seq::<StreamEventView>::empty()),
    decreases chunks.len(),
{
    if chunks.len() > 0 {
        let signals = chunk_signals(chunks);
        assert(signals[0] == SignalView::Chunk(chunks[0]));
        assert(signals.drop_first() =~= chunk_signals(chunks.drop_first()));
        chunks_out_of_place_are_silent(s, chunks.drop_first());
        assert(Seq::<StreamEventView>::empty() + Seq::<StreamEventView>::empty()
            =~= Seq::<StreamEventView>::empty());
    }
}

/// Delivery does not depend on chunking. While a body is read, reporting a
/// well-formed stream chunk by chunk, however it is cut into chunks of UTF-8,
/// delivers the events, in the same order, and leaves the state that
/// reporting it as one chunk does.
pub proof fn chunking_is_invisible(s: EngineView, chunks: Seq<Seq<u8>>)
    requires
        s.phase == Phase::Streaming,
        well_formed(s.buffer, joined(chunks)),
        forall|i: int| 0 <= i < chunks.len() ==> valid_utf8(#[trigger] chunks[i]),
    ensures
        run(s, chunk_signals(chunks)) == (
            on_chunk_spec(s, joined(chunks)).state,
            on_chunk_spec(s, joined(chunks)).events,
        ),
    decreases chunks.len(),
{
    if chunks.len() == 0 {
        assert(with_buffer(s, s.buffer) == s);
    } else {
        let rest = chunks.drop_first();
        let signals = chunk_signals(chunks);
        assert(signals[0] == SignalView::Chunk(chunks[0]));
        assert(signals.drop_first() =~= chunk_signals(rest));
        assert forall|i: int| 0 <= i < rest.len() implies valid_utf8(#[trigger] rest[i]) by {
            assert(rest[i] == chunks[i + 1]);
        }
        joined_is_utf8(chunks);
        joined_is_utf8(rest);
        scan_split(s.buffer, chunks[0], joined(rest));
        let head = scan(s.buffer, chunks[0]);
        let tail = scan(head.0, joined(rest));
        assert(feed_spec(s.buffer, chunks[0]) == head);
        assert(feed_spec(s.buffer, joined(chunks)) == (tail.0, head.1 + tail.1));
        let first = step_spec(s, signals[0]);
        assert(first == on_frames_spec(with_buffer(s, head.0), head.1));
        let whole = on_chunk_spec(s, joined(chunks));
        assert(whole == on_frames_spec(with_buffer(s, tail.0), head.1 + tail.1));
        frames_compose(with_buffer(s, tail.0), head.1, tail.1);
        frames_ignore_buffer(with_buffer(s, head.0), tail.0, head.1);
        assert(with_buffer(with_buffer(s, head.0), tail.0) == with_buffer(s, tail.0));
        if first.next == Directive::Read {
            chunking_is_invisible(first.state, rest);
            assert(feed_spec(first.state.buffer, joined(rest)) == tail);
            assert(with_buffer(with_buffer(first.state, tail.0), tail.0) == with_buffer(
                first.state,
                tail.0,
            ));
        } else {
            chunks_out_of_place_are_silent(first.state, rest);
            assert(first.events + Seq::<StreamEventView>::empty() =~= first.events);
        }
    }
}

} // verus!
