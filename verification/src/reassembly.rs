//! Frame reassembly: how a stream is cut into chunks does not change the
//! frames that the decoder finds in it.

use vstd::prelude::*;
use vstd::utf8::*;
use crate::decoder::{
    absorb, done_text, feed_spec, is_first_marker, is_line_end, line_end, line_end_is,
    marker_at, payload_of, ready_frame, scan, trim_cr,
};
use crate::json::json_document;

verus! {

/// Feeds chunks one after another: the buffer left and all frames found.
pub open spec fn feed_all(buf: Seq<u8>, chunks: Seq<Seq<u8>>) -> (Seq<u8>, Seq<Seq<char>>)
    decreases chunks.len(),
{
    if chunks.len() == 0 {
        (buf, Seq::empty())
    } else {
        let head = feed_spec(buf, chunks[0]);
        let tail = feed_all(head.0, chunks.drop_first());
        (tail.0, head.1 + tail.1)
    }
}

/// The stream that a sequence of chunks carries.
pub open spec fn joined(chunks: Seq<Seq<u8>>) -> Seq<u8>
    decreases chunks.len(),
{
    if chunks.len() == 0 {
        Seq::empty()
    } else {
        chunks[0] + joined(chunks.drop_first())
    }
}

/// Whether a line does not end in a carriage return.
pub open spec fn ends_bare(line: Seq<u8>) -> bool {
    line.len() > 0 ==> line.last() != 13
}

/// Whether a line, added to a buffer, completes a frame at its end at the
/// earliest: no shorter non-empty part of it does.
pub open spec fn quiet_line(buf: Seq<u8>, line: Seq<u8>) -> bool {
    forall|j: int| 0 < j < line.len() ==> (#[trigger] ready_frame(buf + line.subrange(0, j))) is None
}

/// A stream is well formed for a buffer where each of its lines ends in a
/// bare line feed, with no carriage return before it, and none of its lines
/// completes a frame before its end. What follows the last line feed counts
/// as a line that may end in anything.
pub open spec fn well_formed(buf: Seq<u8>, s: Seq<u8>) -> bool
    decreases s.len(),
{
    if s.len() == 0 {
        true
    } else {
        let n = line_end(s);
        if 0 <= n < s.len() {
            let line = s.subrange(0, n);
            &&& ends_bare(line)
            &&& quiet_line(buf, line)
            &&& well_formed(absorb(buf, line).0, s.subrange(n + 1, s.len() as int))
        } else {
            quiet_line(buf, s)
        }
    }
}

/// Whether a text is a complete frame: the terminator or a JSON document.
pub open spec fn is_complete(frame: Seq<char>) -> bool {
    frame == done_text() || json_document(frame) is Some
}

/// Every byte string has a first line.
pub proof fn line_end_exists(s: Seq<u8>)
    ensures
        is_line_end(s, line_end(s)),
    decreases s.len(),
{
    if s.len() == 0 {
        assert(is_line_end(s, 0));
    } else if s[0] == 10 {
        assert(is_line_end(s, 0));
    } else {
        let rest = s.drop_first();
        line_end_exists(rest);
        let n = line_end(rest);
        assert forall|j: int| 0 <= j < n + 1 implies s[j] != 10 by {
            if j > 0 {
                assert(s[j] == rest[j - 1]);
            }
        }
        assert(is_line_end(s, n + 1));
    }
}

/// An empty buffer holds no frame.
pub proof fn empty_is_not_ready()
    ensures
        ready_frame(Seq::<u8>::empty()) is None,
{
    assert forall|i: int| !is_first_marker(Seq::<u8>::empty(), i) by {}
}

/// A line that does not end in a carriage return is left as it is.
proof fn trim_keeps(line: Seq<u8>)
    requires
        ends_bare(line),
    ensures
        trim_cr(line) == line,
{
}

/// Cutting a well-formed stream in two changes neither the frames found nor
/// the buffer left, and what follows the cut is well formed for the buffer
/// that the first part leaves.
pub proof fn scan_split(buf: Seq<u8>, a: Seq<u8>, b: Seq<u8>)
    requires
        well_formed(buf, a + b),
    ensures
        scan(buf, a + b) == ({
            let first = scan(buf, a);
            let second = scan(first.0, b);
            (second.0, first.1 + second.1)
        }),
        well_formed(scan(buf, a).0, b),
    decreases a.len(),
{
    let s = a + b;
    if a.len() > 0 {
        line_end_exists(a);
        let n = line_end(a);
        if n < a.len() {
            line_end_is(s, n);
            let line = a.subrange(0, n);
            let rest = a.subrange(n + 1, a.len() as int);
            assert(s.subrange(0, n) =~= line);
            assert(s.subrange(n + 1, s.len() as int) =~= rest + b);
            trim_keeps(line);
            scan_split(absorb(buf, line).0, rest, b);
        } else {
            if b.len() > 0 {
                line_end_exists(b);
                let m = line_end(b);
                assert(is_line_end(s, a.len() + m)) by {
                    assert forall|j: int| 0 <= j < a.len() + m implies s[j] != 10 by {}
                }
                line_end_is(s, a.len() + m);
                if m < b.len() {
                    let line = s.subrange(0, a.len() + m);
                    let piece = b.subrange(0, m);
                    let rest = b.subrange(m + 1, b.len() as int);
                    assert(s.subrange(a.len() + m + 1, s.len() as int) =~= rest);
                    trim_keeps(line);
                    trim_keeps(piece);
                    if m > 0 {
                        assert(line.subrange(0, a.len() as int) =~= a);
                        assert((buf + a) + piece =~= buf + line);
                        assert(quiet_line(buf + a, piece)) by {
                            assert forall|j: int| 0 < j < piece.len() implies (
                            #[trigger] ready_frame((buf + a) + piece.subrange(0, j))) is None by {
                                assert((buf + a) + piece.subrange(0, j) =~= buf + line.subrange(
                                    0,
                                    a.len() + j,
                                ));
                            }
                        }
                    } else {
                        assert(line =~= a);
                        empty_is_not_ready();
                    }
                } else {
                    assert(s.subrange(0, a.len() as int) =~= a);
                    assert((buf + a) + b =~= buf + s);
                    assert(quiet_line(buf + a, b)) by {
                        assert forall|j: int| 0 < j < b.len() implies (#[trigger] ready_frame(
                            (buf + a) + b.subrange(0, j),
                        )) is None by {
                            assert((buf + a) + b.subrange(0, j) =~= buf + s.subrange(
                                0,
                                a.len() + j,
                            ));
                        }
                    }
                }
            }
        }
    }
}

/// Every frame that a scan hands out is the terminator or a complete JSON
/// document.
pub proof fn frames_are_complete(buf: Seq<u8>, s: Seq<u8>)
    ensures
        forall|i: int|
            0 <= i < scan(buf, s).1.len() ==> is_complete(#[trigger] scan(buf, s).1[i]),
    decreases s.len(),
{
    if s.len() > 0 {
        let n = line_end(s);
        if 0 <= n < s.len() {
            let head = absorb(buf, trim_cr(s.subrange(0, n)));
            let rest = s.subrange(n + 1, s.len() as int);
            frames_are_complete(head.0, rest);
            let tail = scan(head.0, rest);
            assert forall|i: int| 0 <= i < scan(buf, s).1.len() implies is_complete(
                #[trigger] scan(buf, s).1[i],
            ) by {
                if i >= head.1.len() {
                    assert(scan(buf, s).1[i] == tail.1[i - head.1.len()]);
                }
            }
        }
    }
}

/// The stream that chunks of UTF-8 carry is UTF-8.
pub proof fn joined_is_utf8(chunks: Seq<Seq<u8>>)
    requires
        forall|i: int| 0 <= i < chunks.len() ==> valid_utf8(#[trigger] chunks[i]),
    ensures
        valid_utf8(joined(chunks)),
    decreases chunks.len(),
{
    if chunks.len() > 0 {
        let rest = chunks.drop_first();
        assert forall|i: int| 0 <= i < rest.len() implies valid_utf8(#[trigger] rest[i]) by {
            assert(rest[i] == chunks[i + 1]);
        }
        joined_is_utf8(rest);
        valid_utf8_concat(chunks[0], joined(rest));
    }
}

/// Frame reassembly. Feeding a well-formed stream chunk by chunk, however it
/// is cut into chunks of UTF-8, finds the frames that feeding it as one chunk
/// finds, in the same order, and leaves the same bytes held back.
pub proof fn reassembly(buf: Seq<u8>, chunks: Seq<Seq<u8>>)
    requires
        well_formed(buf, joined(chunks)),
        forall|i: int| 0 <= i < chunks.len() ==> valid_utf8(#[trigger] chunks[i]),
    ensures
        feed_all(buf, chunks) == feed_spec(buf, joined(chunks)),
    decreases chunks.len(),
{
    if chunks.len() > 0 {
        let rest = chunks.drop_first();
        assert forall|i: int| 0 <= i < rest.len() implies valid_utf8(#[trigger] rest[i]) by {
            assert(rest[i] == chunks[i + 1]);
        }
        joined_is_utf8(chunks);
        joined_is_utf8(rest);
        scan_split(buf, chunks[0], joined(rest));
        reassembly(scan(buf, chunks[0]).0, rest);
    }
}

/// Two ways of cutting one well-formed stream into chunks of UTF-8 give the
/// same frames and leave the same bytes held back.
pub proof fn reassembly_of_two_partitions(
    buf: Seq<u8>,
    left: Seq<Seq<u8>>,
    right: Seq<Seq<u8>>,
)
    requires
        joined(left) == joined(right),
        well_formed(buf, joined(left)),
        forall|i: int| 0 <= i < left.len() ==> valid_utf8(#[trigger] left[i]),
        forall|i: int| 0 <= i < right.len() ==> valid_utf8(#[trigger] right[i]),
    ensures
        feed_all(buf, left) == feed_all(buf, right),
{
    reassembly(buf, left);
    reassembly(buf, right);
}

} // verus!
