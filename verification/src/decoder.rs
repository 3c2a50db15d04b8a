//! Incremental decoder for server-sent-event data frames.
//!
//! The transport delivers a byte stream in chunks that respect neither line
//! nor frame boundaries. The decoder keeps the bytes that do not yet form a
//! complete frame and hands out each frame as soon as it is complete.

use vstd::prelude::*;
use vstd::utf8::*;
use crate::json::{is_document, json_document};
use crate::text::same_text;

verus! {

/// Whether the frame marker, the bytes of `data: `, stands at position `i`.
pub open spec fn marker_at(buf: Seq<u8>, i: int) -> bool {
    &&& 0 <= i
    &&& i + 6 <= buf.len()
    &&& buf[i] == 100
    &&& buf[i + 1] == 97
    &&& buf[i + 2] == 116
    &&& buf[i + 3] == 97
    &&& buf[i + 4] == 58
    &&& buf[i + 5] == 32
}

/// Whether `i` is the position of the first frame marker.
pub open spec fn is_first_marker(buf: Seq<u8>, i: int) -> bool {
    marker_at(buf, i) && forall|j: int| 0 <= j < i ==> !marker_at(buf, j)
}

/// The bytes that follow the first frame marker, if there is a marker.
pub open spec fn payload_of(buf: Seq<u8>) -> Option<Seq<u8>> {
    if exists|i: int| is_first_marker(buf, i) {
        let i = choose|i: int| is_first_marker(buf, i);
        Some(buf.subrange(i + 6, buf.len() as int))
    } else {
        None
    }
}

/// The payload that ends a stream.
pub open spec fn done_text() -> Seq<char> {
    "[DONE]"@
}

/// The frame that a payload forms: its text, where the payload is UTF-8 and
/// either the terminator or a complete JSON document.
pub open spec fn frame_text(payload: Seq<u8>) -> Option<Seq<char>> {
    if valid_utf8(payload) && (decode_utf8(payload) == done_text() || json_document(
        decode_utf8(payload),
    ) is Some) {
        Some(decode_utf8(payload))
    } else {
        None
    }
}

/// The complete frame that a buffer holds, if it holds one.
pub open spec fn ready_frame(buf: Seq<u8>) -> Option<Seq<char>> {
    match payload_of(buf) {
        Some(payload) => frame_text(payload),
        None => None,
    }
}

/// Appends one piece of a line to the buffer. A buffer that then holds a
/// complete frame gives the frame and is emptied; any other buffer is kept.
pub open spec fn absorb(buf: Seq<u8>, piece: Seq<u8>) -> (Seq<u8>, Seq<Seq<char>>) {
    match ready_frame(buf + piece) {
        Some(text) => (Seq::empty(), seq![text]),
        None => (buf + piece, Seq::empty()),
    }
}

/// Whether `n` is where the first line of `s` ends: the position of the first
/// line feed, or the length of `s` where it holds none.
pub open spec fn is_line_end(s: Seq<u8>, n: int) -> bool {
    &&& 0 <= n <= s.len()
    &&& n < s.len() ==> s[n] == 10
    &&& forall|j: int| 0 <= j < n ==> s[j] != 10
}

/// Where the first line of `s` ends.
pub open spec fn line_end(s: Seq<u8>) -> int {
    choose|n: int| is_line_end(s, n)
}

/// A line without the carriage return that may precede its line feed.
pub open spec fn trim_cr(line: Seq<u8>) -> Seq<u8> {
    if line.len() > 0 && line.last() == 13 {
        line.drop_last()
    } else {
        line
    }
}

/// Feeds text to a buffer line by line: the buffer left and the frames found,
/// in order. A line ends at a line feed, which is dropped together with a
/// carriage return before it; what follows the last line feed is a line too.
pub open spec fn scan(buf: Seq<u8>, s: Seq<u8>) -> (Seq<u8>, Seq<Seq<char>>)
    decreases s.len(),
{
    if s.len() == 0 {
        (buf, Seq::empty())
    } else {
        let n = line_end(s);
        if 0 <= n < s.len() {
            let head = absorb(buf, trim_cr(s.subrange(0, n)));
            let tail = scan(head.0, s.subrange(n + 1, s.len() as int));
            (tail.0, head.1 + tail.1)
        } else {
            absorb(buf, s)
        }
    }
}

/// What feeding one chunk does: a chunk that is not UTF-8 is dropped, any
/// other is scanned line by line.
pub open spec fn feed_spec(buf: Seq<u8>, chunk: Seq<u8>) -> (Seq<u8>, Seq<Seq<char>>) {
    if valid_utf8(chunk) {
        scan(buf, chunk)
    } else {
        (buf, Seq::empty())
    }
}

/// The texts of a sequence of strings.
pub open spec fn texts(frames: Seq<String>) -> Seq<Seq<char>> {
    Seq::new(frames.len(), |i: int| frames[i]@)
}

/// The first line of `s` ends at `n` and nowhere else.
pub proof fn line_end_is(s: Seq<u8>, n: int)
    requires
        is_line_end(s, n),
    ensures
        line_end(s) == n,
{
    let m = line_end(s);
    assert(is_line_end(s, m));
    if m < n {
        assert(s[m] == 10);
    }
    if n < m {
        assert(s[n] == 10);
    }
}

/// Calls `std::str::from_utf8`: the text that the bytes encode, `None` where
/// they are not valid UTF-8.
#[verifier::external_body]
fn utf8_text(bytes: &[u8]) -> (r: Option<&str>)
    ensures
        r is Some <==> valid_utf8(bytes@),
        r is Some ==> r->Some_0@ == decode_utf8(bytes@),
{
    std::str::from_utf8(bytes).ok()
}

fn append_bytes(buf: &mut Vec<u8>, piece: &[u8])
    ensures
        final(buf)@ == old(buf)@ + piece@,
{
    let n: usize = piece.len();
    let mut i: usize = 0;
    while i < n
        invariant
            i <= n,
            n == piece@.len(),
            buf@ == old(buf)@ + piece@.subrange(0, i as int),
        decreases n - i,
    {
        buf.push(piece[i]);
        i += 1;
    }
}

fn find_marker(buf: &[u8]) -> (r: Option<usize>)
    ensures
        r is Some ==> is_first_marker(buf@, r->Some_0 as int),
        r is None ==> forall|i: int| !marker_at(buf@, i),
{
    let n: usize = buf.len();
    if n < 6 {
        return None;
    }
    let mut i: usize = 0;
    while i <= n - 6
        invariant
            n == buf@.len(),
            n >= 6,
            forall|j: int| 0 <= j < i ==> !marker_at(buf@, j),
        decreases n - i,
    {
        if buf[i] == 100 && buf[i + 1] == 97 && buf[i + 2] == 116 && buf[i + 3] == 97 && buf[i
            + 4] == 58 && buf[i + 5] == 32 {
            return Some(i);
        }
        i += 1;
    }
    None
}

fn find_line_end(s: &[u8], from: usize) -> (r: usize)
    requires
        from <= s@.len(),
    ensures
        from <= r <= s@.len(),
        is_line_end(s@.subrange(from as int, s@.len() as int), r - from),
{
    let n: usize = s.len();
    let mut i: usize = from;
    while i < n && s[i] != 10
        invariant
            from <= i <= n,
            n == s@.len(),
            forall|j: int| from <= j < i ==> s@[j] != 10,
        decreases n - i,
    {
        i += 1;
    }
    i
}

/// The state of one decoder: the bytes received that no frame has used yet.
pub struct Decoder {
    buffer: Vec<u8>,
}

impl View for Decoder {
    type V = Seq<u8>;

    closed spec fn view(&self) -> Seq<u8> {
        self.buffer@
    }
}

impl Decoder {
    /// A decoder that has received nothing.
    pub fn new() -> (r: Decoder)
        ensures
            r@ == Seq::<u8>::empty(),
    {
        Decoder { buffer: Vec::new() }
    }

    /// The number of bytes held back.
    pub fn pending(&self) -> (r: usize)
        ensures
            r == self@.len(),
    {
        self.buffer.len()
    }

    /// Forgets the bytes held back.
    pub fn reset(&mut self)
        ensures
            final(self)@ == Seq::<u8>::empty(),
    {
        self.buffer.clear();
    }

    /// Appends one piece of a line and takes out the frame that this
    /// completes, if any.
    fn take_piece(&mut self, piece: &[u8], frames: &mut Vec<String>)
        ensures
            final(self)@ == absorb(old(self)@, piece@).0,
            texts(final(frames)@) == texts(old(frames)@) + absorb(old(self)@, piece@).1,
    {
        append_bytes(&mut self.buffer, piece);
        match find_marker(self.buffer.as_slice()) {
            Some(i) => {
                let n: usize = self.buffer.len();
                let payload = vstd::slice::slice_subrange(self.buffer.as_slice(), i + 6, n);
                match utf8_text(payload) {
                    Some(text) => {
                        if same_text(text, "[DONE]") || is_document(text) {
                            frames.push(String::from_str(text));
                            self.buffer.clear();
                        }
                    },
                    None => {},
                }
            },
            None => {},
        }
    }

    /// Feeds one chunk of the byte stream and returns the frames that it
    /// completes, in order. What does not complete a frame is held back for
    /// the next chunk. A chunk that is not valid UTF-8 is dropped as a whole.
    pub fn feed(&mut self, chunk: &[u8]) -> (frames: Vec<String>)
        ensures
            (final(self)@, texts(frames@)) == feed_spec(old(self)@, chunk@),
    {
        let mut frames: Vec<String> = Vec::new();
        if utf8_text(chunk).is_none() {
            return frames;
        }
        let len: usize = chunk.len();
        let mut pos: usize = 0;
        assert(chunk@.subrange(0, len as int) =~= chunk@);
        while pos < len
            invariant
                pos <= len,
                len == chunk@.len(),
                scan(old(self)@, chunk@) == ({
                    let rest = scan(self@, chunk@.subrange(pos as int, len as int));
                    (rest.0, texts(frames@) + rest.1)
                }),
            decreases len - pos,
        {
            let ghost rest = chunk@.subrange(pos as int, len as int);
            let end: usize = find_line_end(chunk, pos);
            proof {
                line_end_is(rest, end - pos);
            }
            if end < len {
                let mut stop: usize = end;
                if stop > pos && chunk[stop - 1] == 13 {
                    stop = stop - 1;
                }
                let line = vstd::slice::slice_subrange(chunk, pos, stop);
                assert(line@ =~= trim_cr(rest.subrange(0, end - pos)));
                self.take_piece(line, &mut frames);
                assert(rest.subrange(end - pos + 1, rest.len() as int) =~= chunk@.subrange(
                    end + 1,
                    len as int,
                ));
                pos = end + 1;
            } else {
                let line = vstd::slice::slice_subrange(chunk, pos, len);
                self.take_piece(line, &mut frames);
                pos = len;
            }
        }
        frames
    }
}

} // verus!
