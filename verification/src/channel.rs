//! The consumer's side of the event channel: telling apart the strings that
//! arrive on it.
//!
//! Besides content snapshots and the end-of-stream sentinel the channel
//! carries out-of-band signals of the application, each marked by a reserved
//! prefix, and the line of a fatal error, known by its opening words. A
//! snapshot that begins like one of these is read as what it looks like: the
//! strings carry no other tag.

use vstd::prelude::*;
use crate::engine::{ApiErrorView, StreamEventView};
use crate::text::{has_prefix, same_text, starts_with};
use crate::wire::{done_sentinel, encoded};

verus! {

/// What a string on the channel means.
#[derive(Debug, Clone, PartialEq, Eq)]
pub enum ChannelMessage {
    /// Remove a retry notice that is still on display.
    ClearErrors,
    /// The newest message has its image at this path.
    UpdateMessageImage(String),
    /// The chat with this id has a new title.
    TitleUpdate { chat_id: String, title: String },
    /// A title update without the colon that parts id and title: passed over.
    Ignored,
    /// The stream is over.
    StreamDone,
    /// The line of a fatal error, to show beside what was streamed so far.
    Failure(String),
    /// A content snapshot, or a line of text to show in its place.
    Response(String),
}

/// The model of a `ChannelMessage`.
pub enum ChannelMessageView {
    ClearErrors,
    UpdateMessageImage(Seq<char>),
    TitleUpdate { chat_id: Seq<char>, title: Seq<char> },
    Ignored,
    StreamDone,
    Failure(Seq<char>),
    Response(Seq<char>),
}

impl View for ChannelMessage {
    type V = ChannelMessageView;

    open spec fn view(&self) -> ChannelMessageView {
        match *self {
            ChannelMessage::ClearErrors => ChannelMessageView::ClearErrors,
            ChannelMessage::UpdateMessageImage(path) => ChannelMessageView::UpdateMessageImage(
                path@,
            ),
            ChannelMessage::TitleUpdate { chat_id, title } => ChannelMessageView::TitleUpdate {
                chat_id: chat_id@,
                title: title@,
            },
            ChannelMessage::Ignored => ChannelMessageView::Ignored,
            ChannelMessage::StreamDone => ChannelMessageView::StreamDone,
            ChannelMessage::Failure(line) => ChannelMessageView::Failure(line@),
            ChannelMessage::Response(text) => ChannelMessageView::Response(text@),
        }
    }
}

/// Whether `i` is the position of the first colon of `s`.
pub open spec fn is_first_colon(s: Seq<char>, i: int) -> bool {
    &&& 0 <= i < s.len()
    &&& s[i] == ':'
    &&& forall|j: int| 0 <= j < i ==> s[j] != ':'
}

/// What follows a prefix.
pub open spec fn after(s: Seq<char>, p: Seq<char>) -> Seq<char> {
    s.subrange(p.len() as int, s.len() as int)
}

/// The body of a title update: the chat's id up to the first colon, and the
/// title after it.
pub open spec fn title_update(body: Seq<char>) -> ChannelMessageView {
    if exists|i: int| is_first_colon(body, i) {
        let i = choose|i: int| is_first_colon(body, i);
        ChannelMessageView::TitleUpdate {
            chat_id: body.subrange(0, i),
            title: body.subrange(i + 1, body.len() as int),
        }
    } else {
        ChannelMessageView::Ignored
    }
}

/// Whether a text begins like the line of a fatal error: with the words that
/// open the line of a rate-limit, transport or status failure, or with those
/// that open the line of an error reported inside the stream.
pub open spec fn is_failure_line(s: Seq<char>) -> bool {
    has_prefix(s, "错误: "@) || has_prefix(s, "API错误 (重试"@)
}

/// What a string on the channel means.
pub open spec fn classify(s: Seq<char>) -> ChannelMessageView {
    if s == "__CLEAR_ERRORS__"@ {
        ChannelMessageView::ClearErrors
    } else if has_prefix(s, "__UPDATE_MESSAGE_IMAGE__:"@) {
        ChannelMessageView::UpdateMessageImage(after(s, "__UPDATE_MESSAGE_IMAGE__:"@))
    } else if has_prefix(s, "__TITLE_UPDATE__"@) {
        title_update(after(s, "__TITLE_UPDATE__"@))
    } else if s == done_sentinel() {
        ChannelMessageView::StreamDone
    } else if is_failure_line(s) {
        ChannelMessageView::Failure(s)
    } else {
        ChannelMessageView::Response(s)
    }
}

/// Whether a text collides with none of the reserved strings.
pub open spec fn is_plain(s: Seq<char>) -> bool {
    &&& s != "__CLEAR_ERRORS__"@
    &&& !has_prefix(s, "__UPDATE_MESSAGE_IMAGE__:"@)
    &&& !has_prefix(s, "__TITLE_UPDATE__"@)
    &&& s != done_sentinel()
    &&& !is_failure_line(s)
}

/// A text that begins with a character other than an underscore is none of
/// the reserved strings and has none of the reserved prefixes.
proof fn not_reserved(s: Seq<char>)
    requires
        s.len() > 0,
        s[0] != '_',
    ensures
        s != "__CLEAR_ERRORS__"@,
        !has_prefix(s, "__UPDATE_MESSAGE_IMAGE__:"@),
        !has_prefix(s, "__TITLE_UPDATE__"@),
        s != done_sentinel(),
{
    reveal_strlit("__STREAM_DONE__");
    reveal_strlit("__CLEAR_ERRORS__");
    reveal_strlit("__UPDATE_MESSAGE_IMAGE__:");
    reveal_strlit("__TITLE_UPDATE__");
    if has_prefix(s, "__UPDATE_MESSAGE_IMAGE__:"@) {
        assert(s.subrange(0, "__UPDATE_MESSAGE_IMAGE__:"@.len() as int)[0] == s[0]);
    }
    if has_prefix(s, "__TITLE_UPDATE__"@) {
        assert(s.subrange(0, "__TITLE_UPDATE__"@.len() as int)[0] == s[0]);
    }
}

/// The string form of a fatal error begins like a failure line.
pub proof fn fatal_error_is_failure_line(error: ApiErrorView)
    ensures
        is_failure_line(encoded(StreamEventView::FatalError(error))),
        encoded(StreamEventView::FatalError(error)).len() > 0,
        encoded(StreamEventView::FatalError(error))[0] != '_',
{
    reveal_strlit("错误: ");
    reveal_strlit("API错误 (重试");
    let s = encoded(StreamEventView::FatalError(error));
    match error {
        ApiErrorView::Upstream { retries, message, detail } => {
            let p = "API错误 (重试"@;
            assert(s.subrange(0, p.len() as int) =~= p);
            assert(s[0] == p[0]);
        },
        _ => {
            let p = "错误: "@;
            assert(s.subrange(0, p.len() as int) =~= p);
            assert(s[0] == p[0]);
        },
    }
}

/// What is sent is read back as what it was. The string form of `Done` is
/// read as the end of the stream, that of a fatal error as a failure line,
/// and that of a content snapshot that begins like none of the marked
/// strings as that snapshot.
pub proof fn channel_round_trip(event: StreamEventView)
    ensures
        event is Done ==> classify(encoded(event)) == ChannelMessageView::StreamDone,
        event is FatalError ==> classify(encoded(event)) == ChannelMessageView::Failure(
            encoded(event),
        ),
        event is ContentUpdate && is_plain(event->ContentUpdate_0) ==> classify(encoded(event))
            == ChannelMessageView::Response(event->ContentUpdate_0),
{
    reveal_strlit("__STREAM_DONE__");
    reveal_strlit("__CLEAR_ERRORS__");
    reveal_strlit("__UPDATE_MESSAGE_IMAGE__:");
    reveal_strlit("__TITLE_UPDATE__");
    match event {
        StreamEventView::FatalError(error) => {
            fatal_error_is_failure_line(error);
            not_reserved(encoded(event));
        },
        _ => {},
    }
}

fn rest_after(s: &str, p: &str) -> (r: String)
    requires
        has_prefix(s@, p@),
    ensures
        r@ == after(s@, p@),
{
    let n: usize = s.unicode_len();
    let m: usize = p.unicode_len();
    String::from_str(s.substring_char(m, n))
}

fn find_colon(s: &str) -> (r: Option<usize>)
    ensures
        r is Some ==> is_first_colon(s@, r->Some_0 as int),
        r is None ==> forall|i: int| !is_first_colon(s@, i),
{
    let n: usize = s.unicode_len();
    let mut i: usize = 0;
    while i < n
        invariant
            i <= n,
            n == s@.len(),
            forall|j: int| 0 <= j < i ==> s@[j] != ':',
        decreases n - i,
    {
        if s.get_char(i) == ':' {
            return Some(i);
        }
        i += 1;
    }
    None
}

fn parse_title_update(body: &str) -> (r: ChannelMessage)
    ensures
        r@ == title_update(body@),
{
    match find_colon(body) {
        Some(i) => {
            let n: usize = body.unicode_len();
            ChannelMessage::TitleUpdate {
                chat_id: String::from_str(body.substring_char(0, i)),
                title: String::from_str(body.substring_char(i + 1, n)),
            }
        },
        None => ChannelMessage::Ignored,
    }
}

/// Whether a text begins like the line of a fatal error.
pub fn is_failure(s: &str) -> (r: bool)
    ensures
        r == is_failure_line(s@),
{
    starts_with(s, "错误: ") || starts_with(s, "API错误 (重试")
}

impl ChannelMessage {
    /// Tells what a string on the channel means.
    pub fn parse(s: &str) -> (r: ChannelMessage)
        ensures
            r@ == classify(s@),
    {
        if same_text(s, "__CLEAR_ERRORS__") {
            ChannelMessage::ClearErrors
        } else if starts_with(s, "__UPDATE_MESSAGE_IMAGE__:") {
            ChannelMessage::UpdateMessageImage(rest_after(s, "__UPDATE_MESSAGE_IMAGE__:"))
        } else if starts_with(s, "__TITLE_UPDATE__") {
            let body = rest_after(s, "__TITLE_UPDATE__");
            parse_title_update(body.as_str())
        } else if same_text(s, "__STREAM_DONE__") {
            ChannelMessage::StreamDone
        } else if is_failure(s) {
            ChannelMessage::Failure(String::from_str(s))
        } else {
            ChannelMessage::Response(String::from_str(s))
        }
    }
}

} // verus!
