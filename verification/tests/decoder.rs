use chat_stream::decoder::Decoder;
use chat_stream::text::same_text;

fn content_frame(delta: &str) -> String {
    format!("{{\"choices\":[{{\"delta\":{{\"content\":\"{}\"}}}}]}}", delta)
}

fn feed_all(chunks: &[&[u8]]) -> (Vec<String>, usize) {
    let mut d = Decoder::new();
    let mut out = Vec::new();
    for c in chunks {
        out.extend(d.feed(c));
    }
    (out, d.pending())
}

#[test]
fn new_decoder_holds_nothing() {
    let d = Decoder::new();
    assert_eq!(d.pending(), 0);
}

#[test]
fn one_chunk_two_frames_and_terminator() {
    let a = content_frame("Hel");
    let b = content_frame("lo");
    let stream = format!("data: {}\n\ndata: {}\n\ndata: [DONE]\n\n", a, b);
    let (frames, pending) = feed_all(&[stream.as_bytes()]);
    assert_eq!(frames, vec![a, b, "[DONE]".to_string()]);
    assert_eq!(pending, 0);
}

#[test]
fn frame_split_before_closing_brace_is_recovered() {
    let a = content_frame("one");
    let b = content_frame("two");
    let whole = format!("data: {}\n\ndata: {}", a, b);
    let cut = whole.len() - 1;
    let mut d = Decoder::new();
    let first = d.feed(whole[..cut].as_bytes());
    assert_eq!(first, vec![a]);
    assert!(d.pending() > 0);
    let second = d.feed(whole[cut..].as_bytes());
    assert_eq!(second, vec![b]);
    assert_eq!(d.pending(), 0);
}

#[test]
fn every_two_way_split_gives_the_same_frames() {
    let a = content_frame("Hel");
    let b = content_frame("lo");
    let stream = format!("data: {}\n\ndata: {}\n\ndata: [DONE]\n\n", a, b);
    let bytes = stream.as_bytes();
    let (whole, whole_pending) = feed_all(&[bytes]);
    assert_eq!(whole.len(), 3);
    for cut in 0..=bytes.len() {
        let (parts, pending) = feed_all(&[&bytes[..cut], &bytes[cut..]]);
        assert_eq!(parts, whole);
        assert_eq!(pending, whole_pending);
    }
}

#[test]
fn byte_by_byte_gives_the_same_frames() {
    let a = content_frame("x");
    let stream = format!("data: {}\n\ndata: [DONE]\n", a);
    let bytes = stream.as_bytes();
    let mut d = Decoder::new();
    let mut out = Vec::new();
    for i in 0..bytes.len() {
        out.extend(d.feed(&bytes[i..i + 1]));
    }
    assert_eq!(out, vec![a, "[DONE]".to_string()]);
}

#[test]
fn invalid_utf8_chunk_is_dropped() {
    let mut d = Decoder::new();
    assert_eq!(d.feed(b"data: {\"a\"").len(), 0);
    let held = d.pending();
    assert_eq!(held, 10);
    assert_eq!(d.feed(&[0xff, 0xfe, b'\n']).len(), 0);
    assert_eq!(d.pending(), held);
    assert_eq!(d.feed(b":1}\n"), vec!["{\"a\":1}".to_string()]);
    assert_eq!(d.pending(), 0);
}

#[test]
fn noise_before_marker_is_tolerated() {
    let mut d = Decoder::new();
    let frames = d.feed(b"event: x\nid: 7 data: {\"k\":true}\n");
    assert_eq!(frames, vec!["{\"k\":true}".to_string()]);
    assert_eq!(d.pending(), 0);
}

#[test]
fn line_without_marker_is_held_back() {
    let mut d = Decoder::new();
    assert_eq!(d.feed(b"hello\nworld\n").len(), 0);
    assert_eq!(d.pending(), 10);
    d.reset();
    assert_eq!(d.pending(), 0);
}

#[test]
fn carriage_return_before_line_feed_is_dropped() {
    let mut d = Decoder::new();
    let frames = d.feed(b"data: [DONE]\r\n");
    assert_eq!(frames, vec!["[DONE]".to_string()]);
}

#[test]
fn incomplete_json_is_not_a_frame() {
    let mut d = Decoder::new();
    assert_eq!(d.feed(b"data: {\"choices\":[").len(), 0);
    assert_eq!(d.pending(), 18);
    assert_eq!(d.feed(b"]}"), vec!["{\"choices\":[]}".to_string()]);
}

#[test]
fn empty_chunk_changes_nothing() {
    let mut d = Decoder::new();
    assert_eq!(d.feed(b"data: {").len(), 0);
    assert_eq!(d.feed(b"").len(), 0);
    assert_eq!(d.pending(), 7);
}

#[test]
fn same_text_compares_contents() {
    assert!(same_text("[DONE]", "[DONE]"));
    assert!(!same_text("[DONE]", "[DONE] "));
    assert!(same_text("", ""));
}

/// The same decoding written with `String` and `str::lines`.
fn with_str_lines(chunks: &[&[u8]]) -> (Vec<String>, usize) {
    let mut held = String::new();
    let mut out = Vec::new();
    for chunk in chunks {
        if let Ok(text) = std::str::from_utf8(chunk) {
            for line in text.lines() {
                held.push_str(line);
                if let Some(index) = held.find("data: ") {
                    let data = held[index + 6..].to_string();
                    if data == "[DONE]" || serde_json::from_str::<serde_json::Value>(&data).is_ok()
                    {
                        out.push(data);
                        held.clear();
                    }
                }
            }
        }
    }
    (out, held.len())
}

#[test]
fn lines_are_split_as_str_lines_splits_them() {
    let cases: Vec<Vec<&[u8]>> = vec![
        vec![b"data: {}\r\n\r\ndata: [DONE]\r\n"],
        vec![b"data: {}\r", b"\ndata: 1\n"],
        vec![b"\r\n", b"\n\n", b"data: [1,2]\n"],
        vec![b"x\r\r\ndata: true\r\r\n"],
        vec![b"data: {\"a\":", b"\"b\"}", b"\n"],
        vec![b"data: ", b"[DONE]"],
        vec![b"da", b"ta", b": ", b"nu", b"ll"],
        vec![b"data: data: 7\n"],
        vec![b"no marker\n", b"still none", b"\n"],
        vec!["data: \"é".as_bytes(), "\u{4f60}\"\n".as_bytes()],
        vec![&[b'd', b'a', 0xc3], &[0xa9, b'\n'], b"data: 0\n"],
        vec![b"", b"\n", b""],
    ];
    for chunks in cases {
        assert_eq!(feed_all(&chunks), with_str_lines(&chunks));
    }
}
