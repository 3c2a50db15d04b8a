//! JSON documents carried by stream frames.
//!
//! Parsing and navigation are done by `serde_json`; this module names what
//! those calls return and reads from a parsed document the few fields that
//! the streaming protocol looks at.

use vstd::prelude::*;

verus! {

/// `serde_json::Value`, a parsed JSON value, carried as it is.
#[verifier::external_type_specification]
#[verifier::external_body]
pub struct ExJsonValue(serde_json::Value);

/// `serde_json::Error`, the parser's error, carried as it is.
#[verifier::external_type_specification]
#[verifier::external_body]
pub struct ExJsonError(serde_json::Error);

/// The model of a JSON value. Numbers are not told apart: the protocol reads
/// none.
pub enum JsonView {
    Null,
    Bool(bool),
    Number,
    Text(Seq<char>),
    Array(Seq<JsonView>),
    Object(Map<Seq<char>, JsonView>),
}

/// What a `serde_json::Value` holds: its kind and, as far as the model goes,
/// its contents.
pub uninterp spec fn json_view(value: serde_json::Value) -> JsonView;

/// The document that `serde_json::from_str` yields for a text, or `None`
/// where it reports an error.
pub uninterp spec fn json_document(text: Seq<char>) -> Option<JsonView>;

/// The member of an object under a key: `None` for a missing key and for a
/// value that is no object.
pub open spec fn member_of(value: JsonView, key: Seq<char>) -> Option<JsonView> {
    match value {
        JsonView::Object(members) => if members.contains_key(key) {
            Some(members[key])
        } else {
            None
        },
        _ => None,
    }
}

/// The element of an array at a position: `None` out of bounds and for a
/// value that is no array.
pub open spec fn element_of(value: JsonView, position: nat) -> Option<JsonView> {
    match value {
        JsonView::Array(elements) => if position < elements.len() {
            Some(elements[position as int])
        } else {
            None
        },
        _ => None,
    }
}

/// The text of a string value: `None` for any other value.
pub open spec fn text_of(value: JsonView) -> Option<Seq<char>> {
    match value {
        JsonView::Text(t) => Some(t),
        _ => None,
    }
}

/// The model of an optional reference to a value.
pub open spec fn view_of(value: Option<&serde_json::Value>) -> Option<JsonView> {
    match value {
        Some(v) => Some(json_view(*v)),
        None => None,
    }
}

/// The text of an optional string slice.
pub open spec fn str_text(text: Option<&str>) -> Option<Seq<char>> {
    match text {
        Some(t) => Some(t@),
        None => None,
    }
}

/// Calls `serde_json::from_str` for a `serde_json::Value`. The parser is a
/// function of its input text: it succeeds exactly where `json_document`
/// holds a document, and the value returned then holds that document.
#[verifier::external_body]
fn parse(text: &str) -> (r: Result<serde_json::Value, serde_json::Error>)
    ensures
        r is Ok <==> json_document(text@) is Some,
        r is Ok ==> json_document(text@) == Some(json_view(r->Ok_0)),
{
    serde_json::from_str::<serde_json::Value>(text)
}

/// Calls `serde_json::Value::get` with a string key: the member of an object
/// under that key, `None` for a missing key or a value that is no object.
#[verifier::external_body]
fn member<'a>(value: &'a serde_json::Value, key: &str) -> (r: Option<&'a serde_json::Value>)
    ensures
        view_of(r) == member_of(json_view(*value), key@),
{
    value.get(key)
}

/// Calls `serde_json::Value::get` with a position: the element of an array
/// at that position, `None` out of bounds or for a value that is no array.
#[verifier::external_body]
fn element<'a>(value: &'a serde_json::Value, position: usize) -> (r: Option<&'a serde_json::Value>)
    ensures
        view_of(r) == element_of(json_view(*value), position as nat),
{
    value.get(position)
}

/// Calls `serde_json::Value::as_str`: the text of a string value, `None` for
/// any other value.
#[verifier::external_body]
fn text<'a>(value: &'a serde_json::Value) -> (r: Option<&'a str>)
    ensures
        str_text(r) == text_of(json_view(*value)),
{
    value.as_str()
}

/// Whether a text is a complete JSON document.
pub fn is_document(text: &str) -> (r: bool)
    ensures
        r == (json_document(text@) is Some),
{
    match parse(text) {
        Ok(_) => true,
        Err(_) => false,
    }
}

/// The error object of a frame, as far as the protocol reads it.
#[derive(Debug, Clone, PartialEq, Eq)]
pub struct ErrorInfo {
    /// The `message` member, where it is a string.
    pub message: Option<String>,
    /// The `raw` member of the `metadata` member, where there is one; empty
    /// where it is no string.
    pub detail: Option<String>,
}

/// The model of an `ErrorInfo`.
pub struct ErrorInfoView {
    pub message: Option<Seq<char>>,
    pub detail: Option<Seq<char>>,
}

/// What the protocol reads in the document of one frame.
#[derive(Debug, Clone, PartialEq, Eq)]
pub struct FrameDoc {
    /// The `error` member, where there is one.
    pub error: Option<ErrorInfo>,
    /// The content delta of the first choice, where it is a string.
    pub content: Option<String>,
}

/// The model of a `FrameDoc`.
pub struct FrameDocView {
    pub error: Option<ErrorInfoView>,
    pub content: Option<Seq<char>>,
}

/// The text of an optional string.
pub open spec fn opt_text(text: Option<String>) -> Option<Seq<char>> {
    match text {
        Some(t) => Some(t@),
        None => None,
    }
}

impl View for ErrorInfo {
    type V = ErrorInfoView;

    open spec fn view(&self) -> ErrorInfoView {
        ErrorInfoView { message: opt_text(self.message), detail: opt_text(self.detail) }
    }
}

impl View for FrameDoc {
    type V = FrameDocView;

    open spec fn view(&self) -> FrameDocView {
        FrameDocView {
            error: match self.error {
                Some(e) => Some(e@),
                None => None,
            },
            content: opt_text(self.content),
        }
    }
}

/// The member of an optional value under a key.
pub open spec fn then_member(value: Option<JsonView>, key: Seq<char>) -> Option<JsonView> {
    match value {
        Some(v) => member_of(v, key),
        None => None,
    }
}

/// The element of an optional value at a position.
pub open spec fn then_element(value: Option<JsonView>, position: nat) -> Option<JsonView> {
    match value {
        Some(v) => element_of(v, position),
        None => None,
    }
}

/// The text of an optional value.
pub open spec fn then_text(value: Option<JsonView>) -> Option<Seq<char>> {
    match value {
        Some(v) => text_of(v),
        None => None,
    }
}

/// What the protocol reads in an error object: `message` as text, and the
/// text of `metadata.raw` where that member exists.
pub open spec fn error_of(error: JsonView) -> ErrorInfoView {
    ErrorInfoView {
        message: then_text(member_of(error, "message"@)),
        detail: match then_member(member_of(error, "metadata"@), "raw"@) {
            Some(raw) => Some(
                match text_of(raw) {
                    Some(t) => t,
                    None => Seq::empty(),
                },
            ),
            None => None,
        },
    }
}

/// The content delta of a document: the text at `choices[0].delta.content`.
pub open spec fn content_of(doc: JsonView) -> Option<Seq<char>> {
    then_text(
        then_member(
            then_member(then_element(member_of(doc, "choices"@), 0), "delta"@),
            "content"@,
        ),
    )
}

/// What the protocol reads in a parsed document.
pub open spec fn document_view(doc: JsonView) -> FrameDocView {
    FrameDocView {
        error: match member_of(doc, "error"@) {
            Some(e) => Some(error_of(e)),
            None => None,
        },
        content: content_of(doc),
    }
}

/// What the protocol reads in the text of a frame: `None` where the text is
/// no JSON document.
pub open spec fn frame_document(text: Seq<char>) -> Option<FrameDocView> {
    match json_document(text) {
        Some(doc) => Some(document_view(doc)),
        None => None,
    }
}

fn owned(text: Option<&str>) -> (r: Option<String>)
    ensures
        opt_text(r) == str_text(text),
{
    match text {
        Some(t) => Some(String::from_str(t)),
        None => None,
    }
}

fn member_text(value: &serde_json::Value, key: &str) -> (r: Option<String>)
    ensures
        opt_text(r) == then_text(member_of(json_view(*value), key@)),
{
    match member(value, key) {
        Some(v) => owned(text(v)),
        None => None,
    }
}

fn read_error(error: &serde_json::Value) -> (r: ErrorInfo)
    ensures
        r@ == error_of(json_view(*error)),
{
    let message = member_text(error, "message");
    let detail = match member(error, "metadata") {
        Some(metadata) => match member(metadata, "raw") {
            Some(raw) => match text(raw) {
                Some(t) => Some(String::from_str(t)),
                None => Some(String::new()),
            },
            None => None,
        },
        None => None,
    };
    ErrorInfo { message, detail }
}

fn read_content(doc: &serde_json::Value) -> (r: Option<String>)
    ensures
        opt_text(r) == content_of(json_view(*doc)),
{
    match member(doc, "choices") {
        Some(choices) => match element(choices, 0) {
            Some(choice) => match member(choice, "delta") {
                Some(delta) => member_text(delta, "content"),
                None => None,
            },
            None => None,
        },
        None => None,
    }
}

/// Reads in a parsed document what the protocol looks at.
pub fn read_document(doc: &serde_json::Value) -> (r: FrameDoc)
    ensures
        r@ == document_view(json_view(*doc)),
{
    let error = match member(doc, "error") {
        Some(e) => Some(read_error(e)),
        None => None,
    };
    let content = read_content(doc);
    FrameDoc { error, content }
}

/// The model of an optional frame document.
pub open spec fn doc_view(doc: Option<FrameDoc>) -> Option<FrameDocView> {
    match doc {
        Some(d) => Some(d@),
        None => None,
    }
}

/// Parses the text of a frame and reads what the protocol looks at.
/// Returns `None` exactly where the text is no JSON document.
pub fn read_frame(frame: &str) -> (r: Option<FrameDoc>)
    ensures
        doc_view(r) == frame_document(frame@),
{
    match parse(frame) {
        Ok(doc) => Some(read_document(&doc)),
        Err(_) => None,
    }
}

} // verus!
