//! The string form in which events travel to the consumer.
//!
//! A content snapshot travels as it is, the end of the stream as a fixed
//! sentinel, and notices and failures as one line of text each.

use vstd::prelude::*;
use crate::engine::{ApiError, ApiErrorView, RetryCause, StreamEvent, StreamEventView};
use crate::json::opt_text;

verus! {

/// The character of a decimal digit.
pub open spec fn digit(d: int) -> char {
    if d == 0 {
        '0'
    } else if d == 1 {
        '1'
    } else if d == 2 {
        '2'
    } else if d == 3 {
        '3'
    } else if d == 4 {
        '4'
    } else if d == 5 {
        '5'
    } else if d == 6 {
        '6'
    } else if d == 7 {
        '7'
    } else if d == 8 {
        '8'
    } else {
        '9'
    }
}

/// A natural number in decimal, without leading zeros.
pub open spec fn decimal(n: nat) -> Seq<char>
    decreases n,
{
    if n < 10 {
        seq![digit(n as int)]
    } else {
        decimal(n / 10) + seq![digit((n % 10) as int)]
    }
}

/// An integer in decimal, with a minus sign where it is negative.
pub open spec fn signed_decimal(n: int) -> Seq<char> {
    if n < 0 {
        seq!['-'] + decimal((-n) as nat)
    } else {
        decimal(n as nat)
    }
}

fn digit_text(d: u64) -> (r: &'static str)
    requires
        d < 10,
    ensures
        r@ =~= seq![digit(d as int)],
{
    proof {
        reveal_strlit("0");
        reveal_strlit("1");
        reveal_strlit("2");
        reveal_strlit("3");
        reveal_strlit("4");
        reveal_strlit("5");
        reveal_strlit("6");
        reveal_strlit("7");
        reveal_strlit("8");
        reveal_strlit("9");
    }
    if d == 0 {
        "0"
    } else if d == 1 {
        "1"
    } else if d == 2 {
        "2"
    } else if d == 3 {
        "3"
    } else if d == 4 {
        "4"
    } else if d == 5 {
        "5"
    } else if d == 6 {
        "6"
    } else if d == 7 {
        "7"
    } else if d == 8 {
        "8"
    } else {
        "9"
    }
}

/// Writes a natural number in decimal.
pub fn decimal_text(n: u64) -> (r: String)
    ensures
        r@ == decimal(n as nat),
    decreases n,
{
    if n < 10 {
        String::from_str(digit_text(n))
    } else {
        let mut r = decimal_text(n / 10);
        r.append(digit_text(n % 10));
        r
    }
}

/// Writes an integer in decimal.
pub fn signed_decimal_text(n: i32) -> (r: String)
    ensures
        r@ == signed_decimal(n as int),
{
    if n < 0 {
        proof {
            reveal_strlit("-");
        }
        let mut r = String::from_str("-");
        let magnitude: u64 = (-(n as i64)) as u64;
        let digits = decimal_text(magnitude);
        r.append(digits.as_str());
        r
    } else {
        decimal_text(n as u64)
    }
}

/// The text of an optional part, or a default where it is absent.
pub open spec fn text_or(text: Option<Seq<char>>, default: Seq<char>) -> Seq<char> {
    match text {
        Some(t) => t,
        None => default,
    }
}

/// How `reqwest::StatusCode` displays a status: the number, a space and the
/// canonical reason phrase. `None` for a number that is no status code.
pub uninterp spec fn status_display(code: u16) -> Option<Seq<char>>;

/// Calls `reqwest::StatusCode::from_u16` and the `Display` of the status it
/// gives. The text is a function of the number alone; there is none where
/// `from_u16` refuses the number.
#[verifier::external_body]
fn status_text(code: u16) -> (r: Option<String>)
    ensures
        opt_text(r) == status_display(code),
{
    match reqwest::StatusCode::from_u16(code) {
        Ok(status) => Some(status.to_string()),
        Err(_) => None,
    }
}

/// The line for a status, given how the status is displayed: the display
/// where there is one, the bare number else.
pub open spec fn status_line_of(code: u16, display: Option<Seq<char>>) -> Seq<char> {
    "HTTP错误: "@ + text_or(display, decimal(code as nat))
}

/// The line that describes a failure.
pub open spec fn error_message(error: ApiErrorView) -> Seq<char> {
    match error {
        ApiErrorView::TooManyRequests => "请求频率限制"@,
        ApiErrorView::Other(diagnostic) => "请求错误: "@ + diagnostic,
        ApiErrorView::HttpError(code) => status_line_of(code, status_display(code)),
        ApiErrorView::Upstream { retries, message, detail } => {
            let head = "API错误 (重试"@ + signed_decimal(retries as int) + "次后): "@ + text_or(
                message,
                "未知错误"@,
            );
            match detail {
                Some(d) => head + " - 详细信息: "@ + d,
                None => head,
            }
        },
    }
}

/// The words that name the cause of a retry.
pub open spec fn cause_words(cause: RetryCause) -> Seq<char> {
    match cause {
        RetryCause::RateLimit => "遇到频率限制，正在进行第 "@,
        RetryCause::Transport => "遇到网络错误，正在进行第 "@,
        RetryCause::Upstream => "遇到API错误，正在进行第 "@,
    }
}

/// The sentinel that ends a stream.
pub open spec fn done_sentinel() -> Seq<char> {
    "__STREAM_DONE__"@
}

/// The string form of an event.
pub open spec fn encoded(event: StreamEventView) -> Seq<char> {
    match event {
        StreamEventView::ContentUpdate(text) => text,
        StreamEventView::Retrying(cause, attempt) => cause_words(cause) + signed_decimal(
            attempt as int,
        ) + " 次重试..."@,
        StreamEventView::FatalError(error) => match error {
            ApiErrorView::Upstream { .. } => error_message(error),
            _ => "错误: "@ + error_message(error),
        },
        StreamEventView::Done => done_sentinel(),
    }
}

/// Writes the line for a status from the number and the text that displays
/// the status, if there is one.
pub fn status_line(code: u16, display: Option<String>) -> (r: String)
    ensures
        r@ == status_line_of(code, opt_text(display)),
{
    let mut r = String::from_str("HTTP错误: ");
    match display {
        Some(text) => r.append(text.as_str()),
        None => {
            let digits = decimal_text(code as u64);
            r.append(digits.as_str());
        },
    }
    r
}

impl ApiError {
    /// The line that describes this failure.
    pub fn message(&self) -> (r: String)
        ensures
            r@ == error_message(self@),
    {
        match self {
            ApiError::TooManyRequests => String::from_str("请求频率限制"),
            ApiError::Other(diagnostic) => {
                let mut r = String::from_str("请求错误: ");
                r.append(diagnostic.as_str());
                r
            },
            ApiError::HttpError(code) => status_line(*code, status_text(*code)),
            ApiError::Upstream { retries, message, detail } => {
                let mut r = String::from_str("API错误 (重试");
                let count = signed_decimal_text(*retries);
                r.append(count.as_str());
                r.append("次后): ");
                match message {
                    Some(m) => r.append(m.as_str()),
                    None => r.append("未知错误"),
                }
                match detail {
                    Some(d) => {
                        r.append(" - 详细信息: ");
                        r.append(d.as_str());
                    },
                    None => {},
                }
                r
            },
        }
    }
}

impl StreamEvent {
    /// The string form of this event.
    pub fn encode(&self) -> (r: String)
        ensures
            r@ == encoded(self@),
    {
        match self {
            StreamEvent::ContentUpdate(text) => text.clone(),
            StreamEvent::Retrying(cause, attempt) => {
                let mut r = match cause {
                    RetryCause::RateLimit => String::from_str("遇到频率限制，正在进行第 "),
                    RetryCause::Transport => String::from_str("遇到网络错误，正在进行第 "),
                    RetryCause::Upstream => String::from_str("遇到API错误，正在进行第 "),
                };
                let count = signed_decimal_text(*attempt);
                r.append(count.as_str());
                r.append(" 次重试...");
                r
            },
            StreamEvent::FatalError(error) => match error {
                ApiError::Upstream { .. } => error.message(),
                _ => {
                    let mut r = String::from_str("错误: ");
                    let line = error.message();
                    r.append(line.as_str());
                    r
                },
            },
            StreamEvent::Done => String::from_str("__STREAM_DONE__"),
        }
    }

    /// Whether this event ends the stream.
    pub fn is_done(&self) -> (r: bool)
        ensures
            r == (self@ is Done),
    {
        match self {
            StreamEvent::Done => true,
            _ => false,
        }
    }
}

} // verus!
