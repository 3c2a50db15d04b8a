use chat_stream::engine::{ApiError, RetryCause, StreamEvent};
use chat_stream::wire::{decimal_text, signed_decimal_text, status_line};

#[test]
fn decimal_text_writes_digits() {
    assert_eq!(decimal_text(0), "0");
    assert_eq!(decimal_text(7), "7");
    assert_eq!(decimal_text(10), "10");
    assert_eq!(decimal_text(429), "429");
    assert_eq!(decimal_text(u64::MAX), "18446744073709551615");
}

#[test]
fn signed_decimal_text_writes_sign() {
    assert_eq!(signed_decimal_text(0), "0");
    assert_eq!(signed_decimal_text(12), "12");
    assert_eq!(signed_decimal_text(-3), "-3");
    assert_eq!(signed_decimal_text(i32::MIN), "-2147483648");
    assert_eq!(signed_decimal_text(i32::MAX), "2147483647");
}

#[test]
fn error_messages() {
    assert_eq!(ApiError::TooManyRequests.message(), "请求频率限制");
    assert_eq!(ApiError::Other("timeout".to_string()).message(), "请求错误: timeout");
    assert_eq!(ApiError::HttpError(500).message(), "HTTP错误: 500 Internal Server Error");
    assert_eq!(ApiError::HttpError(404).message(), "HTTP错误: 404 Not Found");
    assert_eq!(ApiError::HttpError(599).message(), "HTTP错误: 599 <unknown status code>");
    assert_eq!(ApiError::HttpError(42).message(), "HTTP错误: 42");
    assert_eq!(ApiError::HttpError(1000).message(), "HTTP错误: 1000");
    assert_eq!(
        ApiError::Upstream { retries: 2, message: Some("bad".to_string()), detail: None }.message(),
        "API错误 (重试2次后): bad"
    );
    assert_eq!(
        ApiError::Upstream { retries: 10, message: None, detail: Some("raw".to_string()) }
            .message(),
        "API错误 (重试10次后): 未知错误 - 详细信息: raw"
    );
}

#[test]
fn encoded_events() {
    assert_eq!(StreamEvent::ContentUpdate("Hello".to_string()).encode(), "Hello");
    assert_eq!(StreamEvent::Done.encode(), "__STREAM_DONE__");
    assert_eq!(
        StreamEvent::Retrying(RetryCause::RateLimit, 1).encode(),
        "遇到频率限制，正在进行第 1 次重试..."
    );
    assert_eq!(
        StreamEvent::Retrying(RetryCause::Upstream, 2).encode(),
        "遇到API错误，正在进行第 2 次重试..."
    );
    assert_eq!(
        StreamEvent::Retrying(RetryCause::Transport, 13).encode(),
        "遇到网络错误，正在进行第 13 次重试..."
    );
    assert_eq!(
        StreamEvent::FatalError(ApiError::TooManyRequests).encode(),
        "错误: 请求频率限制"
    );
    assert_eq!(
        StreamEvent::FatalError(ApiError::HttpError(404)).encode(),
        "错误: HTTP错误: 404 Not Found"
    );
    assert_eq!(
        StreamEvent::FatalError(ApiError::Upstream {
            retries: 0,
            message: Some("m".to_string()),
            detail: None
        })
        .encode(),
        "API错误 (重试0次后): m"
    );
}

#[test]
fn only_done_is_done() {
    assert!(StreamEvent::Done.is_done());
    assert!(!StreamEvent::ContentUpdate("__STREAM_DONE__".to_string()).is_done());
    assert!(!StreamEvent::FatalError(ApiError::TooManyRequests).is_done());
}

#[test]
fn status_line_prefers_the_display() {
    assert_eq!(status_line(503, Some("503 Service Unavailable".to_string())), "HTTP错误: 503 Service Unavailable");
    assert_eq!(status_line(503, None), "HTTP错误: 503");
    assert_eq!(status_line(0, None), "HTTP错误: 0");
    assert_eq!(status_line(7, Some(String::new())), "HTTP错误: ");
}
