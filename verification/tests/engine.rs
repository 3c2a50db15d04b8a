use chat_stream::engine::{
    ApiError, Directive, Engine, Phase, RetryCause, RetryPolicy, Signal, Step, StreamEvent,
};
use chat_stream::json::{read_frame, ErrorInfo, FrameDoc};

fn delta(text: &str) -> String {
    format!("data: {{\"choices\":[{{\"delta\":{{\"content\":\"{}\"}}}}]}}\n\n", text)
}

fn update(text: &str) -> StreamEvent {
    StreamEvent::ContentUpdate(text.to_string())
}

#[test]
fn new_engine_is_attempting() {
    let e = Engine::new(true, 3);
    assert_eq!(e.phase(), Phase::Attempting);
    assert_eq!(e.retries(), 0);
    assert_eq!(e.policy(), RetryPolicy { enabled: true, max_attempts: 3 });
    assert_eq!(e.directive(), Directive::Request);
    assert_eq!(e.message(), "");
}

#[test]
fn policy_permits_below_the_bound_only() {
    let p = RetryPolicy { enabled: true, max_attempts: 2 };
    assert!(p.permits(0));
    assert!(p.permits(1));
    assert!(!p.permits(2));
    let off = RetryPolicy { enabled: false, max_attempts: 2 };
    assert!(!off.permits(0));
    let zero = RetryPolicy { enabled: true, max_attempts: 0 };
    assert!(!zero.permits(0));
}

#[test]
fn deltas_then_terminator() {
    let mut e = Engine::new(true, 3);
    let s = e.on_status(200);
    assert_eq!(s, Step { events: vec![], next: Directive::Read });
    let body = format!("{}{}data: [DONE]\n\n", delta("Hel"), delta("lo"));
    let s = e.on_chunk(body.as_bytes());
    assert_eq!(s.events, vec![update("Hel"), update("Hello"), StreamEvent::Done]);
    assert_eq!(s.next, Directive::Stop);
    assert_eq!(e.phase(), Phase::Succeeded);
    let after = e.on_chunk(delta("more").as_bytes());
    assert_eq!(after, Step { events: vec![], next: Directive::Stop });
    let after = e.on_body_end();
    assert_eq!(after, Step { events: vec![], next: Directive::Stop });
    assert_eq!(e.message(), "Hello");
}

#[test]
fn frames_after_terminator_in_the_same_chunk_are_ignored() {
    let mut e = Engine::new(false, 0);
    e.on_status(200);
    let body = format!("{}data: [DONE]\n\n{}", delta("a"), delta("b"));
    let s = e.on_chunk(body.as_bytes());
    assert_eq!(s.events, vec![update("a"), StreamEvent::Done]);
    assert_eq!(e.message(), "a");
}

#[test]
fn rate_limit_without_retry_fails_at_once() {
    let mut e = Engine::new(false, 5);
    let s = e.on_status(429);
    assert_eq!(
        s.events,
        vec![StreamEvent::FatalError(ApiError::TooManyRequests), StreamEvent::Done]
    );
    assert_eq!(s.next, Directive::Stop);
    assert_eq!(e.phase(), Phase::Failed);
    assert_eq!(e.retries(), 0);
}

#[test]
fn rate_limit_is_retried_up_to_the_bound() {
    let n = 3;
    let mut e = Engine::new(true, n);
    let mut requests = 1;
    loop {
        let s = e.step(Signal::Status(429));
        if s.next == Directive::Request {
            assert_eq!(s.events, vec![StreamEvent::Retrying(RetryCause::RateLimit, requests)]);
            requests += 1;
        } else {
            assert_eq!(s.next, Directive::Stop);
            assert_eq!(
                s.events,
                vec![StreamEvent::FatalError(ApiError::TooManyRequests), StreamEvent::Done]
            );
            break;
        }
    }
    assert_eq!(requests, n + 1);
    assert_eq!(e.retries(), n);
    assert_eq!(e.phase(), Phase::Failed);
}

#[test]
fn server_error_is_never_retried() {
    for enabled in [false, true] {
        let mut e = Engine::new(enabled, 10);
        let s = e.on_status(500);
        assert_eq!(
            s.events,
            vec![StreamEvent::FatalError(ApiError::HttpError(500)), StreamEvent::Done]
        );
        assert_eq!(s.next, Directive::Stop);
        assert_eq!(e.retries(), 0);
        assert_eq!(e.phase(), Phase::Failed);
    }
}

#[test]
fn split_second_frame_is_recovered() {
    let first = delta("one");
    let second = delta("two");
    let whole = format!("{}{}", first, second);
    let cut = first.len() + second.trim_end().len() - 1;
    let mut e = Engine::new(true, 1);
    e.on_status(200);
    let s = e.on_chunk(whole[..cut].as_bytes());
    assert_eq!(s.events, vec![update("one")]);
    assert_eq!(s.next, Directive::Read);
    let s = e.on_chunk(whole[cut..].as_bytes());
    assert_eq!(s.events, vec![update("onetwo")]);
    assert_eq!(s.next, Directive::Read);
    let s = e.on_body_end();
    assert_eq!(s.events, vec![StreamEvent::Done]);
}

#[test]
fn error_frame_restarts_and_second_attempt_replaces_content() {
    let mut e = Engine::new(true, 1);
    e.on_status(200);
    let s = e.on_chunk(b"data: {\"error\":{\"message\":\"overloaded\"}}\n\n");
    assert_eq!(s.events, vec![StreamEvent::Retrying(RetryCause::Upstream, 1)]);
    assert_eq!(s.next, Directive::Request);
    assert_eq!(e.phase(), Phase::Attempting);
    assert_eq!(e.retries(), 1);
    e.on_status(200);
    let body = format!("{}data: [DONE]\n\n", delta("fresh"));
    let s = e.on_chunk(body.as_bytes());
    assert_eq!(s.events, vec![update("fresh"), StreamEvent::Done]);
    assert_eq!(e.message(), "fresh");
}

#[test]
fn partial_content_is_discarded_on_restart() {
    let mut e = Engine::new(true, 2);
    e.on_status(200);
    let body = format!("{}data: {{\"error\":{{}}}}\n{}", delta("old"), delta("lost"));
    let s = e.on_chunk(body.as_bytes());
    assert_eq!(s.events, vec![update("old"), StreamEvent::Retrying(RetryCause::Upstream, 1)]);
    assert_eq!(e.message(), "");
    e.on_status(200);
    let s = e.on_chunk(delta("new").as_bytes());
    assert_eq!(s.events, vec![update("new")]);
}

#[test]
fn error_frame_without_retries_is_fatal_with_detail() {
    let mut e = Engine::new(true, 0);
    e.on_status(200);
    let s = e.on_chunk(
        b"data: {\"error\":{\"message\":\"bad\",\"metadata\":{\"raw\":\"why\"}}}\n",
    );
    assert_eq!(
        s.events,
        vec![
            StreamEvent::FatalError(ApiError::Upstream {
                retries: 0,
                message: Some("bad".to_string()),
                detail: Some("why".to_string()),
            }),
            StreamEvent::Done,
        ]
    );
    assert_eq!(s.next, Directive::Stop);
    assert_eq!(e.phase(), Phase::Failed);
}

#[test]
fn transport_failure_before_response_is_retried_then_fatal() {
    let mut e = Engine::new(true, 1);
    let s = e.on_transport_failure("refused".to_string());
    assert_eq!(s.events, vec![StreamEvent::Retrying(RetryCause::Transport, 1)]);
    assert_eq!(s.next, Directive::Request);
    let s = e.step(Signal::TransportFailure("refused again".to_string()));
    assert_eq!(
        s.events,
        vec![
            StreamEvent::FatalError(ApiError::Other("refused again".to_string())),
            StreamEvent::Done
        ]
    );
    assert_eq!(s.next, Directive::Stop);
}

#[test]
fn transport_failure_in_body_restarts() {
    let mut e = Engine::new(true, 4);
    e.on_status(200);
    e.on_chunk(delta("part").as_bytes());
    let s = e.on_transport_failure("cut".to_string());
    assert_eq!(s.events, vec![StreamEvent::Retrying(RetryCause::Transport, 1)]);
    assert_eq!(s.next, Directive::Request);
    assert_eq!(e.message(), "");
    assert_eq!(e.phase(), Phase::Attempting);
}

#[test]
fn body_end_without_terminator_is_done() {
    let mut e = Engine::new(false, 0);
    e.step(Signal::Status(204));
    e.step(Signal::Chunk(delta("x").into_bytes()));
    let s = e.step(Signal::BodyEnd);
    assert_eq!(s, Step { events: vec![StreamEvent::Done], next: Directive::Stop });
    assert_eq!(e.phase(), Phase::Succeeded);
}

#[test]
fn signals_out_of_place_change_nothing() {
    let mut e = Engine::new(true, 2);
    let s = e.on_chunk(delta("x").as_bytes());
    assert_eq!(s, Step { events: vec![], next: Directive::Request });
    let s = e.on_body_end();
    assert_eq!(s, Step { events: vec![], next: Directive::Request });
    let s = e.on_frame("[DONE]");
    assert_eq!(s, Step { events: vec![], next: Directive::Request });
    e.on_status(200);
    let s = e.on_status(500);
    assert_eq!(s, Step { events: vec![], next: Directive::Read });
    assert_eq!(e.phase(), Phase::Streaming);
}

#[test]
fn on_document_appends_delta() {
    let mut e = Engine::new(true, 2);
    e.on_status(200);
    let s = e.on_document(FrameDoc { error: None, content: Some("ab".to_string()) });
    assert_eq!(s.events, vec![update("ab")]);
    let s = e.on_document(FrameDoc { error: None, content: Some("cd".to_string()) });
    assert_eq!(s.events, vec![update("abcd")]);
    let s = e.on_document(FrameDoc { error: None, content: None });
    assert_eq!(s, Step { events: vec![], next: Directive::Read });
    let s = e.on_document(FrameDoc {
        error: Some(ErrorInfo { message: None, detail: None }),
        content: Some("ignored".to_string()),
    });
    assert_eq!(s.events, vec![StreamEvent::Retrying(RetryCause::Upstream, 1)]);
}

#[test]
fn on_frame_passes_over_what_is_no_document() {
    let mut e = Engine::new(true, 2);
    e.on_status(200);
    let s = e.on_frame("{\"choices\":");
    assert_eq!(s, Step { events: vec![], next: Directive::Read });
    let s = e.on_frame("{\"choices\":[{\"delta\":{\"content\":\"hi\"}}]}");
    assert_eq!(s.events, vec![update("hi")]);
    let s = e.on_frame("[DONE]");
    assert_eq!(s.events, vec![StreamEvent::Done]);
}

#[test]
fn read_frame_reads_error_and_content() {
    assert_eq!(read_frame("{"), None);
    assert_eq!(read_frame("[DONE]"), None);
    assert_eq!(read_frame("{}"), Some(FrameDoc { error: None, content: None }));
    assert_eq!(
        read_frame("{\"choices\":[{\"delta\":{\"content\":\"hi\"}},{\"delta\":{\"content\":\"no\"}}]}"),
        Some(FrameDoc { error: None, content: Some("hi".to_string()) })
    );
    assert_eq!(
        read_frame("{\"choices\":[{\"delta\":{\"content\":7}}]}"),
        Some(FrameDoc { error: None, content: None })
    );
    assert_eq!(
        read_frame("{\"error\":null}"),
        Some(FrameDoc { error: Some(ErrorInfo { message: None, detail: None }), content: None })
    );
    assert_eq!(
        read_frame("{\"error\":{\"message\":\"m\",\"metadata\":{\"raw\":5}}}"),
        Some(FrameDoc {
            error: Some(ErrorInfo { message: Some("m".to_string()), detail: Some(String::new()) }),
            content: None
        })
    );
    assert_eq!(
        read_frame("{\"error\":{\"message\":\"m\",\"metadata\":{}}}"),
        Some(FrameDoc {
            error: Some(ErrorInfo { message: Some("m".to_string()), detail: None }),
            content: None
        })
    );
}

#[test]
fn negative_bound_allows_no_retry() {
    let mut e = Engine::new(true, -1);
    let s = e.on_status(429);
    assert_eq!(
        s.events,
        vec![StreamEvent::FatalError(ApiError::TooManyRequests), StreamEvent::Done]
    );
    assert_eq!(e.retries(), 0);
}

#[test]
fn retries_are_shared_by_all_causes() {
    let mut e = Engine::new(true, 3);
    assert_eq!(e.on_status(429).next, Directive::Request);
    assert_eq!(e.on_transport_failure("x".to_string()).next, Directive::Request);
    e.on_status(200);
    let s = e.on_chunk(b"data: {\"error\":{\"message\":\"m\"}}\n");
    assert_eq!(s.events, vec![StreamEvent::Retrying(RetryCause::Upstream, 3)]);
    e.on_status(200);
    let s = e.on_chunk(b"data: {\"error\":{\"message\":\"m\"}}\n");
    assert_eq!(
        s.events,
        vec![
            StreamEvent::FatalError(ApiError::Upstream {
                retries: 3,
                message: Some("m".to_string()),
                detail: None
            }),
            StreamEvent::Done
        ]
    );
    assert_eq!(e.retries(), 3);
    assert_eq!(e.phase(), Phase::Failed);
}

#[test]
fn invalid_chunk_in_body_is_passed_over() {
    let mut e = Engine::new(false, 0);
    e.on_status(200);
    let s = e.on_chunk(&[0xff, 0xff]);
    assert_eq!(s, Step { events: vec![], next: Directive::Read });
    let s = e.on_chunk(delta("ok").as_bytes());
    assert_eq!(s.events, vec![update("ok")]);
}

#[test]
fn frame_without_content_yields_no_event() {
    let mut e = Engine::new(false, 0);
    e.on_status(200);
    let s = e.on_chunk(b"data: {\"choices\":[{\"delta\":{\"role\":\"assistant\"}}]}\n\n");
    assert_eq!(s, Step { events: vec![], next: Directive::Read });
    assert_eq!(e.message(), "");
}

#[test]
fn events_do_not_depend_on_chunking() {
    let body = format!(
        "{}{}data: {{\"error\":{{\"message\":\"m\"}}}}\n\n{}data: [DONE]\n\n",
        delta("Hel"),
        delta("lo"),
        delta("ignored")
    );
    let bytes = body.as_bytes();
    let mut whole = Engine::new(true, 1);
    whole.on_status(200);
    let expected = whole.on_chunk(bytes);
    assert_eq!(
        expected.events,
        vec![update("Hel"), update("Hello"), StreamEvent::Retrying(RetryCause::Upstream, 1)]
    );
    for cut in 0..=bytes.len() {
        let mut e = Engine::new(true, 1);
        e.on_status(200);
        let mut events = Vec::new();
        for part in [&bytes[..cut], &bytes[cut..]] {
            events.extend(e.on_chunk(part).events);
        }
        assert_eq!(events, expected.events);
        assert_eq!(e.phase(), whole.phase());
        assert_eq!(e.retries(), whole.retries());
        assert_eq!(e.message(), whole.message());
    }
}
