use chat_stream::json::{is_document, read_document, ErrorInfo, FrameDoc};
use serde_json::{Number, Value};

fn object(pairs: Vec<(&str, Value)>) -> Value {
    let mut map = serde_json::Map::new();
    for (key, value) in pairs {
        map.insert(key.to_string(), value);
    }
    Value::Object(map)
}

fn text(t: &str) -> Value {
    Value::String(t.to_string())
}

#[test]
fn is_document_accepts_complete_json_only() {
    assert!(is_document("{}"));
    assert!(is_document(" {\"a\": [1, 2]} \r"));
    assert!(is_document("null"));
    assert!(!is_document(""));
    assert!(!is_document("{\"a\":"));
    assert!(!is_document("[DONE]"));
    assert!(!is_document("{} {}"));
}

#[test]
fn read_document_finds_the_first_choice() {
    let doc = object(vec![(
        "choices",
        Value::Array(vec![
            object(vec![("delta", object(vec![("content", text("one"))]))]),
            object(vec![("delta", object(vec![("content", text("two"))]))]),
        ]),
    )]);
    assert_eq!(
        read_document(&doc),
        FrameDoc { error: None, content: Some("one".to_string()) }
    );
}

#[test]
fn read_document_wants_the_right_shapes() {
    let no_array = object(vec![("choices", object(vec![("delta", text("x"))]))]);
    assert_eq!(read_document(&no_array), FrameDoc { error: None, content: None });
    let empty = object(vec![("choices", Value::Array(vec![]))]);
    assert_eq!(read_document(&empty), FrameDoc { error: None, content: None });
    let number = object(vec![(
        "choices",
        Value::Array(vec![object(vec![(
            "delta",
            object(vec![("content", Value::Number(Number::from(3)))]),
        )])]),
    )]);
    assert_eq!(read_document(&number), FrameDoc { error: None, content: None });
    assert_eq!(read_document(&Value::Null), FrameDoc { error: None, content: None });
    assert_eq!(read_document(&text("choices")), FrameDoc { error: None, content: None });
}

#[test]
fn read_document_reads_the_error_object() {
    let doc = object(vec![(
        "error",
        object(vec![
            ("message", text("overloaded")),
            ("metadata", object(vec![("raw", text("upstream said no"))])),
        ]),
    )]);
    assert_eq!(
        read_document(&doc),
        FrameDoc {
            error: Some(ErrorInfo {
                message: Some("overloaded".to_string()),
                detail: Some("upstream said no".to_string()),
            }),
            content: None,
        }
    );
    let bare = object(vec![("error", text("plain"))]);
    assert_eq!(
        read_document(&bare),
        FrameDoc { error: Some(ErrorInfo { message: None, detail: None }), content: None }
    );
    let both = object(vec![
        ("error", object(vec![("message", Value::Bool(true))])),
        (
            "choices",
            Value::Array(vec![object(vec![("delta", object(vec![("content", text("c"))]))])]),
        ),
    ]);
    assert_eq!(
        read_document(&both),
        FrameDoc {
            error: Some(ErrorInfo { message: None, detail: None }),
            content: Some("c".to_string()),
        }
    );
}
