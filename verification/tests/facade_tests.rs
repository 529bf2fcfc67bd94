use fgpt::facade::{
    chunk_body, completion_body, completions_path, error_chunk_body, error_response,
    layout_chunk, layout_completion, layout_error_chunk, sse_step, stream_mode, sync_response,
    sync_step, SseAction, SyncAction,
};
use fgpt::{
    CompletionEvent, CompletionMessage, CompletionMessageAuthor, CompletionMessageContent,
    CompletionMessageFinishDetails, CompletionMessageMeta, CompletionRequest, CompletionResponse,
    CompletionStream, Error, Message, Timestamp,
};

fn open(question: &str, at: Timestamp) -> CompletionStream {
    CompletionRequest::assemble(
        "m".to_string(),
        vec![Message { role: "user".to_string(), content: question.to_string(), content_type: None }],
        None,
        "p".to_string(),
        "w".to_string(),
        0,
    )
    .stream(200, String::new(), at)
    .unwrap()
}

fn snapshot(text: &str, finish: Option<&str>) -> CompletionResponse {
    CompletionResponse {
        message: Some(CompletionMessage {
            id: "msg".to_string(),
            author: CompletionMessageAuthor { role: "assistant".to_string(), name: None },
            content: CompletionMessageContent {
                content_type: "text".to_string(),
                parts: vec![text.to_string()],
            },
            status: "in_progress".to_string(),
            end_turn: None,
            metadata: CompletionMessageMeta {
                citations: None,
                gizmo_id: None,
                message_type: None,
                model_slug: None,
                default_model_slug: None,
                pad: None,
                parent_id: None,
                model_switcher_deny: None,
                is_visually_hidden_from_conversation: None,
                finish_details: finish
                    .map(|k| CompletionMessageFinishDetails { kind: Some(k.to_string()) }),
            },
            recipient: "all".to_string(),
        }),
        conversation_id: "conv".to_string(),
        error: None,
        delta_chars: None,
    }
}

fn at() -> Timestamp {
    Timestamp { secs: 1_700_000_000, nanos: 500_000_000 }
}

#[test]
fn facade_sync() {
    let mut stream = open("hi", at());
    let mut events = vec![
        CompletionEvent::from_line("{}".to_string(), Some(snapshot("hi there", Some("stop")))),
        CompletionEvent::from_line("[DONE]".to_string(), None),
    ]
    .into_iter();
    let response = loop {
        let event = events.next().expect("the end marker ends the loop");
        let out = stream.observe(event).expect("both events go upward");
        match sync_step(out) {
            SyncAction::Continue => {}
            SyncAction::Finish => break sync_response(&stream),
            SyncAction::Fail(e) => panic!("unexpected {:?}", e),
        }
    };
    assert_eq!(response.status, 200);
    assert_eq!(response.content_type.as_deref(), Some("application/json"));
    let value: serde_json::Value = serde_json::from_str(&response.body).unwrap();
    assert_eq!(value["choices"][0]["message"]["content"], "hi there");
    assert_eq!(value["choices"][0]["message"]["role"], "assistant");
    assert_eq!(value["choices"][0]["index"], 0);
    assert_eq!(value["choices"][0]["finish_reason"], "stop");
    assert_eq!(value["object"], "chat.completion");
    assert_eq!(value["model"], "gpt-3.5-turbo");
    assert_eq!(value["id"], stream.request_id().as_str());
    let prompt = value["usage"]["prompt_tokens"].as_i64().unwrap();
    let completion = value["usage"]["completion_tokens"].as_i64().unwrap();
    assert!(prompt > 0 && completion > 0);
    assert_eq!(value["usage"]["total_tokens"].as_i64().unwrap(), prompt + completion);
    assert_eq!(prompt, stream.prompt_tokens() as i64);
    assert_eq!(completion, stream.completion_tokens() as i64);
}

#[test]
fn facade_sse() {
    let mut stream = open("hi", at());
    let out = stream.observe(CompletionEvent::Data(snapshot("hi there", None))).unwrap();
    let data = match sse_step(&stream, &out) {
        SseAction::Send(data) => data,
        other => panic!("unexpected {:?}", other),
    };
    let value: serde_json::Value = serde_json::from_str(&data).unwrap();
    assert_eq!(value["object"], "chat.completion.chunk");
    assert_eq!(value["choices"][0]["delta"]["content"], "hi there");
    assert_eq!(value["choices"][0]["delta"]["role"], "assistant");
    assert_eq!(value["choices"][0]["finish_reason"], serde_json::Value::Null);
    assert_eq!(value["id"], stream.request_id().as_str());

    let out = stream.observe(CompletionEvent::Data(snapshot("hi there!", Some("stop")))).unwrap();
    let data = match sse_step(&stream, &out) {
        SseAction::Send(data) => data,
        other => panic!("unexpected {:?}", other),
    };
    let value: serde_json::Value = serde_json::from_str(&data).unwrap();
    assert_eq!(value["choices"][0]["delta"]["content"], "!");
    assert_eq!(value["choices"][0]["finish_reason"], "stop");

    assert!(matches!(sse_step(&stream, &CompletionEvent::Done), SseAction::End));
    assert!(matches!(sse_step(&stream, &CompletionEvent::Heartbeat), SseAction::Skip));
    assert!(matches!(
        sse_step(&stream, &CompletionEvent::Text("x".to_string())),
        SseAction::Skip
    ));
}

#[test]
fn the_completion_body_is_written_member_by_member() {
    let mut stream = open("hi", at());
    stream.observe(CompletionEvent::Data(snapshot("ok \"then\"", Some("max_tokens"))));
    let expected = format!(
        "{{\"id\":\"{}\",\"created\":1700000000.500000000,\"model\":\"gpt-3.5-turbo\",\"object\":\"chat.completion\",\"choices\":[{{\"finish_reason\":\"length\",\"index\":0,\"message\":{{\"content\":\"ok \\\"then\\\"\",\"role\":\"assistant\"}}}}],\"usage\":{{\"prompt_tokens\":{},\"completion_tokens\":{},\"total_tokens\":{}}}}}",
        stream.request_id(),
        stream.prompt_tokens(),
        stream.completion_tokens(),
        stream.total_tokens()
    );
    assert_eq!(completion_body(&stream), expected);
}

#[test]
fn the_creation_time_keeps_its_fraction() {
    let stream = open("hi", Timestamp { secs: 1_712_345_678, nanos: 123_456_789 });
    let value: serde_json::Value = serde_json::from_str(&completion_body(&stream)).unwrap();
    let created = value["created"].as_f64().unwrap();
    assert!((created - 1_712_345_678.123_456_789_f64).abs() < 1e-6);
    assert!(completion_body(&stream).contains("\"created\":1712345678.123456789,"));

    let stream = open("hi", Timestamp { secs: 0, nanos: 7 });
    assert!(completion_body(&stream).contains("\"created\":0.000000007,"));
    assert_eq!(
        serde_json::from_str::<serde_json::Value>(&completion_body(&stream)).unwrap()["choices"][0]
            ["finish_reason"],
        serde_json::Value::Null
    );
}

#[test]
fn a_chunk_carries_the_delta_or_null() {
    let stream = open("hi", at());
    let expected = format!(
        "{{\"id\":\"{}\",\"created\":1700000000.500000000,\"model\":\"gpt-3.5-turbo\",\"object\":\"chat.completion.chunk\",\"choices\":[{{\"index\":0,\"finish_reason\":null,\"delta\":{{\"content\":\"a\\nb\",\"role\":\"assistant\"}}}}]}}",
        stream.request_id()
    );
    assert_eq!(chunk_body(&stream, &Some("a\nb".to_string())), expected);
    let value: serde_json::Value =
        serde_json::from_str(&chunk_body(&stream, &None)).unwrap();
    assert_eq!(value["choices"][0]["delta"]["content"], serde_json::Value::Null);
    let value: serde_json::Value =
        serde_json::from_str(&chunk_body(&stream, &Some(String::new()))).unwrap();
    assert_eq!(value["choices"][0]["delta"]["content"], "");
}

#[test]
fn an_error_chunk_finishes_with_error() {
    let stream = open("hi", at());
    let expected = format!(
        "{{\"id\":\"{}\",\"created\":1700000000.500000000,\"model\":\"gpt-3.5-turbo\",\"object\":\"chat.completion.chunk\",\"choices\":[{{\"index\":0,\"finish_reason\":\"error\",\"delta\":{{\"content\":\"too many requests\"}}}}]}}",
        stream.request_id()
    );
    assert_eq!(error_chunk_body(&stream, "too many requests"), expected);
    match sse_step(&stream, &CompletionEvent::Error("too many requests".to_string())) {
        SseAction::SendLast(data) => assert_eq!(data, expected),
        other => panic!("unexpected {:?}", other),
    }
}

#[test]
fn the_sync_endpoint_reads_past_everything_but_the_end_and_errors() {
    assert!(matches!(sync_step(CompletionEvent::Done), SyncAction::Finish));
    assert!(matches!(sync_step(CompletionEvent::Heartbeat), SyncAction::Continue));
    assert!(matches!(sync_step(CompletionEvent::Text("x".to_string())), SyncAction::Continue));
    assert!(matches!(
        sync_step(CompletionEvent::Data(snapshot("x", None))),
        SyncAction::Continue
    ));
    match sync_step(CompletionEvent::Error("bad".to_string())) {
        SyncAction::Fail(Error::Io(reason)) => assert_eq!(reason, "bad"),
        other => panic!("unexpected {:?}", other),
    }
}

#[test]
fn streaming_is_off_unless_asked_for() {
    assert!(!stream_mode(None));
    assert!(!stream_mode(Some(false)));
    assert!(stream_mode(Some(true)));
}

#[test]
fn failures_answer_with_500_and_the_message() {
    let response = error_response(&Error::Reqwest("upstream said no".to_string()));
    assert_eq!(response.status, 500);
    assert_eq!(response.content_type, None);
    assert_eq!(response.body, "Reqwest error: upstream said no");
    let response = error_response(&Error::Io("quota".to_string()));
    assert_eq!(response.body, "IO error: quota");
}

#[test]
fn the_endpoint_lives_under_the_prefix() {
    assert_eq!(completions_path("/v1"), "/v1/chat/completions");
    assert_eq!(completions_path(""), "/chat/completions");
    assert_eq!(completions_path("/api/openai"), "/api/openai/chat/completions");
}

#[test]
fn bodies_are_laid_out_around_their_values() {
    let at = Timestamp { secs: 12, nanos: 34 };
    assert_eq!(
        layout_completion("ID", at, "F", "C", 3, 4),
        r#"{"id":ID,"created":12.000000034,"model":"gpt-3.5-turbo","object":"chat.completion","choices":[{"finish_reason":F,"index":0,"message":{"content":C,"role":"assistant"}}],"usage":{"prompt_tokens":3,"completion_tokens":4,"total_tokens":7}}"#
    );
    assert_eq!(
        layout_chunk("ID", at, "F", "D"),
        r#"{"id":ID,"created":12.000000034,"model":"gpt-3.5-turbo","object":"chat.completion.chunk","choices":[{"index":0,"finish_reason":F,"delta":{"content":D,"role":"assistant"}}]}"#
    );
    assert_eq!(
        layout_error_chunk("ID", at, "R"),
        r#"{"id":ID,"created":12.000000034,"model":"gpt-3.5-turbo","object":"chat.completion.chunk","choices":[{"index":0,"finish_reason":"error","delta":{"content":R}}]}"#
    );
}

#[test]
fn the_total_of_two_full_counts_does_not_wrap() {
    let at = Timestamp { secs: 0, nanos: 0 };
    let body = layout_completion("1", at, "null", "\"\"", i32::MAX, i32::MAX);
    let value: serde_json::Value = serde_json::from_str(&body).unwrap();
    assert_eq!(value["usage"]["total_tokens"].as_i64(), Some(2 * (i32::MAX as i64)));
}
