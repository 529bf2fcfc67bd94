use fgpt::driver::{build_messages, drive, extend_question, parse_repl_line};
use fgpt::{
    CompletionEvent, CompletionRequest, CompletionResponse, CompletionResult, Conversation,
    DriverAction, Message, ReplCommand, Timestamp,
};

fn data(delta: Option<&str>) -> CompletionEvent {
    CompletionEvent::Data(CompletionResponse {
        message: None,
        conversation_id: "c".to_string(),
        error: None,
        delta_chars: delta.map(|d| d.to_string()),
    })
}

#[test]
fn a_delta_goes_to_the_sink() {
    match drive(data(Some(", world"))) {
        DriverAction::Emit(text) => assert_eq!(text, ", world"),
        other => panic!("unexpected {:?}", other),
    }
}

#[test]
fn empty_and_missing_deltas_are_passed_over() {
    assert!(matches!(drive(data(Some(""))), DriverAction::Continue));
    assert!(matches!(drive(data(None)), DriverAction::Continue));
}

#[test]
fn the_end_marker_finishes_and_errors_fail() {
    assert!(matches!(drive(CompletionEvent::Done), DriverAction::Finish));
    match drive(CompletionEvent::Error("quota".to_string())) {
        DriverAction::Fail(reason) => assert_eq!(reason, "quota"),
        other => panic!("unexpected {:?}", other),
    }
}

#[test]
fn heartbeats_and_text_show_nothing() {
    assert!(matches!(drive(CompletionEvent::Heartbeat), DriverAction::Continue));
    assert!(matches!(drive(CompletionEvent::Text("noise".to_string())), DriverAction::Continue));
}

#[test]
fn the_result_is_what_the_stream_holds() {
    let request = CompletionRequest::assemble(
        "m".to_string(),
        vec![],
        None,
        "p".to_string(),
        "w".to_string(),
        0,
    );
    let mut stream = request.stream(200, String::new(), Timestamp { secs: 1, nanos: 2 }).unwrap();
    let empty = stream.result();
    assert_eq!(empty.textbuf, "");
    assert_eq!(empty.conversation_id, None);
    assert_eq!(empty.last_message_id, None);
    assert_eq!(empty.finish_reason, None);

    let snapshot = CompletionResponse {
        message: Some(fgpt::CompletionMessage {
            id: "msg".to_string(),
            author: fgpt::CompletionMessageAuthor { role: "assistant".to_string(), name: None },
            content: fgpt::CompletionMessageContent {
                content_type: "text".to_string(),
                parts: vec!["Hello, world".to_string()],
            },
            status: "finished_successfully".to_string(),
            end_turn: Some(true),
            metadata: fgpt::CompletionMessageMeta {
                citations: None,
                gizmo_id: None,
                message_type: None,
                model_slug: None,
                default_model_slug: None,
                pad: None,
                parent_id: None,
                model_switcher_deny: None,
                is_visually_hidden_from_conversation: None,
                finish_details: Some(fgpt::CompletionMessageFinishDetails {
                    kind: Some("stop".to_string()),
                }),
            },
            recipient: "all".to_string(),
        }),
        conversation_id: "conv".to_string(),
        error: None,
        delta_chars: None,
    };
    stream.observe(CompletionEvent::Data(snapshot));
    let totals = stream.result();
    assert_eq!(totals.textbuf, "Hello, world");
    assert_eq!(totals.conversation_id.as_deref(), Some("conv"));
    assert_eq!(totals.last_message_id.as_deref(), Some("msg"));
    assert_eq!(totals.finish_reason.as_deref(), Some("stop"));
}

fn shape(messages: &[Message]) -> Vec<(String, String, Option<String>)> {
    messages.iter().map(|m| (m.role.clone(), m.content.clone(), m.content_type.clone())).collect()
}

fn turn(role: &str, content: &str) -> (String, String, Option<String>) {
    (role.to_string(), content.to_string(), Some("text".to_string()))
}

#[test]
fn the_turns_come_in_order() {
    let messages = build_messages(
        Some("You write code.".to_string()),
        Some("sort a list".to_string()),
        Some("fn main() {}".to_string()),
        Some("piped".to_string()),
    );
    assert_eq!(
        shape(&messages),
        vec![
            turn("system", "You write code."),
            turn("user", "sort a list"),
            turn("user", "fn main() {}"),
            turn("user", "piped"),
        ]
    );
}

#[test]
fn absent_turns_are_left_out() {
    assert!(build_messages(None, None, None, None).is_empty());
    assert_eq!(
        shape(&build_messages(None, Some("q".to_string()), None, None)),
        vec![turn("user", "q")]
    );
    assert_eq!(
        shape(&build_messages(None, None, None, Some("in".to_string()))),
        vec![turn("user", "in")]
    );
    assert_eq!(
        shape(&build_messages(Some("p".to_string()), None, Some("f".to_string()), None)),
        vec![turn("system", "p"), turn("user", "f")]
    );
}

#[test]
fn the_prompt_understands_its_commands() {
    assert!(matches!(parse_repl_line("/exit"), ReplCommand::Exit));
    assert!(matches!(parse_repl_line("/bye"), ReplCommand::Exit));
    assert!(matches!(parse_repl_line("/help"), ReplCommand::Help));
    assert!(matches!(parse_repl_line("/reset"), ReplCommand::Reset));
    assert!(matches!(parse_repl_line(""), ReplCommand::Empty));
}

#[test]
fn other_lines_are_questions() {
    match parse_repl_line("what is a monad?") {
        ReplCommand::Ask(question) => assert_eq!(question, "what is a monad?"),
        other => panic!("unexpected {:?}", other),
    }
    match parse_repl_line("/exit now") {
        ReplCommand::Ask(question) => assert_eq!(question, "/exit now"),
        other => panic!("unexpected {:?}", other),
    }
    match parse_repl_line("/EXIT") {
        ReplCommand::Ask(question) => assert_eq!(question, "/EXIT"),
        other => panic!("unexpected {:?}", other),
    }
}

#[test]
fn a_backslash_at_the_end_continues_the_question() {
    match parse_repl_line("first line\\") {
        ReplCommand::More(head) => assert_eq!(head, "first line"),
        other => panic!("unexpected {:?}", other),
    }
    match parse_repl_line("\\") {
        ReplCommand::More(head) => assert_eq!(head, ""),
        other => panic!("unexpected {:?}", other),
    }
    match parse_repl_line("héé\\") {
        ReplCommand::More(head) => assert_eq!(head, "héé"),
        other => panic!("unexpected {:?}", other),
    }
    match parse_repl_line("a\\b") {
        ReplCommand::Ask(question) => assert_eq!(question, "a\\b"),
        other => panic!("unexpected {:?}", other),
    }
}

#[test]
fn a_continued_question_grows_line_by_line() {
    let mut pending = String::new();
    extend_question(&mut pending, "first");
    assert_eq!(pending, "first\n");
    extend_question(&mut pending, "second");
    assert_eq!(pending, "first\nsecond\n");
    extend_question(&mut pending, "");
    assert_eq!(pending, "first\nsecond\n\n");
}

#[test]
fn a_conversation_starts_below_a_fresh_message() {
    let first = Conversation::fresh();
    let second = Conversation::fresh();
    assert_eq!(first.conversation_id, None);
    assert_eq!(first.parent_message_id.as_ref().map(|id| id.len()), Some(36));
    assert_ne!(first.parent_message_id, second.parent_message_id);
    let given = Conversation::starting_at("root".to_string());
    assert_eq!(given.conversation_id, None);
    assert_eq!(given.parent_message_id.as_deref(), Some("root"));
}

#[test]
fn a_conversation_follows_the_last_reply() {
    let mut conversation = Conversation::starting_at("root".to_string());
    conversation.follow(CompletionResult {
        textbuf: "Hello".to_string(),
        conversation_id: Some("conv-1".to_string()),
        last_message_id: Some("msg-1".to_string()),
        finish_reason: Some("stop".to_string()),
    });
    assert_eq!(conversation.conversation_id.as_deref(), Some("conv-1"));
    assert_eq!(conversation.parent_message_id.as_deref(), Some("msg-1"));
    conversation.follow(CompletionResult {
        textbuf: String::new(),
        conversation_id: None,
        last_message_id: None,
        finish_reason: None,
    });
    assert_eq!(conversation.conversation_id, None);
    assert_eq!(conversation.parent_message_id, None);
}
