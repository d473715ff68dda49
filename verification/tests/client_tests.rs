use chat_client::api::{
    ChatRequest, Message, MessageChoice, OAIError, OpenAI, Response, Role, TransportFailure,
    Usage, API_KEY_VARIABLE, CHAT_COMPLETIONS_URL, DEFAULT_MODEL,
};
use chat_client::session::{Action, Event, Session};
use chat_client::wire::{chat_body_to_json, choices_from_json, messages_to_json};
use serde_json::Value;

const COMPLETION: &str = r#"{
  "id": "chatcmpl-123",
  "object": "chat.completion",
  "created": 1677652288,
  "model": "gpt-3.5-turbo-0301",
  "usage": {"prompt_tokens": 9, "completion_tokens": 12, "total_tokens": 21},
  "choices": [
    {"message": {"role": "assistant", "content": "Hello there!"}, "finish_reason": "stop", "index": 0},
    {"message": {"role": "assistant", "content": "Second"}, "finish_reason": "length", "index": 1}
  ]
}"#;

fn message(role: Role, content: &str) -> Message {
    Message { role, content: content.to_string() }
}

fn json(text: &str) -> Value {
    serde_json::from_str(text).unwrap()
}

fn completion_with(member: &str, replacement: &str) -> String {
    let mut document = json(COMPLETION);
    document[member] = json(replacement);
    document.to_string()
}

fn completion_with_text(member: &str, written: &str) -> String {
    let end = COMPLETION.rfind('}').unwrap();
    format!("{}, \"{}\": {}}}", &COMPLETION[..end], member, written)
}

#[test]
fn constants_name_the_endpoint_and_the_model() {
    assert_eq!(CHAT_COMPLETIONS_URL, "https://api.openai.com/v1/chat/completions");
    assert_eq!(DEFAULT_MODEL, "gpt-3.5-turbo");
    assert_eq!(API_KEY_VARIABLE, "OPENAI_API_KEY");
}

#[test]
fn chat_request_carries_key_headers_and_body() {
    let api = OpenAI::new("sk-test");
    let messages = vec![message(Role::System, "Be brief."), message(Role::User, "Hello")];
    let request = api.chat_request("gpt-3.5-turbo", &messages);
    assert_eq!(request.method, "POST");
    assert_eq!(request.url, "https://api.openai.com/v1/chat/completions");
    assert_eq!(request.content_type, "application/json");
    assert_eq!(request.authorization, "Bearer sk-test");
    assert_eq!(
        json(&request.body),
        json(
            r#"{"model": "gpt-3.5-turbo", "messages": [
                {"role": "system", "content": "Be brief."},
                {"role": "user", "content": "Hello"}]}"#
        )
    );
}

#[test]
fn chat_request_body_is_compact_json_text() {
    let api = OpenAI::new("k");
    let messages = vec![message(Role::User, "say \"hi\"\n")];
    let request = api.chat_request("m", &messages);
    assert_eq!(
        request.body,
        r#"{"messages":[{"content":"say \"hi\"\n","role":"user"}],"model":"m"}"#
    );
}

#[test]
fn chat_request_with_no_messages_has_an_empty_array() {
    let request = OpenAI::new("k").chat_request("m", &[]);
    assert_eq!(json(&request.body), json(r#"{"model": "m", "messages": []}"#));
}

#[test]
fn authorization_is_bearer_and_the_key() {
    assert_eq!(OpenAI::new("abc").authorization(), "Bearer abc");
    assert_eq!(OpenAI::new("").authorization(), "Bearer ");
}

#[test]
fn message_to_json_has_role_and_content() {
    let value = message(Role::Assistant, "Hi").to_json();
    assert_eq!(value, json(r#"{"role": "assistant", "content": "Hi"}"#));
}

#[test]
fn messages_to_json_keeps_the_order() {
    let value = messages_to_json(&[message(Role::User, "1"), message(Role::Assistant, "2")]);
    assert_eq!(
        value,
        json(r#"[{"role": "user", "content": "1"}, {"role": "assistant", "content": "2"}]"#)
    );
}

#[test]
fn chat_body_to_json_names_model_and_messages() {
    let value = chat_body_to_json("gpt-4", &[message(Role::User, "1")]);
    assert_eq!(value, json(r#"{"model": "gpt-4", "messages": [{"role": "user", "content": "1"}]}"#));
}

#[test]
fn message_round_trip_through_json_value() {
    for role in [Role::System, Role::User, Role::Assistant] {
        let written_message = message(role, "line one\nline \"two\" \u{e9}\u{1F600}\t\\");
        assert_eq!(Message::from_json(&written_message.to_json()), Some(written_message));
    }
}

#[test]
fn message_round_trip_through_a_response_text() {
    let written_message = message(Role::Assistant, "  spaced, \"quoted\" and\nbroken \u{4e2d}\u{6587} ");
    let written = written_message.to_json().to_string();
    let text = format!(
        r#"{{"id":"i","object":"o","created":1,"model":"m","usage":{{"prompt_tokens":1,"completion_tokens":2,"total_tokens":3}},"choices":[{{"message":{},"finish_reason":"stop","index":0}}]}}"#,
        written
    );
    let response = OpenAI::parse_response(&text).unwrap();
    assert_eq!(response.first_message(), Some(&written_message));
}

#[test]
fn message_from_json_rejects_other_shapes() {
    assert_eq!(Message::from_json(&json(r#"{"role": "user"}"#)), None);
    assert_eq!(Message::from_json(&json(r#"{"content": "x"}"#)), None);
    assert_eq!(Message::from_json(&json(r#"{"role": "User", "content": "x"}"#)), None);
    assert_eq!(Message::from_json(&json(r#"{"role": "tool", "content": "x"}"#)), None);
    assert_eq!(Message::from_json(&json(r#"{"role": 1, "content": "x"}"#)), None);
    assert_eq!(Message::from_json(&json(r#"{"role": "user", "content": null}"#)), None);
    assert_eq!(Message::from_json(&json(r#"["user", "x"]"#)), None);
    assert_eq!(Message::from_json(&json(r#""user""#)), None);
}

#[test]
fn message_from_json_ignores_other_members() {
    assert_eq!(
        Message::from_json(&json(r#"{"role": "user", "content": "x", "name": "n"}"#)),
        Some(message(Role::User, "x"))
    );
}

#[test]
fn usage_from_json_reads_three_counts() {
    assert_eq!(
        Usage::from_json(&json(
            r#"{"prompt_tokens": 0, "completion_tokens": 4294967295, "total_tokens": 7}"#
        )),
        Some(Usage { prompt_tokens: 0, completion_tokens: 4294967295, total_tokens: 7 })
    );
}

#[test]
fn usage_from_json_rejects_what_is_no_count() {
    let with = |count: &str| {
        Usage::from_json(&json(&format!(
            r#"{{"prompt_tokens": {}, "completion_tokens": 1, "total_tokens": 1}}"#,
            count
        )))
    };
    assert_eq!(with("4294967296"), None);
    assert_eq!(with("-1"), None);
    assert_eq!(with("1.0"), None);
    assert_eq!(with("1e2"), None);
    assert_eq!(with("\"1\""), None);
    assert_eq!(with("null"), None);
    assert_eq!(with("18446744073709551616"), None);
    assert_eq!(with("1"), Some(Usage { prompt_tokens: 1, completion_tokens: 1, total_tokens: 1 }));
    assert_eq!(Usage::from_json(&json(r#"{"prompt_tokens": 1, "completion_tokens": 1}"#)), None);
}

#[test]
fn choice_from_json_reads_message_reason_and_index() {
    assert_eq!(
        MessageChoice::from_json(&json(
            r#"{"message": {"role": "assistant", "content": "a"}, "finish_reason": "stop", "index": 3}"#
        )),
        Some(MessageChoice {
            message: message(Role::Assistant, "a"),
            finish_reason: "stop".to_string(),
            index: 3,
        })
    );
    assert_eq!(
        MessageChoice::from_json(&json(
            r#"{"message": {"role": "assistant", "content": "a"}, "finish_reason": null, "index": 3}"#
        )),
        None
    );
    assert_eq!(MessageChoice::from_json(&json(r#"{"finish_reason": "stop", "index": 3}"#)), None);
}

#[test]
fn choices_from_json_needs_every_item_to_be_a_choice() {
    let good = r#"{"message": {"role": "user", "content": "a"}, "finish_reason": "stop", "index": 0}"#;
    let items = vec![json(good), json(good)];
    assert_eq!(choices_from_json(&items).map(|choices| choices.len()), Some(2));
    let items = vec![json(good), json("{}"), json(good)];
    assert_eq!(choices_from_json(&items), None);
    assert_eq!(choices_from_json(&Vec::new()), Some(Vec::new()));
}

#[test]
fn parse_response_reads_every_member() {
    let response = OpenAI::parse_response(COMPLETION).unwrap();
    assert_eq!(
        response,
        Response {
            id: "chatcmpl-123".to_string(),
            object: "chat.completion".to_string(),
            created: 1677652288,
            model: "gpt-3.5-turbo-0301".to_string(),
            usage: Usage { prompt_tokens: 9, completion_tokens: 12, total_tokens: 21 },
            choices: vec![
                MessageChoice {
                    message: message(Role::Assistant, "Hello there!"),
                    finish_reason: "stop".to_string(),
                    index: 0,
                },
                MessageChoice {
                    message: message(Role::Assistant, "Second"),
                    finish_reason: "length".to_string(),
                    index: 1,
                },
            ],
        }
    );
    assert_eq!(response.clone(), response);
}

#[test]
fn response_from_json_agrees_with_parse_response() {
    assert_eq!(Response::from_json(&json(COMPLETION)), OpenAI::parse_response(COMPLETION).ok());
    assert_eq!(Response::from_json(&json("[]")), None);
}

#[test]
fn first_message_is_that_of_the_first_choice() {
    let response = OpenAI::parse_response(COMPLETION).unwrap();
    assert_eq!(response.first_message(), Some(&message(Role::Assistant, "Hello there!")));
}

#[test]
fn first_message_of_no_choices_is_none() {
    let response = OpenAI::parse_response(&completion_with("choices", "[]")).unwrap();
    assert!(response.choices.is_empty());
    assert_eq!(response.first_message(), None);
}

#[test]
fn parse_response_ignores_unknown_members() {
    let response =
        OpenAI::parse_response(&completion_with("system_fingerprint", "\"fp\"")).unwrap();
    assert_eq!(response.id, "chatcmpl-123");
}

#[test]
fn malformed_json_is_a_deserialization_error() {
    assert!(matches!(OpenAI::parse_response("not json"), Err(OAIError::SerdeError(_))));
    assert!(matches!(OpenAI::parse_response(""), Err(OAIError::SerdeError(_))));
    assert!(matches!(OpenAI::parse_response("{\"id\": "), Err(OAIError::SerdeError(_))));
    let mut twice = COMPLETION.to_string();
    twice.push_str(COMPLETION);
    assert!(matches!(OpenAI::parse_response(&twice), Err(OAIError::SerdeError(_))));
}

#[test]
fn error_payload_is_a_deserialization_error() {
    let payload = r#"{"error": {"message": "Incorrect API key", "type": "invalid_request_error"}}"#;
    assert!(matches!(OpenAI::parse_response(payload), Err(OAIError::SerdeError(_))));
}

#[test]
fn response_of_another_shape_is_a_deserialization_error() {
    for (member, replacement) in [
        ("id", "7"),
        ("object", "null"),
        ("created", "\"now\""),
        ("created", "4294967296"),
        ("created", "-5"),
        ("created", "1.5"),
        ("model", "[]"),
        ("usage", "{}"),
        ("usage", "[1, 2, 3]"),
        ("choices", "{}"),
        ("choices", "[{}]"),
        ("choices", r#"[{"message": {"role": "robot", "content": "x"}, "finish_reason": "stop", "index": 0}]"#),
    ] {
        let text = completion_with(member, replacement);
        assert!(
            matches!(OpenAI::parse_response(&text), Err(OAIError::SerdeError(_))),
            "{} = {}",
            member,
            replacement
        );
    }
    for member in ["id", "object", "created", "model", "usage", "choices"] {
        let mut document = json(COMPLETION);
        document.as_object_mut().unwrap().remove(member);
        assert!(
            matches!(OpenAI::parse_response(&document.to_string()), Err(OAIError::SerdeError(_))),
            "without {}",
            member
        );
    }
    assert!(matches!(OpenAI::parse_response("[]"), Err(OAIError::SerdeError(_))));
    assert!(matches!(OpenAI::parse_response("null"), Err(OAIError::SerdeError(_))));
}

#[test]
fn transport_failure_is_a_request_error() {
    let failure = TransportFailure { reason: "connection refused".to_string() };
    match OpenAI::completion_from(Err(failure)) {
        Err(OAIError::ReqwestError(failure)) => assert_eq!(failure.reason, "connection refused"),
        other => panic!("unexpected outcome: {:?}", other),
    }
}

#[test]
fn completion_from_reads_the_body_of_an_answer() {
    let response = OpenAI::completion_from(Ok(COMPLETION.to_string())).unwrap();
    assert_eq!(response.model, "gpt-3.5-turbo-0301");
    assert!(matches!(
        OpenAI::completion_from(Ok("not json".to_string())),
        Err(OAIError::SerdeError(_))
    ));
}

#[test]
fn error_messages() {
    let serde_error = OpenAI::parse_response("not json").unwrap_err();
    assert_eq!(serde_error.message(), "deserialization failed");
    let request_error =
        OpenAI::completion_from(Err(TransportFailure { reason: String::new() })).unwrap_err();
    assert_eq!(request_error.message(), "request failed");
}

#[test]
fn get_chat_completion_against_a_refusing_endpoint_is_a_request_error() {
    let api = OpenAI::new("key");
    let outcome = api.get_chat_completion("gpt-3.5-turbo", &[message(Role::User, "Hi")], |_| {
        Err(TransportFailure { reason: "connection refused".to_string() })
    });
    assert!(matches!(outcome, Err(OAIError::ReqwestError(_))));
}

#[test]
fn get_chat_completion_against_malformed_json_is_a_deserialization_error() {
    let api = OpenAI::new("key");
    let outcome = api.get_chat_completion("gpt-3.5-turbo", &[message(Role::User, "Hi")], |_| {
        Ok("not json".to_string())
    });
    assert!(matches!(outcome, Err(OAIError::SerdeError(_))));
}

#[test]
fn get_chat_completion_sends_one_request_and_reads_the_answer() {
    let api = OpenAI::new("key");
    let mut sent: Vec<ChatRequest> = Vec::new();
    let messages = vec![message(Role::System, "s"), message(Role::User, "Hi")];
    let outcome = api.get_chat_completion("gpt-4", &messages, |request| {
        sent.push(request);
        Ok(COMPLETION.to_string())
    });
    assert_eq!(outcome.unwrap().choices.len(), 2);
    assert_eq!(sent, vec![api.chat_request("gpt-4", &messages)]);
}

#[test]
fn single_run_with_prompt_hello_issues_one_request_with_system_and_user() {
    let api = OpenAI::new("key");
    let mut session = Session::start(None, Some("Hello".to_string()), false);
    let mut bodies: Vec<String> = Vec::new();
    let mut action = session.next_action();
    while action != Action::Stop {
        assert_eq!(action, Action::RequestCompletion);
        let response = api
            .get_chat_completion(DEFAULT_MODEL, session.messages(), |request| {
                bodies.push(request.body);
                Ok(COMPLETION.to_string())
            })
            .unwrap();
        let reply = response.first_message().unwrap().clone();
        action = session.step(Event::Reply(reply));
    }
    assert_eq!(bodies.len(), 1);
    assert_eq!(
        json(&bodies[0]),
        json(
            r#"{"model": "gpt-3.5-turbo", "messages": [
                {"role": "system", "content": "You are a helpful assistant."},
                {"role": "user", "content": "Hello"}]}"#
        )
    );
    assert_eq!(session.messages().len(), 3);
    assert_eq!(session.messages()[2], message(Role::Assistant, "Hello there!"));
}

#[test]
fn choice_clone_keeps_every_field() {
    let choice = MessageChoice {
        message: message(Role::Assistant, "a"),
        finish_reason: "stop".to_string(),
        index: 2,
    };
    assert_eq!(choice.clone(), choice);
}

#[test]
fn chat_request_does_not_depend_on_earlier_calls() {
    let api = OpenAI::new("key");
    let messages = vec![message(Role::User, "Hi")];
    let first = api.chat_request("m", &messages);
    let second = api.chat_request("m", &messages);
    assert_eq!(first, second);
}

#[test]
fn request_with_an_ordinary_key_is_sendable() {
    assert!(OpenAI::new("sk-abc_123").chat_request("m", &[]).is_sendable());
    assert!(OpenAI::new("").chat_request("m", &[]).is_sendable());
    assert!(OpenAI::new("tab\tinside").chat_request("m", &[]).is_sendable());
    assert!(OpenAI::new("cl\u{e9}").chat_request("m", &[]).is_sendable());
    assert!(OpenAI::new("~ ").chat_request("m", &[]).is_sendable());
}

#[test]
fn request_with_a_control_character_in_the_key_is_not_sendable() {
    assert!(!OpenAI::new("line\nbreak").chat_request("m", &[]).is_sendable());
    assert!(!OpenAI::new("\r").chat_request("m", &[]).is_sendable());
    assert!(!OpenAI::new("nul\u{0}").chat_request("m", &[]).is_sendable());
    assert!(!OpenAI::new("\u{1f}").chat_request("m", &[]).is_sendable());
    assert!(!OpenAI::new("del\u{7f}").chat_request("m", &[]).is_sendable());
}

#[test]
fn sendable_looks_at_both_headers() {
    let mut request = OpenAI::new("key").chat_request("m", &[]);
    request.content_type = "text/\nplain".to_string();
    assert!(!request.is_sendable());
    let mut request = OpenAI::new("key").chat_request("m\n", &[message(Role::User, "a\nb")]);
    assert!(request.is_sendable());
    request.authorization = "Bearer \u{7f}".to_string();
    assert!(!request.is_sendable());
}

#[test]
fn unknown_member_that_is_no_json_leaves_no_response() {
    let deep = format!("{}{}", "[".repeat(200), "]".repeat(200));
    assert!(matches!(
        OpenAI::parse_response(&completion_with_text("extra", &deep)),
        Err(OAIError::SerdeError(_))
    ));
    assert!(matches!(
        OpenAI::parse_response(&completion_with_text("extra", "1e999")),
        Err(OAIError::SerdeError(_))
    ));
    assert!(OpenAI::parse_response(&completion_with_text("extra", "[[1.5e3]]")).is_ok());
}
