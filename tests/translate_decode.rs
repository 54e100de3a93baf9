use zai_provider::decode::{decode_batch, decode_usage, BatchResponse, ResponseBlock, ResponseUsage};
use zai_provider::errors::ProviderError;
use zai_provider::model::{Content, Message, Role, Usage};
use zai_provider::translate::{encode_message, translate, ModelConfig, Tool, DEFAULT_MAX_TOKENS};

fn config(name: &str, max_tokens: Option<u32>) -> ModelConfig {
    ModelConfig { model_name: name.to_string(), fast_model: None, context_limit: None, max_tokens }
}

fn text_message(role: Role, text: &str) -> Message {
    let mut m = Message::new(role);
    m.push(Content::Text(text.to_string()));
    m
}

fn response(texts: Vec<Option<&str>>, usage: Option<ResponseUsage>) -> BatchResponse {
    BatchResponse {
        content: Some(texts.into_iter().map(|t| ResponseBlock { text: t.map(|s| s.to_string()) }).collect()),
        usage,
    }
}

#[test]
fn scenario_hello_ok() {
    let messages = vec![text_message(Role::User, "Hello, can you respond with just 'OK'?")];
    let payload = translate(&config("glm-4.5", None), "You are a helpful assistant.", &messages, &vec![], false);
    assert_eq!(payload.model, "glm-4.5");
    assert_eq!(payload.max_tokens, 8192);
    assert_eq!(payload.system.as_deref(), Some("You are a helpful assistant."));
    assert_eq!(payload.messages.len(), 1);
    assert_eq!(payload.messages[0].role, Role::User);
    assert_eq!(payload.messages[0].text, "Hello, can you respond with just 'OK'?");
    assert!(!payload.stream);

    let resp = response(vec![Some("OK")], Some(ResponseUsage { input_tokens: Some(5), output_tokens: Some(1) }));
    let (message, usage) = decode_batch(&resp).unwrap();
    assert_eq!(message.role, Role::Assistant);
    assert_eq!(message.text(), "OK");
    assert_eq!(usage, Usage { input_tokens: Some(5), output_tokens: Some(1), total_tokens: Some(6) });
}

#[test]
fn missing_content_gives_empty_text() {
    let resp = BatchResponse { content: None, usage: None };
    let (message, usage) = decode_batch(&resp).unwrap();
    assert_eq!(message.role, Role::Assistant);
    assert_eq!(message.text(), "");
    assert_eq!(usage, Usage { input_tokens: None, output_tokens: None, total_tokens: None });
}

#[test]
fn first_text_block_wins() {
    let resp = response(vec![None, Some("first"), Some("second")], None);
    let (message, _) = decode_batch(&resp).unwrap();
    assert_eq!(message.text(), "first");
    let empty = response(vec![None, None], None);
    assert_eq!(decode_batch(&empty).unwrap().0.text(), "");
}

#[test]
fn missing_counter_stays_absent() {
    let u = decode_usage(Some(ResponseUsage { input_tokens: Some(0), output_tokens: None })).unwrap();
    assert_eq!(u, Usage { input_tokens: Some(0), output_tokens: None, total_tokens: None });
}

#[test]
fn negative_counter_is_request_failure() {
    let resp = response(vec![Some("x")], Some(ResponseUsage { input_tokens: Some(-1), output_tokens: Some(1) }));
    assert!(matches!(decode_batch(&resp), Err(ProviderError::RequestFailed(_))));
}

#[test]
fn text_round_trips() {
    let original = text_message(Role::User, "round trip text");
    let wire = encode_message(&original);
    assert_eq!(wire.text, "round trip text");
    let resp = response(vec![Some(wire.text.as_str())], None);
    let (decoded, _) = decode_batch(&resp).unwrap();
    assert_eq!(decoded.text(), original.text());
}

#[test]
fn payload_keeps_count_and_roles() {
    let messages = vec![
        text_message(Role::User, "a"),
        text_message(Role::Assistant, "b"),
        text_message(Role::User, "c"),
    ];
    let payload = translate(&config("glm-4.6", Some(100)), "", &messages, &vec![], true);
    assert_eq!(payload.messages.len(), 3);
    let roles: Vec<Role> = payload.messages.iter().map(|m| m.role).collect();
    assert_eq!(roles, vec![Role::User, Role::Assistant, Role::User]);
    assert_eq!(payload.system, None);
    assert_eq!(payload.max_tokens, 100);
    assert!(payload.stream);
}

#[test]
fn translate_twice_is_identical() {
    let messages = vec![text_message(Role::User, "same")];
    let tools = vec![Tool { name: "t".to_string(), description: "d".to_string(), input_schema: "{}".to_string() }];
    let a = translate(&config("m", None), "sys", &messages, &tools, false);
    let b = translate(&config("m", None), "sys", &messages, &tools, false);
    assert_eq!(format!("{:?}", a), format!("{:?}", b));
    assert_eq!(a.tools.len(), 1);
    assert_eq!(a.tools[0].name, "t");
}

#[test]
fn text_blocks_join_and_tools_stay_typed() {
    let mut m = Message::new(Role::Assistant);
    m.push(Content::Text("Hel".to_string()));
    m.push(Content::ToolRequest { id: "1".to_string(), name: "ls".to_string(), arguments: "{}".to_string() });
    m.push(Content::Text("lo".to_string()));
    m.push(Content::ToolResponse { id: "1".to_string(), output: "ok".to_string() });
    let wire = encode_message(&m);
    assert_eq!(wire.text, "Hello");
    assert_eq!(wire.tool_items.len(), 2);
    assert!(matches!(&wire.tool_items[0], Content::ToolRequest { name, .. } if name == "ls"));
    assert!(matches!(&wire.tool_items[1], Content::ToolResponse { output, .. } if output == "ok"));
    assert_eq!(DEFAULT_MAX_TOKENS, 8192);
}

#[test]
fn usage_total_is_derived() {
    assert_eq!(Usage::new(Some(2), Some(3)).total_tokens, Some(5));
    assert_eq!(Usage::new(None, Some(3)).total_tokens, None);
    assert_eq!(Usage::new(Some(u64::MAX), Some(1)).total_tokens, None);
}
