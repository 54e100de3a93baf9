use zai_provider::decode::{BatchResponse, ResponseBlock, ResponseUsage};
use zai_provider::errors::ProviderError;
use zai_provider::model::{Content, Message, Role};
use zai_provider::provider::{ZaiProvider, ZAI_DEFAULT_FAST_MODEL, ZAI_DEFAULT_MODEL};
use zai_provider::translate::ModelConfig;

fn model(name: &str) -> ModelConfig {
    ModelConfig { model_name: name.to_string(), fast_model: None, context_limit: Some(128000), max_tokens: None }
}

#[test]
fn from_env_needs_a_key() {
    let r = ZaiProvider::from_env(model("glm-4.5"), None, None, None);
    assert!(matches!(r, Err(ProviderError::Configuration(_))));
}

#[test]
fn from_env_defaults() {
    let p = ZaiProvider::from_env(model("glm-4.6"), Some("SECRET-REDACTED".to_string()), None, None).unwrap();
    assert_eq!(p.host, "https://api.z.ai");
    assert_eq!(p.timeout_secs, 600);
    assert_eq!(p.get_name(), "zai");
    let c = p.get_model_config();
    assert_eq!(c.model_name, "glm-4.6");
    assert_eq!(c.fast_model.as_deref(), Some(ZAI_DEFAULT_FAST_MODEL));
    assert_eq!(c.context_limit, Some(128000));
    assert!(p.supports_streaming());
    let q = ZaiProvider::from_env(model("m"), Some("k".to_string()), Some("http://h".to_string()), Some(5)).unwrap();
    assert_eq!(q.host, "http://h");
    assert_eq!(q.timeout_secs, 5);
}

#[test]
fn metadata_lists_models_and_keys() {
    let m = ZaiProvider::metadata();
    assert_eq!(m.name, "zai");
    assert_eq!(m.display_name, "Z.ai");
    assert_eq!(m.default_model, ZAI_DEFAULT_MODEL);
    let models: Vec<(String, usize)> = m.known_models.iter().map(|i| (i.name.clone(), i.context_limit)).collect();
    assert_eq!(
        models,
        vec![("glm-4.6".to_string(), 200000), ("glm-4.5".to_string(), 128000), ("glm-4.5-air".to_string(), 128000)]
    );
    assert_eq!(m.config_keys.len(), 3);
    assert!(m.config_keys[0].required && m.config_keys[0].secret);
    assert_eq!(m.config_keys[2].default.as_deref(), Some("600"));
}

#[test]
fn stream_request_sets_only_the_flag() {
    let p = ZaiProvider::from_env(model("glm-4.5"), Some("k".to_string()), None, None).unwrap();
    let mut msg = Message::new(Role::User);
    msg.push(Content::Text("hi".to_string()));
    let msgs = vec![msg];
    let s = p.stream_request("sys", &msgs, &vec![]);
    let b = p.batch_request(&p.get_model_config(), "sys", &msgs, &vec![]);
    assert!(s.stream);
    assert!(!b.stream);
    assert_eq!(s.model, b.model);
    assert_eq!(s.messages[0].text, b.messages[0].text);
}

#[test]
fn complete_labels_usage_with_model() {
    let p = ZaiProvider::from_env(model("glm-4.5"), Some("k".to_string()), None, None).unwrap();
    let resp = BatchResponse {
        content: Some(vec![ResponseBlock { text: Some("OK".to_string()) }]),
        usage: Some(ResponseUsage { input_tokens: Some(5), output_tokens: Some(1) }),
    };
    let (message, usage) = p.complete_with_model(&model("glm-4.5-air"), &resp).unwrap();
    assert_eq!(message.text(), "OK");
    assert_eq!(usage.model, "glm-4.5-air");
    assert_eq!(usage.usage.total_tokens, Some(6));
}
