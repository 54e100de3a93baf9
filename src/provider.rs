use vstd::prelude::*;
use crate::decode::{BatchResponse, decode_batch, response_text, usage_ok, usage_of};
use crate::errors::ProviderError;
use crate::model::{ContentView, Message, Role, Usage};
use crate::translate::{
    ModelConfig, RequestPayload, Tool, messages_view, payload_of, tools_view,
    translate,
};

verus! {

pub const ZAI_DEFAULT_MODEL: &'static str = "glm-4.5";

pub const ZAI_DEFAULT_FAST_MODEL: &'static str = "glm-4.5-air";

pub const ZAI_DEFAULT_HOST: &'static str = "https://api.z.ai";

pub const ZAI_DEFAULT_TIMEOUT_SECS: u64 = 600;

pub const ZAI_DOC_URL: &'static str = "https://z.ai/docs";

/// The path of the messages endpoint, relative to the host.
pub const ZAI_MESSAGES_PATH: &'static str = "api/anthropic/v1/messages";

/// The header that carries the API key.
pub const ZAI_AUTH_HEADER: &'static str = "x-api-key";

pub const ZAI_VERSION_HEADER: &'static str = "anthropic-version";

pub const ZAI_API_VERSION: &'static str = "2023-06-01";

/// A model that the provider offers, with its context window in tokens.
#[derive(Debug)]
pub struct ModelInfo {
    pub name: String,
    pub context_limit: usize,
}

/// A configuration option that the provider reads.
#[derive(Debug)]
pub struct ConfigKey {
    pub name: String,
    pub required: bool,
    pub secret: bool,
    pub default: Option<String>,
}

/// What the provider advertises about itself to a registry of providers.
#[derive(Debug)]
pub struct ProviderMetadata {
    pub name: String,
    pub display_name: String,
    pub description: String,
    pub default_model: String,
    pub known_models: Vec<ModelInfo>,
    pub model_doc_link: String,
    pub config_keys: Vec<ConfigKey>,
}

/// The usage of a completion, with the model that it was made with.
#[derive(Debug)]
pub struct ProviderUsage {
    pub model: String,
    pub usage: Usage,
}

fn text(s: &str) -> (r: String)
    ensures
        r@ == s@,
{
    String::from_str(s)
}

fn model_info(name: &str, context_limit: usize) -> (r: ModelInfo)
    ensures
        r.name@ == name@,
        r.context_limit == context_limit,
{
    ModelInfo { name: text(name), context_limit }
}

fn config_key(name: &str, required: bool, secret: bool, default: Option<&str>) -> (r: ConfigKey)
    ensures
        r.name@ == name@,
        r.required == required,
        r.secret == secret,
        r.default is Some <==> default is Some,
        default is Some ==> r.default->Some_0@ == default->Some_0@,
{
    ConfigKey {
        name: text(name),
        required,
        secret,
        default: match default {
            Some(d) => Some(text(d)),
            None => None,
        },
    }
}

/// The adapter for the Z.ai messages API.
#[derive(Debug)]
pub struct ZaiProvider {
    pub host: String,
    pub api_key: String,
    pub timeout_secs: u64,
    pub model: ModelConfig,
    pub name: String,
}

impl ZaiProvider {
    /// Builds the provider from the settings read at start-up. The API key is
    /// required; the host and the timeout fall back to their defaults, and the
    /// model's fast variant is set to the default fast model.
    pub fn from_env(
        model: ModelConfig,
        api_key: Option<String>,
        host: Option<String>,
        timeout_secs: Option<u64>,
    ) -> (r: Result<ZaiProvider, ProviderError>)
        ensures
            r is Err <==> api_key is None,
            r is Err ==> r->Err_0@ is Configuration,
            r is Ok ==> {
                let p = r->Ok_0;
                &&& p.api_key@ == api_key->Some_0@
                &&& p.host@ == (if host is Some { host->Some_0@ } else { ZAI_DEFAULT_HOST@ })
                &&& p.timeout_secs == (if timeout_secs is Some { timeout_secs->Some_0 } else { ZAI_DEFAULT_TIMEOUT_SECS })
                &&& p.model.model_name@ == model.model_name@
                &&& p.model.max_tokens == model.max_tokens
                &&& p.model.context_limit == model.context_limit
                &&& p.model.fast_model is Some
                &&& p.model.fast_model->Some_0@ == ZAI_DEFAULT_FAST_MODEL@
                &&& p.name@ == "zai"@
            },
    {
        let api_key = match api_key {
            Some(k) => k,
            None => {
                return Err(ProviderError::Configuration(text("ZAI_API_KEY is not set")));
            },
        };
        let host = match host {
            Some(h) => h,
            None => text(ZAI_DEFAULT_HOST),
        };
        let timeout_secs = match timeout_secs {
            Some(t) => t,
            None => ZAI_DEFAULT_TIMEOUT_SECS,
        };
        let model = ModelConfig {
            model_name: model.model_name,
            fast_model: Some(text(ZAI_DEFAULT_FAST_MODEL)),
            context_limit: model.context_limit,
            max_tokens: model.max_tokens,
        };
        Ok(ZaiProvider { host, api_key, timeout_secs, model, name: text("zai") })
    }

    /// What the provider advertises: its identity, its models, its default
    /// model, where its models are documented, and the settings it reads.
    pub fn metadata() -> (r: ProviderMetadata)
        ensures
            r.name@ == "zai"@,
            r.display_name@ == "Z.ai"@,
            r.description@ == "Z.ai GLM models for coding assistance"@,
            r.default_model@ == ZAI_DEFAULT_MODEL@,
            r.model_doc_link@ == ZAI_DOC_URL@,
            r.known_models@.len() == 3,
            r.known_models@[0].name@ == "glm-4.6"@ && r.known_models@[0].context_limit == 200000,
            r.known_models@[1].name@ == "glm-4.5"@ && r.known_models@[1].context_limit == 128000,
            r.known_models@[2].name@ == "glm-4.5-air"@ && r.known_models@[2].context_limit == 128000,
            r.config_keys@.len() == 3,
            r.config_keys@[0].name@ == "ZAI_API_KEY"@ && r.config_keys@[0].required
                && r.config_keys@[0].secret && r.config_keys@[0].default is None,
            r.config_keys@[1].name@ == "ZAI_HOST"@ && !r.config_keys@[1].required
                && !r.config_keys@[1].secret && r.config_keys@[1].default is Some
                && r.config_keys@[1].default->Some_0@ == ZAI_DEFAULT_HOST@,
            r.config_keys@[2].name@ == "ZAI_TIMEOUT"@ && !r.config_keys@[2].required
                && !r.config_keys@[2].secret && r.config_keys@[2].default is Some
                && r.config_keys@[2].default->Some_0@ == "600"@,
    {
        let mut known_models: Vec<ModelInfo> = Vec::new();
        known_models.push(model_info("glm-4.6", 200000));
        known_models.push(model_info("glm-4.5", 128000));
        known_models.push(model_info("glm-4.5-air", 128000));
        let mut config_keys: Vec<ConfigKey> = Vec::new();
        config_keys.push(config_key("ZAI_API_KEY", true, true, None));
        config_keys.push(config_key("ZAI_HOST", false, false, Some(ZAI_DEFAULT_HOST)));
        config_keys.push(config_key("ZAI_TIMEOUT", false, false, Some("600")));
        ProviderMetadata {
            name: text("zai"),
            display_name: text("Z.ai"),
            description: text("Z.ai GLM models for coding assistance"),
            default_model: text(ZAI_DEFAULT_MODEL),
            known_models,
            model_doc_link: text(ZAI_DOC_URL),
            config_keys,
        }
    }

    pub fn get_name(&self) -> (r: &str)
        ensures
            r@ == self.name@,
    {
        self.name.as_str()
    }

    /// A copy of the provider's model settings.
    pub fn get_model_config(&self) -> (r: ModelConfig)
        ensures
            r.model_name@ == self.model.model_name@,
            r.fast_model is Some <==> self.model.fast_model is Some,
            self.model.fast_model is Some ==> r.fast_model->Some_0@ == self.model.fast_model->Some_0@,
            r.context_limit == self.model.context_limit,
            r.max_tokens == self.model.max_tokens,
    {
        ModelConfig {
            model_name: self.model.model_name.clone(),
            fast_model: match &self.model.fast_model {
                Some(f) => Some(f.clone()),
                None => None,
            },
            context_limit: self.model.context_limit,
            max_tokens: self.model.max_tokens,
        }
    }

    /// The provider decodes streamed responses.
    pub fn supports_streaming(&self) -> (r: bool)
        ensures
            r,
    {
        true
    }

    /// The request of a batch call with the given model settings.
    pub fn batch_request(
        &self,
        model_config: &ModelConfig,
        system: &str,
        messages: &Vec<Message>,
        tools: &Vec<Tool>,
    ) -> (r: RequestPayload)
        ensures
            r@ == payload_of(
                model_config.model_name@,
                model_config.max_tokens,
                system@,
                messages_view(messages@),
                tools_view(tools@),
                false,
            ),
    {
        translate(model_config, system, messages, tools, false)
    }

    /// The request of a streaming call, made with the provider's own model
    /// settings; it differs from a batch request only in its streaming flag.
    pub fn stream_request(&self, system: &str, messages: &Vec<Message>, tools: &Vec<Tool>) -> (r: RequestPayload)
        ensures
            r@ == payload_of(
                self.model.model_name@,
                self.model.max_tokens,
                system@,
                messages_view(messages@),
                tools_view(tools@),
                true,
            ),
    {
        translate(&self.model, system, messages, tools, true)
    }

    /// Ends a batch call: decodes the response into the assistant message and
    /// its usage, labelled with the model the call was made with.
    pub fn complete_with_model(
        &self,
        model_config: &ModelConfig,
        response: &BatchResponse,
    ) -> (r: Result<(Message, ProviderUsage), ProviderError>)
        ensures
            r is Ok <==> usage_ok(response.usage),
            r is Ok ==> {
                &&& r->Ok_0.0@.role == Role::Assistant
                &&& r->Ok_0.0@.content == seq![ContentView::Text(response_text(*response))]
                &&& r->Ok_0.1.usage == usage_of(response.usage)
                &&& r->Ok_0.1.model@ == model_config.model_name@
            },
            r is Err ==> r->Err_0@ is RequestFailed,
    {
        let (message, usage) = decode_batch(response)?;
        Ok((message, ProviderUsage { model: model_config.model_name.clone(), usage }))
    }
}

} // verus!
