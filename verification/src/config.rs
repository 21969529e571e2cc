//! The part of the configuration that says which providers there are.

use vstd::prelude::*;

verus! {

/// The protocol that a provider speaks.
#[derive(Clone, Copy, Debug, PartialEq, Eq, Structural)]
pub enum ApiFormat {
    OpenAiCompletions,
    OpenAiResponses,
    Anthropic,
    AnthropicMessages,
    Gemini,
    Ollama,
}

/// What is configured of one provider. `api_key` is the key where it is
/// written out in the configuration.
#[derive(Debug, PartialEq, Eq)]
pub struct ProviderConfig {
    pub api_key: Option<String>,
    pub base_url: Option<String>,
    pub api: Option<ApiFormat>,
    pub user_agent: Option<String>,
}

/// The configured providers, by name.
#[derive(Debug, PartialEq, Eq)]
pub struct ModelsConfig {
    pub providers: Vec<(String, ProviderConfig)>,
}

#[derive(Debug, PartialEq, Eq)]
pub struct ModelConfig {
    pub models: Option<ModelsConfig>,
}

#[derive(Debug, PartialEq, Eq)]
pub struct GatewayConfig {
    pub user_agent: Option<String>,
}

/// What a model name stands for: the provider `alias`, or else the provider
/// of `model`, which is written `provider/model`.
#[derive(Debug, PartialEq, Eq)]
pub struct ModelAlias {
    pub alias: Option<String>,
    pub model: Option<String>,
}

#[derive(Debug, PartialEq, Eq)]
pub struct AgentDefaults {
    pub models: Option<Vec<(String, ModelAlias)>>,
}

#[derive(Debug, PartialEq, Eq)]
pub struct AgentsConfig {
    pub defaults: AgentDefaults,
}

/// The configuration of a running gateway.
#[derive(Debug, PartialEq, Eq)]
pub struct RuntimeConfig {
    pub model: ModelConfig,
    pub gateway: GatewayConfig,
    pub agents: AgentsConfig,
}

} // verus!
