//! Which providers a gateway knows: those of the configuration, and beside
//! them those for which the environment holds a key.

use crate::config::{ApiFormat, ModelAlias, ProviderConfig, RuntimeConfig};
use crate::environment::{variable, Environment};
use crate::name_map::NameMap;
use crate::provider::codex_proxy::{codex_proxy, CodexProxyProvider, CODEX_PROXY_DEFAULT_BASE};
use crate::provider::registry::{
    Aliases, OpenAiMode, Provider, ProviderModel, ProviderRegistry, Providers,
};
use crate::text::{
    before_first, first_of, followed_by, head_before, option_text, or_default, same_text,
    text_or_empty,
};
use vstd::prelude::*;

verus! {

/// Environment variables by name.
pub type Vars = Map<Seq<char>, Seq<char>>;

/// Whether every character of the text is ASCII.
pub open spec fn all_ascii(text: Seq<char>) -> bool {
    forall|i: int| 0 <= i < text.len() ==> #[trigger] text[i] <= '\u{7f}'
}

/// An ASCII character as a capital, where it is a letter.
pub open spec fn ascii_capital(c: char) -> char {
    if 'a' <= c <= 'z' {
        (c as u32 - 32) as char
    } else {
        c
    }
}

/// What `str::to_uppercase` makes of a text that is not all ASCII.
pub uninterp spec fn uppercase(text: Seq<char>) -> Seq<char>;

/// The text in capitals.
pub open spec fn in_capitals(text: Seq<char>) -> Seq<char> {
    if all_ascii(text) {
        text.map_values(|c: char| ascii_capital(c))
    } else {
        uppercase(text)
    }
}

/// `str::to_uppercase`: in ASCII text the letters `a` to `z` become `A` to `Z`
/// and nothing else changes; what becomes of other text depends on the text
/// alone.
#[verifier::external_body]
fn to_uppercase(text: &str) -> (capitals: String)
    ensures
        capitals@ == (if all_ascii(text@) {
            text@.map_values(|c: char| ascii_capital(c))
        } else {
            uppercase(text@)
        }),
{
    text.to_uppercase()
}

/// The variable that holds the key of a provider: its name in capitals, and
/// `_API_KEY`.
pub open spec fn key_variable(name: Seq<char>) -> Seq<char> {
    in_capitals(name) + "_API_KEY"@
}

/// The address of a provider that is known by its name.
pub open spec fn well_known_base(name: Seq<char>) -> Option<Seq<char>> {
    if name == "codex-proxy"@ || name == "codex"@ {
        Some(CODEX_PROXY_DEFAULT_BASE@)
    } else if name == "qwen"@ {
        Some("https://dashscope.aliyuncs.com/compatible-mode/v1"@)
    } else if name == "deepseek"@ {
        Some("https://api.deepseek.com/v1"@)
    } else if name == "kimi"@ || name == "moonshot"@ {
        Some("https://api.moonshot.cn/v1"@)
    } else if name == "zhipu"@ {
        Some("https://open.bigmodel.cn/api/paas/v4"@)
    } else if name == "minimax"@ {
        Some("https://api.minimaxi.com/v1"@)
    } else if name == "siliconflow"@ {
        Some("https://api.siliconflow.cn/v1"@)
    } else if name == "groq"@ {
        Some("https://api.groq.com/openai/v1"@)
    } else if name == "openrouter"@ {
        Some("https://openrouter.ai/api/v1"@)
    } else if name == "gaterouter"@ {
        Some("https://api.gaterouter.ai/openai/v1"@)
    } else if name == "grok"@ || name == "xai"@ {
        Some("https://api.x.ai/v1"@)
    } else {
        None
    }
}

/// The protocol of a provider that is known by its name.
pub open spec fn inferred_format(name: Seq<char>) -> ApiFormat {
    if name == "anthropic"@ {
        ApiFormat::Anthropic
    } else if name == "gemini"@ {
        ApiFormat::Gemini
    } else if name == "doubao"@ || name == "bytedance"@ {
        ApiFormat::OpenAiResponses
    } else if name == "ollama"@ {
        ApiFormat::Ollama
    } else {
        ApiFormat::OpenAiCompletions
    }
}

/// The provider that a name, its configuration and the user agent of the
/// gateway stand for, in an environment in which `named_key` is the key under
/// the provider's own name.
pub open spec fn configured(
    name: Seq<char>,
    config: ProviderConfig,
    gateway_user_agent: Option<Seq<char>>,
    named_key: Option<Seq<char>>,
    vars: Vars,
) -> ProviderModel {
    let key = first_of(option_text(config.api_key), named_key);
    let base_url = first_of(option_text(config.base_url), well_known_base(name));
    let user_agent = first_of(option_text(config.user_agent), gateway_user_agent);
    let format = or_default(config.api, inferred_format(name));
    let openai_key = first_of(key, variable(vars, "OPENAI_API_KEY"@));
    if name == "codex-proxy"@ || name == "codex"@ {
        ProviderModel::CodexProxy(
            codex_proxy(or_default(base_url, CODEX_PROXY_DEFAULT_BASE@), user_agent, vars),
        )
    } else if name == "anthropic"@ || format == ApiFormat::Anthropic || format
        == ApiFormat::AnthropicMessages {
        ProviderModel::Anthropic {
            api_key: text_or_empty(first_of(key, variable(vars, "ANTHROPIC_API_KEY"@))),
            base_url,
            user_agent,
        }
    } else if name == "gemini"@ || format == ApiFormat::Gemini {
        ProviderModel::Gemini {
            api_key: text_or_empty(first_of(key, variable(vars, "GEMINI_API_KEY"@))),
            base_url,
            user_agent,
        }
    } else if format == ApiFormat::Ollama {
        ProviderModel::OpenAi {
            mode: OpenAiMode::Ollama,
            base_url: Some(or_default(base_url, "http://localhost:11434"@)),
            api_key: openai_key,
            user_agent,
        }
    } else {
        ProviderModel::OpenAi {
            mode: if format == ApiFormat::OpenAiResponses {
                OpenAiMode::Responses
            } else {
                OpenAiMode::Completions
            },
            base_url,
            api_key: openai_key,
            user_agent,
        }
    }
}

/// The configured providers, by name: of two with the same name the later one
/// counts.
pub open spec fn configured_providers(
    providers: Seq<(String, ProviderConfig)>,
    gateway_user_agent: Option<Seq<char>>,
    vars: Vars,
) -> Providers
    decreases providers.len(),
{
    if providers.len() == 0 {
        Map::empty()
    } else {
        let (name, config) = providers.last();
        configured_providers(providers.drop_last(), gateway_user_agent, vars).insert(
            name@,
            configured(
                name@,
                config,
                gateway_user_agent,
                variable(vars, key_variable(name@)),
                vars,
            ),
        )
    }
}

/// The providers of a configuration, by name.
pub open spec fn providers_of(config: RuntimeConfig, vars: Vars) -> Providers {
    match config.model.models {
        Some(models) => configured_providers(
            models.providers@,
            option_text(config.gateway.user_agent),
            vars,
        ),
        None => Map::empty(),
    }
}

/// A provider that is made known under a name that no other has: none where
/// the environment holds no key for it.
pub struct Offer {
    pub name: Seq<char>,
    pub provider: Option<ProviderModel>,
}

/// The providers once an offer is made: it is taken up where there is a
/// provider in it and the name is free.
pub open spec fn with_offer(providers: Providers, offer: Offer) -> Providers {
    match offer.provider {
        Some(provider) => if providers.contains_key(offer.name) {
            providers
        } else {
            providers.insert(offer.name, provider)
        },
        None => providers,
    }
}

/// The providers once some offers are made, one after the other.
pub open spec fn with_offers(providers: Providers, offers: Seq<Offer>) -> Providers
    decreases offers.len(),
{
    if offers.len() == 0 {
        providers
    } else {
        with_offer(with_offers(providers, offers.drop_last()), offers.last())
    }
}

/// A provider that speaks OpenAI's protocol, by name, with its address and
/// the variable that holds its key.
pub struct CompatModel {
    pub name: Seq<char>,
    pub base_url: Seq<char>,
    pub env_key: Seq<char>,
}

/// A row of the table below.
pub open spec fn compat(name: Seq<char>, base_url: Seq<char>, env_key: Seq<char>) -> CompatModel {
    CompatModel { name, base_url, env_key }
}

/// The providers that speak OpenAI's protocol and are known by name.
pub open spec fn compat_table() -> Seq<CompatModel> {
    seq![
        compat("groq"@, "https://api.groq.com/openai/v1"@, "GROQ_API_KEY"@),
        compat("deepseek"@, "https://api.deepseek.com/v1"@, "DEEPSEEK_API_KEY"@),
        compat("mistral"@, "https://api.mistral.ai/v1"@, "MISTRAL_API_KEY"@),
        compat("together"@, "https://api.together.xyz/v1"@, "TOGETHER_API_KEY"@),
        compat("openrouter"@, "https://openrouter.ai/api/v1"@, "OPENROUTER_API_KEY"@),
        compat("xai"@, "https://api.x.ai/v1"@, "XAI_API_KEY"@),
        compat("cerebras"@, "https://api.cerebras.ai/v1"@, "CEREBRAS_API_KEY"@),
        compat("fireworks"@, "https://api.fireworks.ai/inference/v1"@, "FIREWORKS_API_KEY"@),
        compat("perplexity"@, "https://api.perplexity.ai"@, "PERPLEXITY_API_KEY"@),
        compat("cohere"@, "https://api.cohere.com/v2"@, "COHERE_API_KEY"@),
        compat("huggingface"@, "https://api-inference.huggingface.co/v1"@, "HF_API_KEY"@),
        compat("siliconflow"@, "https://api.siliconflow.cn/v1"@, "SILICONFLOW_API_KEY"@),
        compat(
            "qwen"@,
            "https://dashscope.aliyuncs.com/compatible-mode/v1"@,
            "DASHSCOPE_API_KEY"@,
        ),
        compat("kimi"@, "https://api.moonshot.cn/v1"@, "MOONSHOT_API_KEY"@),
        compat("moonshot"@, "https://api.moonshot.cn/v1"@, "MOONSHOT_API_KEY"@),
        compat("zhipu"@, "https://open.bigmodel.cn/api/paas/v4"@, "ZHIPU_API_KEY"@),
        compat("baichuan"@, "https://api.baichuan-ai.com/v1"@, "BAICHUAN_API_KEY"@),
        compat("minimax"@, "https://api.minimaxi.com/v1"@, "MINIMAX_API_KEY"@),
        compat("stepfun"@, "https://api.stepfun.com/v1"@, "STEPFUN_API_KEY"@),
        compat("lingyi"@, "https://api.lingyiwanwu.com/v1"@, "LINGYI_API_KEY"@),
        compat("baidu"@, "https://qianfan.baidubce.com/v2"@, "QIANFAN_API_KEY"@),
        compat("gaterouter"@, "https://api.gaterouter.ai/openai/v1"@, "GATEROUTER_API_KEY"@),
        compat("infini"@, "https://cloud.infini-ai.com/maas/v1"@, "INFINI_API_KEY"@),
    ]
}

/// A provider that speaks OpenAI's protocol, where there is a key for it.
pub open spec fn keyed_openai(
    mode: OpenAiMode,
    base_url: Option<Seq<char>>,
    key: Option<Seq<char>>,
) -> Option<ProviderModel> {
    match key {
        Some(key) => Some(
            ProviderModel::OpenAi { mode, base_url, api_key: Some(key), user_agent: None },
        ),
        None => None,
    }
}

/// What is offered under the name `anthropic`.
pub open spec fn anthropic_offer(vars: Vars) -> Offer {
    Offer {
        name: "anthropic"@,
        provider: match variable(vars, "ANTHROPIC_API_KEY"@) {
            Some(api_key) => Some(
                ProviderModel::Anthropic { api_key, base_url: None, user_agent: None },
            ),
            None => None,
        },
    }
}

/// What is offered under the name `openai`.
pub open spec fn openai_offer(vars: Vars) -> Offer {
    Offer {
        name: "openai"@,
        provider: keyed_openai(
            OpenAiMode::Completions,
            None,
            variable(vars, "OPENAI_API_KEY"@),
        ),
    }
}

/// What is offered under the name `gemini`.
pub open spec fn gemini_offer(vars: Vars) -> Offer {
    Offer {
        name: "gemini"@,
        provider: match variable(vars, "GEMINI_API_KEY"@) {
            Some(api_key) => Some(
                ProviderModel::Gemini { api_key, base_url: None, user_agent: None },
            ),
            None => None,
        },
    }
}

/// What is offered under the name `codex-proxy`: a proxy only where the
/// environment says where it is.
pub open spec fn codex_offer(vars: Vars) -> Offer {
    Offer {
        name: "codex-proxy"@,
        provider: if vars.contains_key("CODEX_PROXY_BASE_URL"@) {
            Some(ProviderModel::CodexProxy(codex_proxy(CODEX_PROXY_DEFAULT_BASE@, None, vars)))
        } else {
            None
        },
    }
}

/// What is offered for a row of the table.
pub open spec fn compat_offer(row: CompatModel, vars: Vars) -> Offer {
    Offer {
        name: row.name,
        provider: keyed_openai(
            OpenAiMode::Completions,
            Some(row.base_url),
            variable(vars, row.env_key),
        ),
    }
}

/// What is offered under a name of the Ark service.
pub open spec fn ark_offer(name: Seq<char>, vars: Vars) -> Offer {
    Offer {
        name,
        provider: keyed_openai(
            OpenAiMode::Responses,
            Some("https://ark.cn-beijing.volces.com/api/v3"@),
            first_of(variable(vars, "ARK_API_KEY"@), variable(vars, "DOUBAO_API_KEY"@)),
        ),
    }
}

/// What is offered under the name `ollama`, for which no key is needed.
pub open spec fn ollama_offer() -> Offer {
    Offer {
        name: "ollama"@,
        provider: Some(
            ProviderModel::OpenAi {
                mode: OpenAiMode::Completions,
                base_url: Some("http://localhost:11434"@),
                api_key: None,
                user_agent: None,
            },
        ),
    }
}

/// The offers that an environment makes, in their order.
pub open spec fn offers(vars: Vars) -> Seq<Offer> {
    seq![anthropic_offer(vars), openai_offer(vars), gemini_offer(vars), codex_offer(vars)]
        + compat_table().map_values(|row: CompatModel| compat_offer(row, vars)) + seq![
        ark_offer("doubao"@, vars),
        ark_offer("bytedance"@, vars),
        ollama_offer(),
    ]
}

/// The providers that a gateway knows, by name.
pub open spec fn known_providers(config: RuntimeConfig, vars: Vars) -> Providers {
    with_offers(providers_of(config, vars), offers(vars))
}

/// The provider that a model name stands for, where it stands for one.
pub open spec fn alias_target(alias: ModelAlias) -> Option<Seq<char>> {
    match alias.alias {
        Some(target) => Some(target@),
        None => match alias.model {
            Some(model) => before_first(model@, '/'),
            None => None,
        },
    }
}

/// The model names that stand for a provider: of two with the same name the
/// later one that stands for a provider counts.
pub open spec fn aliases_of(models: Seq<(String, ModelAlias)>) -> Aliases
    decreases models.len(),
{
    if models.len() == 0 {
        Map::empty()
    } else {
        let (name, alias) = models.last();
        match alias_target(alias) {
            Some(target) => aliases_of(models.drop_last()).insert(name@, target),
            None => aliases_of(models.drop_last()),
        }
    }
}

/// The model names of a configuration that stand for a provider.
pub open spec fn known_aliases(config: RuntimeConfig) -> Aliases {
    match config.agents.defaults.models {
        Some(models) => aliases_of(models@),
        None => Map::empty(),
    }
}

/// The address of a provider that is known by its name.
pub fn well_known_base_url(name: &str) -> (base_url: Option<&'static str>)
    ensures
        base_url is Some <==> well_known_base(name@) is Some,
        base_url matches Some(base_url) ==> well_known_base(name@) == Some(base_url@),
{
    if same_text(name, "codex-proxy") || same_text(name, "codex") {
        Some(CODEX_PROXY_DEFAULT_BASE)
    } else if same_text(name, "qwen") {
        Some("https://dashscope.aliyuncs.com/compatible-mode/v1")
    } else if same_text(name, "deepseek") {
        Some("https://api.deepseek.com/v1")
    } else if same_text(name, "kimi") || same_text(name, "moonshot") {
        Some("https://api.moonshot.cn/v1")
    } else if same_text(name, "zhipu") {
        Some("https://open.bigmodel.cn/api/paas/v4")
    } else if same_text(name, "minimax") {
        Some("https://api.minimaxi.com/v1")
    } else if same_text(name, "siliconflow") {
        Some("https://api.siliconflow.cn/v1")
    } else if same_text(name, "groq") {
        Some("https://api.groq.com/openai/v1")
    } else if same_text(name, "openrouter") {
        Some("https://openrouter.ai/api/v1")
    } else if same_text(name, "gaterouter") {
        Some("https://api.gaterouter.ai/openai/v1")
    } else if same_text(name, "grok") || same_text(name, "xai") {
        Some("https://api.x.ai/v1")
    } else {
        None
    }
}

/// The protocol of a provider that is known by its name.
pub fn infer_api_format(name: &str) -> (format: ApiFormat)
    ensures
        format == inferred_format(name@),
{
    if same_text(name, "anthropic") {
        ApiFormat::Anthropic
    } else if same_text(name, "gemini") {
        ApiFormat::Gemini
    } else if same_text(name, "doubao") || same_text(name, "bytedance") {
        ApiFormat::OpenAiResponses
    } else if same_text(name, "ollama") {
        ApiFormat::Ollama
    } else {
        ApiFormat::OpenAiCompletions
    }
}

/// The variable that holds the key of a provider.
pub fn api_key_variable(name: &str) -> (variable: String)
    ensures
        variable@ == key_variable(name@),
{
    followed_by(to_uppercase(name).as_str(), "_API_KEY")
}

/// A text of its own that may be missing.
fn copy_text(text: &Option<String>) -> (copy: Option<String>)
    ensures
        option_text(copy) == option_text(*text),
{
    match text {
        Some(text) => Some(text.clone()),
        None => None,
    }
}

/// The first of two texts that is not missing.
fn either_text(first: Option<String>, second: Option<String>) -> (text: Option<String>)
    ensures
        option_text(text) == first_of(option_text(first), option_text(second)),
{
    match first {
        Some(text) => Some(text),
        None => second,
    }
}

/// The text, or the empty text where it is missing.
fn text_or_nothing(text: Option<String>) -> (found: String)
    ensures
        found@ == text_or_empty(option_text(text)),
{
    match text {
        Some(text) => text,
        None => String::new(),
    }
}

/// The text, or another where it is missing.
fn text_or(text: Option<String>, default: &str) -> (found: String)
    ensures
        found@ == or_default(option_text(text), default@),
{
    match text {
        Some(text) => text,
        None => default.to_owned(),
    }
}

/// The provider that a name, its configuration and the user agent of the
/// gateway stand for, in an environment in which `named_key` is the key under
/// the provider's own name.
pub fn configured_provider(
    name: &str,
    config: &ProviderConfig,
    gateway_user_agent: &Option<String>,
    named_key: Option<String>,
    env: &Environment,
) -> (provider: Provider)
    ensures
        provider@ == configured(
            name@,
            *config,
            option_text(*gateway_user_agent),
            option_text(named_key),
            env@,
        ),
{
    let key = either_text(copy_text(&config.api_key), named_key);
    let well_known = match well_known_base_url(name) {
        Some(url) => Some(url.to_owned()),
        None => None,
    };
    let base_url = either_text(copy_text(&config.base_url), well_known);
    let user_agent = either_text(copy_text(&config.user_agent), copy_text(gateway_user_agent));
    let format = match config.api {
        Some(format) => format,
        None => infer_api_format(name),
    };
    if same_text(name, "codex-proxy") || same_text(name, "codex") {
        let url = text_or(base_url, CODEX_PROXY_DEFAULT_BASE);
        Provider::CodexProxy(CodexProxyProvider::with_user_agent(url.as_str(), user_agent, env))
    } else if same_text(name, "anthropic") || format == ApiFormat::Anthropic || format
        == ApiFormat::AnthropicMessages {
        let api_key = text_or_nothing(either_text(key, env.var("ANTHROPIC_API_KEY")));
        Provider::Anthropic { api_key, base_url, user_agent }
    } else if same_text(name, "gemini") || format == ApiFormat::Gemini {
        let api_key = text_or_nothing(either_text(key, env.var("GEMINI_API_KEY")));
        Provider::Gemini { api_key, base_url, user_agent }
    } else if format == ApiFormat::Ollama {
        let api_key = either_text(key, env.var("OPENAI_API_KEY"));
        let url = text_or(base_url, "http://localhost:11434");
        Provider::OpenAi { mode: OpenAiMode::Ollama, base_url: Some(url), api_key, user_agent }
    } else {
        let api_key = either_text(key, env.var("OPENAI_API_KEY"));
        let mode = if format == ApiFormat::OpenAiResponses {
            OpenAiMode::Responses
        } else {
            OpenAiMode::Completions
        };
        Provider::OpenAi { mode, base_url, api_key, user_agent }
    }
}

/// Makes an offer to the registry: it is taken up where there is a provider
/// in it and the name is free.
fn offer(registry: &mut ProviderRegistry, name: &str, provider: Option<Provider>)
    ensures
        final(registry).providers() == with_offer(
            old(registry).providers(),
            (Offer {
                name: name@,
                provider: match provider {
                    Some(provider) => Some(provider@),
                    None => None,
                },
            }),
        ),
        final(registry).aliases() == old(registry).aliases(),
{
    if let Some(provider) = provider {
        if !registry.contains(name) {
            registry.register(name, provider);
        }
    }
}

/// A provider that speaks OpenAI's protocol, where there is a key for it.
fn openai_with_key(mode: OpenAiMode, base_url: Option<&str>, key: Option<String>) -> (provider:
    Option<Provider>)
    ensures
        provider is Some <==> key is Some,
        provider matches Some(provider) ==> Some(provider@) == keyed_openai(
            mode,
            match base_url {
                Some(base_url) => Some(base_url@),
                None => None,
            },
            option_text(key),
        ),
{
    match key {
        Some(key) => Some(
            Provider::OpenAi {
                mode,
                base_url: match base_url {
                    Some(base_url) => Some(base_url.to_owned()),
                    None => None,
                },
                api_key: Some(key),
                user_agent: None,
            },
        ),
        None => None,
    }
}

/// A provider that speaks OpenAI's protocol, by name.
struct CompatProvider {
    name: &'static str,
    base_url: &'static str,
    env_key: &'static str,
}

/// What a row of the table means.
spec fn compat_model(row: CompatProvider) -> CompatModel {
    compat(row.name@, row.base_url@, row.env_key@)
}

/// A row of the table below.
fn row(name: &'static str, base_url: &'static str, env_key: &'static str) -> (row: CompatProvider)
    ensures
        compat_model(row) == compat(name@, base_url@, env_key@),
{
    CompatProvider { name, base_url, env_key }
}

/// The providers that speak OpenAI's protocol and are known by name.
fn compat_providers() -> (rows: Vec<CompatProvider>)
    ensures
        rows@.map_values(|row: CompatProvider| compat_model(row)) == compat_table(),
{
    let rows = vec![
        row("groq", "https://api.groq.com/openai/v1", "GROQ_API_KEY"),
        row("deepseek", "https://api.deepseek.com/v1", "DEEPSEEK_API_KEY"),
        row("mistral", "https://api.mistral.ai/v1", "MISTRAL_API_KEY"),
        row("together", "https://api.together.xyz/v1", "TOGETHER_API_KEY"),
        row("openrouter", "https://openrouter.ai/api/v1", "OPENROUTER_API_KEY"),
        row("xai", "https://api.x.ai/v1", "XAI_API_KEY"),
        row("cerebras", "https://api.cerebras.ai/v1", "CEREBRAS_API_KEY"),
        row("fireworks", "https://api.fireworks.ai/inference/v1", "FIREWORKS_API_KEY"),
        row("perplexity", "https://api.perplexity.ai", "PERPLEXITY_API_KEY"),
        row("cohere", "https://api.cohere.com/v2", "COHERE_API_KEY"),
        row("huggingface", "https://api-inference.huggingface.co/v1", "HF_API_KEY"),
        row("siliconflow", "https://api.siliconflow.cn/v1", "SILICONFLOW_API_KEY"),
        row(
            "qwen",
            "https://dashscope.aliyuncs.com/compatible-mode/v1",
            "DASHSCOPE_API_KEY",
        ),
        // Kimi is Moonshot.
        row("kimi", "https://api.moonshot.cn/v1", "MOONSHOT_API_KEY"),
        row("moonshot", "https://api.moonshot.cn/v1", "MOONSHOT_API_KEY"),
        row("zhipu", "https://open.bigmodel.cn/api/paas/v4", "ZHIPU_API_KEY"),
        row("baichuan", "https://api.baichuan-ai.com/v1", "BAICHUAN_API_KEY"),
        row("minimax", "https://api.minimaxi.com/v1", "MINIMAX_API_KEY"),
        row("stepfun", "https://api.stepfun.com/v1", "STEPFUN_API_KEY"),
        row("lingyi", "https://api.lingyiwanwu.com/v1", "LINGYI_API_KEY"),
        row("baidu", "https://qianfan.baidubce.com/v2", "QIANFAN_API_KEY"),
        row("gaterouter", "https://api.gaterouter.ai/openai/v1", "GATEROUTER_API_KEY"),
        row("infini", "https://cloud.infini-ai.com/maas/v1", "INFINI_API_KEY"),
    ];
    assert(rows@.map_values(|row: CompatProvider| compat_model(row)) =~= compat_table());
    rows
}

/// One more offer.
proof fn lemma_one_more_offer(providers: Providers, offers: Seq<Offer>, offer: Offer)
    ensures
        with_offers(providers, offers.push(offer)) == with_offer(
            with_offers(providers, offers),
            offer,
        ),
{
    assert(offers.push(offer).drop_last() =~= offers);
}

/// Makes the configured providers known.
fn register_configured(
    registry: &mut ProviderRegistry,
    providers: &Vec<(String, ProviderConfig)>,
    gateway_user_agent: &Option<String>,
    env: &Environment,
)
    requires
        old(registry).providers() == Map::<Seq<char>, ProviderModel>::empty(),
    ensures
        final(registry).providers() == configured_providers(
            providers@,
            option_text(*gateway_user_agent),
            env@,
        ),
        final(registry).aliases() == old(registry).aliases(),
{
    let ghost aliases = registry.aliases();
    for i in 0..providers.len()
        invariant
            registry.providers() == configured_providers(
                providers@.take(i as int),
                option_text(*gateway_user_agent),
                env@,
            ),
            registry.aliases() == aliases,
    {
        assert(providers@.take(i + 1).drop_last() =~= providers@.take(i as int));
        let name = providers[i].0.as_str();
        let named_key = env.var(api_key_variable(name).as_str());
        let provider = configured_provider(
            name,
            &providers[i].1,
            gateway_user_agent,
            named_key,
            env,
        );
        registry.register(name, provider);
    }
    assert(providers@.take(providers.len() as int) =~= providers@);
}

/// Makes the offers of the environment.
fn register_from_environment(registry: &mut ProviderRegistry, env: &Environment)
    ensures
        final(registry).providers() == with_offers(old(registry).providers(), offers(env@)),
        final(registry).aliases() == old(registry).aliases(),
{
    let ghost before = registry.providers();
    let ghost aliases = registry.aliases();
    let ghost mut made: Seq<Offer> = Seq::empty();

    let anthropic = match env.var("ANTHROPIC_API_KEY") {
        Some(api_key) => Some(Provider::Anthropic { api_key, base_url: None, user_agent: None }),
        None => None,
    };
    offer(registry, "anthropic", anthropic);
    proof {
        lemma_one_more_offer(before, made, anthropic_offer(env@));
        made = made.push(anthropic_offer(env@));
    }

    let openai = openai_with_key(OpenAiMode::Completions, None, env.var("OPENAI_API_KEY"));
    offer(registry, "openai", openai);
    proof {
        lemma_one_more_offer(before, made, openai_offer(env@));
        made = made.push(openai_offer(env@));
    }

    let gemini = match env.var("GEMINI_API_KEY") {
        Some(api_key) => Some(Provider::Gemini { api_key, base_url: None, user_agent: None }),
        None => None,
    };
    offer(registry, "gemini", gemini);
    proof {
        lemma_one_more_offer(before, made, gemini_offer(env@));
        made = made.push(gemini_offer(env@));
    }

    let codex = match env.var("CODEX_PROXY_BASE_URL") {
        Some(_) => Some(
            Provider::CodexProxy(CodexProxyProvider::new(CODEX_PROXY_DEFAULT_BASE, env)),
        ),
        None => None,
    };
    offer(registry, "codex-proxy", codex);
    proof {
        lemma_one_more_offer(before, made, codex_offer(env@));
        made = made.push(codex_offer(env@));
    }

    let rows = compat_providers();
    let ghost first = made;
    let ghost table = compat_table().map_values(|row: CompatModel| compat_offer(row, env@));
    assert(first + table.take(0) =~= first);
    for i in 0..rows.len()
        invariant
            rows@.map_values(|row: CompatProvider| compat_model(row)) == compat_table(),
            table == compat_table().map_values(|row: CompatModel| compat_offer(row, env@)),
            registry.providers() == with_offers(before, first + table.take(i as int)),
            registry.aliases() == aliases,
    {
        let key = env.var(rows[i].env_key);
        let provider = openai_with_key(OpenAiMode::Completions, Some(rows[i].base_url), key);
        offer(registry, rows[i].name, provider);
        proof {
            assert(compat_table()[i as int] == compat_model(rows@[i as int]));
            assert(table[i as int] == compat_offer(compat_table()[i as int], env@));
            lemma_one_more_offer(before, first + table.take(i as int), table[i as int]);
            assert((first + table.take(i as int)).push(table[i as int]) =~= first + table.take(
                i + 1,
            ));
        }
    }
    proof {
        made = first + table;
        assert(table.take(rows@.len() as int) =~= table);
    }

    let doubao_key = either_text(env.var("ARK_API_KEY"), env.var("DOUBAO_API_KEY"));
    let doubao = openai_with_key(
        OpenAiMode::Responses,
        Some("https://ark.cn-beijing.volces.com/api/v3"),
        doubao_key,
    );
    offer(registry, "doubao", doubao);
    proof {
        lemma_one_more_offer(before, made, ark_offer("doubao"@, env@));
        made = made.push(ark_offer("doubao"@, env@));
    }

    let bytedance_key = either_text(env.var("ARK_API_KEY"), env.var("DOUBAO_API_KEY"));
    let bytedance = openai_with_key(
        OpenAiMode::Responses,
        Some("https://ark.cn-beijing.volces.com/api/v3"),
        bytedance_key,
    );
    offer(registry, "bytedance", bytedance);
    proof {
        lemma_one_more_offer(before, made, ark_offer("bytedance"@, env@));
        made = made.push(ark_offer("bytedance"@, env@));
    }

    let ollama = Provider::OpenAi {
        mode: OpenAiMode::Completions,
        base_url: Some("http://localhost:11434".to_owned()),
        api_key: None,
        user_agent: None,
    };
    offer(registry, "ollama", Some(ollama));
    proof {
        lemma_one_more_offer(before, made, ollama_offer());
        made = made.push(ollama_offer());
        assert(made =~= offers(env@));
    }
}

/// The model names that stand for a provider.
pub fn model_aliases(models: &Vec<(String, ModelAlias)>) -> (aliases: NameMap<String>)
    ensures
        aliases@.map_values(|target: String| target@) == aliases_of(models@),
{
    let mut aliases: NameMap<String> = NameMap::new();
    assert(aliases@.map_values(|target: String| target@) =~= aliases_of(models@.take(0)));
    for i in 0..models.len()
        invariant
            aliases@.map_values(|target: String| target@) == aliases_of(models@.take(i as int)),
    {
        assert(models@.take(i + 1).drop_last() =~= models@.take(i as int));
        let alias = &models[i].1;
        let target = match &alias.alias {
            Some(target) => Some(target.clone()),
            None => match &alias.model {
                Some(model) => match head_before(model.as_str(), '/') {
                    Some(provider) => Some(provider.to_owned()),
                    None => None,
                },
                None => None,
            },
        };
        let ghost before = aliases@;
        if let Some(target) = target {
            aliases.insert(models[i].0.clone(), target);
            assert(before.insert(models@[i as int].0@, target).map_values(|target: String| target@)
                =~= before.map_values(|target: String| target@).insert(
                models@[i as int].0@,
                target@,
            ));
        }
    }
    assert(models@.take(models.len() as int) =~= models@);
    aliases
}

/// The providers that a gateway with this configuration knows, in this
/// environment.
pub fn build_providers(config: &RuntimeConfig, env: &Environment) -> (registry: ProviderRegistry)
    ensures
        registry.providers() == known_providers(*config, env@),
        registry.aliases() == known_aliases(*config),
{
    let mut registry = ProviderRegistry::new();
    if let Some(models) = &config.model.models {
        register_configured(&mut registry, &models.providers, &config.gateway.user_agent, env);
    }
    register_from_environment(&mut registry, env);
    if let Some(models) = &config.agents.defaults.models {
        registry.set_model_aliases(model_aliases(models));
    }
    registry
}

} // verus!
