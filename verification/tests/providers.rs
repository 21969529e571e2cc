use rsclaw::config::{
    AgentDefaults, AgentsConfig, ApiFormat, GatewayConfig, ModelAlias, ModelConfig, ModelsConfig,
    ProviderConfig, RuntimeConfig,
};
use rsclaw::environment::Environment;
use rsclaw::gateway::providers::{
    api_key_variable, build_providers, configured_provider, infer_api_format, model_aliases,
    well_known_base_url,
};
use rsclaw::name_map::NameMap;
use rsclaw::provider::codex_proxy::CodexProxyProvider;
use rsclaw::provider::registry::{OpenAiMode, Provider, ProviderRegistry};

fn env(vars: &[(&str, &str)]) -> Environment {
    Environment {
        vars: vars.iter().map(|(name, value)| (name.to_string(), value.to_string())).collect(),
    }
}

fn nothing() -> ProviderConfig {
    ProviderConfig { api_key: None, base_url: None, api: None, user_agent: None }
}

fn config(providers: Vec<(&str, ProviderConfig)>) -> RuntimeConfig {
    RuntimeConfig {
        model: ModelConfig {
            models: Some(ModelsConfig {
                providers: providers
                    .into_iter()
                    .map(|(name, config)| (name.to_owned(), config))
                    .collect(),
            }),
        },
        gateway: GatewayConfig { user_agent: None },
        agents: AgentsConfig { defaults: AgentDefaults { models: None } },
    }
}

fn owned(text: Option<&str>) -> Option<String> {
    text.map(str::to_owned)
}

fn openai(mode: OpenAiMode, base: Option<&str>, key: Option<&str>, ua: Option<&str>) -> Provider {
    Provider::OpenAi { mode, base_url: owned(base), api_key: owned(key), user_agent: owned(ua) }
}

fn alias(alias: Option<&str>, model: Option<&str>) -> ModelAlias {
    ModelAlias { alias: owned(alias), model: owned(model) }
}

#[test]
fn names_stand_for_addresses() {
    assert_eq!(well_known_base_url("codex"), Some("http://127.0.0.1:8787"));
    assert_eq!(well_known_base_url("codex-proxy"), Some("http://127.0.0.1:8787"));
    assert_eq!(
        well_known_base_url("qwen"),
        Some("https://dashscope.aliyuncs.com/compatible-mode/v1")
    );
    assert_eq!(well_known_base_url("deepseek"), Some("https://api.deepseek.com/v1"));
    assert_eq!(well_known_base_url("kimi"), Some("https://api.moonshot.cn/v1"));
    assert_eq!(well_known_base_url("moonshot"), Some("https://api.moonshot.cn/v1"));
    assert_eq!(well_known_base_url("zhipu"), Some("https://open.bigmodel.cn/api/paas/v4"));
    assert_eq!(well_known_base_url("minimax"), Some("https://api.minimaxi.com/v1"));
    assert_eq!(well_known_base_url("siliconflow"), Some("https://api.siliconflow.cn/v1"));
    assert_eq!(well_known_base_url("groq"), Some("https://api.groq.com/openai/v1"));
    assert_eq!(well_known_base_url("openrouter"), Some("https://openrouter.ai/api/v1"));
    assert_eq!(well_known_base_url("gaterouter"), Some("https://api.gaterouter.ai/openai/v1"));
    assert_eq!(well_known_base_url("grok"), Some("https://api.x.ai/v1"));
    assert_eq!(well_known_base_url("xai"), Some("https://api.x.ai/v1"));
    assert_eq!(well_known_base_url("openai"), None);
    assert_eq!(well_known_base_url("Groq"), None);
}

#[test]
fn names_stand_for_protocols() {
    assert_eq!(infer_api_format("anthropic"), ApiFormat::Anthropic);
    assert_eq!(infer_api_format("gemini"), ApiFormat::Gemini);
    assert_eq!(infer_api_format("doubao"), ApiFormat::OpenAiResponses);
    assert_eq!(infer_api_format("bytedance"), ApiFormat::OpenAiResponses);
    assert_eq!(infer_api_format("ollama"), ApiFormat::Ollama);
    assert_eq!(infer_api_format("anything"), ApiFormat::OpenAiCompletions);
}

#[test]
fn the_variable_of_a_key_is_the_name_in_capitals() {
    assert_eq!(api_key_variable("groq"), "GROQ_API_KEY");
    assert_eq!(api_key_variable("my-llm"), "MY-LLM_API_KEY");
    assert_eq!(api_key_variable("aZ[{`_9"), "AZ[{`_9_API_KEY");
    assert_eq!(api_key_variable("straße"), "STRASSE_API_KEY");
}

#[test]
fn ascii_letters_become_capitals_and_nothing_else_changes() {
    for code in 0..128u8 {
        let name = (code as char).to_string();
        let expected = format!("{}_API_KEY", name.to_ascii_uppercase());
        assert_eq!(api_key_variable(&name), expected);
    }
}

#[test]
fn a_configured_codex_proxy() {
    let env = env(&[]);
    for name in ["codex", "codex-proxy"] {
        let provider = configured_provider(name, &nothing(), &None, None, &env);
        assert_eq!(
            provider,
            Provider::CodexProxy(CodexProxyProvider::new("http://127.0.0.1:8787", &env))
        );
        let mut config = nothing();
        config.base_url = owned(Some("http://h"));
        config.user_agent = owned(Some("own"));
        config.api = Some(ApiFormat::Anthropic);
        let provider = configured_provider(name, &config, &owned(Some("gateway")), None, &env);
        assert_eq!(
            provider,
            Provider::CodexProxy(CodexProxyProvider::with_user_agent(
                "http://h",
                owned(Some("own")),
                &env
            ))
        );
    }
}

#[test]
fn a_configured_anthropic() {
    let env = env(&[("ANTHROPIC_API_KEY", "shared")]);
    let made = |key: &str, base: Option<&str>| Provider::Anthropic {
        api_key: key.to_owned(),
        base_url: owned(base),
        user_agent: None,
    };
    assert_eq!(
        configured_provider("anthropic", &nothing(), &None, None, &env),
        made("shared", None)
    );
    let mut config = nothing();
    config.api = Some(ApiFormat::AnthropicMessages);
    config.base_url = owned(Some("http://h"));
    assert_eq!(
        configured_provider("mine", &config, &None, owned(Some("named")), &env),
        made("named", Some("http://h"))
    );
    config.api = Some(ApiFormat::Anthropic);
    config.api_key = owned(Some("written"));
    assert_eq!(
        configured_provider("gemini", &config, &None, owned(Some("named")), &env),
        made("written", Some("http://h"))
    );
    config.api = Some(ApiFormat::Ollama);
    config.api_key = None;
    assert_eq!(
        configured_provider("anthropic", &config, &None, None, &Environment { vars: Vec::new() }),
        made("", Some("http://h"))
    );
}

#[test]
fn a_configured_gemini() {
    let env = env(&[("GEMINI_API_KEY", "g"), ("OPENAI_API_KEY", "o")]);
    assert_eq!(
        configured_provider("gemini", &nothing(), &owned(Some("gw")), None, &env),
        Provider::Gemini {
            api_key: "g".to_owned(),
            base_url: None,
            user_agent: owned(Some("gw")),
        }
    );
    let mut config = nothing();
    config.api = Some(ApiFormat::Gemini);
    assert_eq!(
        configured_provider("my-llm", &config, &None, None, &env),
        Provider::Gemini { api_key: "g".to_owned(), base_url: None, user_agent: None }
    );
    config.api_key = owned(Some("written"));
    config.base_url = owned(Some("http://h"));
    assert_eq!(
        configured_provider("groq", &config, &None, owned(Some("named")), &env),
        Provider::Gemini {
            api_key: "written".to_owned(),
            base_url: owned(Some("http://h")),
            user_agent: None,
        }
    );
    assert!(matches!(
        configured_provider("anthropic", &config, &None, None, &env),
        Provider::Anthropic { .. }
    ));
}

#[test]
fn a_written_gemini_protocol_is_registered_under_any_name() {
    let mut written = nothing();
    written.api = Some(ApiFormat::Gemini);
    let registry = build_providers(
        &config(vec![("my-llm", written)]),
        &env(&[("MY-LLM_API_KEY", "own"), ("GEMINI_API_KEY", "g")]),
    );
    assert_eq!(
        registry.get("my-llm"),
        Some(&Provider::Gemini { api_key: "own".to_owned(), base_url: None, user_agent: None })
    );
}

#[test]
fn configured_providers_of_the_openai_kind() {
    let env = env(&[("OPENAI_API_KEY", "o")]);
    assert_eq!(
        configured_provider("ollama", &nothing(), &None, None, &env),
        openai(OpenAiMode::Ollama, Some("http://localhost:11434"), Some("o"), None)
    );
    assert_eq!(
        configured_provider("doubao", &nothing(), &None, owned(Some("d")), &env),
        openai(OpenAiMode::Responses, None, Some("d"), None)
    );
    assert_eq!(
        configured_provider("groq", &nothing(), &None, None, &env),
        openai(
            OpenAiMode::Completions,
            Some("https://api.groq.com/openai/v1"),
            Some("o"),
            None
        )
    );
    assert_eq!(
        configured_provider("local", &nothing(), &None, None, &Environment { vars: Vec::new() }),
        openai(OpenAiMode::Completions, None, None, None)
    );
}

#[test]
fn the_key_under_the_own_name_is_found_in_the_environment() {
    let env = env(&[("MISTRAL_API_KEY", "own"), ("OPENAI_API_KEY", "shared")]);
    let registry = build_providers(&config(vec![("mistral", nothing())]), &env);
    assert_eq!(
        registry.get("mistral"),
        Some(&openai(OpenAiMode::Completions, None, Some("own"), None))
    );
}

#[test]
fn ollama_is_all_there_is_without_configuration_and_keys() {
    let mut config = config(Vec::new());
    config.model.models = None;
    let registry = build_providers(&config, &env(&[]));
    assert_eq!(registry.names(), vec!["ollama"]);
    assert_eq!(
        registry.get("ollama"),
        Some(&openai(OpenAiMode::Completions, Some("http://localhost:11434"), None, None))
    );
}

#[test]
fn keys_of_the_environment_make_providers_known() {
    let env = env(&[
        ("ANTHROPIC_API_KEY", "a"),
        ("OPENAI_API_KEY", "o"),
        ("GEMINI_API_KEY", "g"),
        ("CODEX_PROXY_BASE_URL", "http://c"),
        ("HF_API_KEY", "h"),
        ("MOONSHOT_API_KEY", "m"),
        ("DOUBAO_API_KEY", "d"),
    ]);
    let registry = build_providers(&config(Vec::new()), &env);
    let mut names = registry.names();
    names.sort();
    assert_eq!(
        names,
        vec![
            "anthropic", "bytedance", "codex-proxy", "doubao", "gemini", "huggingface", "kimi",
            "moonshot", "ollama", "openai",
        ]
    );
    assert_eq!(
        registry.get("anthropic"),
        Some(&Provider::Anthropic { api_key: "a".to_owned(), base_url: None, user_agent: None })
    );
    assert_eq!(
        registry.get("gemini"),
        Some(&Provider::Gemini { api_key: "g".to_owned(), base_url: None, user_agent: None })
    );
    assert_eq!(
        registry.get("openai"),
        Some(&openai(OpenAiMode::Completions, None, Some("o"), None))
    );
    assert_eq!(
        registry.get("huggingface"),
        Some(&openai(
            OpenAiMode::Completions,
            Some("https://api-inference.huggingface.co/v1"),
            Some("h"),
            None
        ))
    );
    assert_eq!(
        registry.get("doubao"),
        Some(&openai(
            OpenAiMode::Responses,
            Some("https://ark.cn-beijing.volces.com/api/v3"),
            Some("d"),
            None
        ))
    );
    match registry.get("codex-proxy") {
        Some(Provider::CodexProxy(provider)) => {
            assert_eq!(provider.url(), "http://c/api/chat/sse")
        }
        other => panic!("{:?}", other),
    }
}

#[test]
fn every_row_of_the_table_is_offered() {
    let rows = [
        ("groq", "https://api.groq.com/openai/v1", "GROQ_API_KEY"),
        ("deepseek", "https://api.deepseek.com/v1", "DEEPSEEK_API_KEY"),
        ("mistral", "https://api.mistral.ai/v1", "MISTRAL_API_KEY"),
        ("together", "https://api.together.xyz/v1", "TOGETHER_API_KEY"),
        ("openrouter", "https://openrouter.ai/api/v1", "OPENROUTER_API_KEY"),
        ("xai", "https://api.x.ai/v1", "XAI_API_KEY"),
        ("cerebras", "https://api.cerebras.ai/v1", "CEREBRAS_API_KEY"),
        ("fireworks", "https://api.fireworks.ai/inference/v1", "FIREWORKS_API_KEY"),
        ("perplexity", "https://api.perplexity.ai", "PERPLEXITY_API_KEY"),
        ("cohere", "https://api.cohere.com/v2", "COHERE_API_KEY"),
        ("huggingface", "https://api-inference.huggingface.co/v1", "HF_API_KEY"),
        ("siliconflow", "https://api.siliconflow.cn/v1", "SILICONFLOW_API_KEY"),
        ("qwen", "https://dashscope.aliyuncs.com/compatible-mode/v1", "DASHSCOPE_API_KEY"),
        ("kimi", "https://api.moonshot.cn/v1", "MOONSHOT_API_KEY"),
        ("moonshot", "https://api.moonshot.cn/v1", "MOONSHOT_API_KEY"),
        ("zhipu", "https://open.bigmodel.cn/api/paas/v4", "ZHIPU_API_KEY"),
        ("baichuan", "https://api.baichuan-ai.com/v1", "BAICHUAN_API_KEY"),
        ("minimax", "https://api.minimaxi.com/v1", "MINIMAX_API_KEY"),
        ("stepfun", "https://api.stepfun.com/v1", "STEPFUN_API_KEY"),
        ("lingyi", "https://api.lingyiwanwu.com/v1", "LINGYI_API_KEY"),
        ("baidu", "https://qianfan.baidubce.com/v2", "QIANFAN_API_KEY"),
        ("gaterouter", "https://api.gaterouter.ai/openai/v1", "GATEROUTER_API_KEY"),
        ("infini", "https://cloud.infini-ai.com/maas/v1", "INFINI_API_KEY"),
    ];
    for (name, base, variable) in rows {
        let registry = build_providers(&config(Vec::new()), &env(&[(variable, "k")]));
        assert_eq!(
            registry.get(name),
            Some(&openai(OpenAiMode::Completions, Some(base), Some("k"), None))
        );
    }
}

#[test]
fn the_ark_key_counts_before_the_doubao_key() {
    let env = env(&[("DOUBAO_API_KEY", "d"), ("ARK_API_KEY", "a")]);
    let registry = build_providers(&config(Vec::new()), &env);
    for name in ["doubao", "bytedance"] {
        assert_eq!(
            registry.get(name),
            Some(&openai(
                OpenAiMode::Responses,
                Some("https://ark.cn-beijing.volces.com/api/v3"),
                Some("a"),
                None
            ))
        );
    }
}

#[test]
fn two_names_of_one_service_stand_for_the_same() {
    let env = env(&[("MOONSHOT_API_KEY", "m"), ("DOUBAO_API_KEY", "d")]);
    let registry = build_providers(&config(Vec::new()), &env);
    assert!(registry.contains("kimi") && registry.contains("doubao"));
    assert_eq!(registry.get("kimi"), registry.get("moonshot"));
    assert_eq!(registry.get("doubao"), registry.get("bytedance"));
}

#[test]
fn a_name_that_is_configured_is_not_offered() {
    let env = env(&[("MOONSHOT_API_KEY", "m")]);
    let registry = build_providers(&config(vec![("kimi", nothing())]), &env);
    assert_eq!(
        registry.get("kimi"),
        Some(&openai(OpenAiMode::Completions, Some("https://api.moonshot.cn/v1"), None, None))
    );
    assert_eq!(
        registry.get("moonshot"),
        Some(&openai(OpenAiMode::Completions, Some("https://api.moonshot.cn/v1"), Some("m"), None))
    );
}

#[test]
fn the_written_protocol_counts() {
    let env = env(&[]);
    let made = |name: &str, api: ApiFormat| {
        let mut config = nothing();
        config.api = Some(api);
        configured_provider(name, &config, &None, None, &env)
    };
    assert_eq!(
        made("ollama", ApiFormat::OpenAiResponses),
        openai(OpenAiMode::Responses, None, None, None)
    );
    assert_eq!(
        made("doubao", ApiFormat::OpenAiCompletions),
        openai(OpenAiMode::Completions, None, None, None)
    );
    assert_eq!(
        made("mine", ApiFormat::Ollama),
        openai(OpenAiMode::Ollama, Some("http://localhost:11434"), None, None)
    );
    assert!(matches!(made("gemini", ApiFormat::OpenAiResponses), Provider::Gemini { .. }));
    assert!(matches!(made("gemini", ApiFormat::Anthropic), Provider::Anthropic { .. }));
}

#[test]
fn what_is_configured_counts_before_the_environment() {
    let env = env(&[("GROQ_API_KEY", "k"), ("CODEX_PROXY_BASE_URL", "http://c")]);
    let mut groq = nothing();
    groq.base_url = owned(Some("http://mine"));
    groq.api_key = owned(Some("written"));
    let registry = build_providers(&config(vec![("groq", groq), ("ollama", nothing())]), &env);
    assert_eq!(
        registry.get("groq"),
        Some(&openai(OpenAiMode::Completions, Some("http://mine"), Some("written"), None))
    );
    assert_eq!(
        registry.get("ollama"),
        Some(&openai(OpenAiMode::Ollama, Some("http://localhost:11434"), None, None))
    );
}

#[test]
fn the_user_agent_is_the_providers_own_or_the_gateways() {
    let mut own = nothing();
    own.user_agent = owned(Some("own"));
    let mut config = config(vec![("a", own), ("b", nothing())]);
    config.gateway.user_agent = owned(Some("gateway"));
    let registry = build_providers(&config, &env(&[]));
    assert_eq!(
        registry.get("a"),
        Some(&openai(OpenAiMode::Completions, None, None, Some("own")))
    );
    assert_eq!(
        registry.get("b"),
        Some(&openai(OpenAiMode::Completions, None, None, Some("gateway")))
    );
}

#[test]
fn models_stand_for_providers() {
    let models = vec![
        ("fast".to_owned(), alias(Some("groq"), Some("x/y"))),
        ("smart".to_owned(), alias(None, Some("deepseek/deepseek-v3"))),
        ("plain".to_owned(), alias(None, Some("no-slash"))),
        ("none".to_owned(), alias(None, None)),
        ("twice".to_owned(), alias(Some("a"), None)),
        ("twice".to_owned(), alias(Some("b"), None)),
    ];
    let aliases = model_aliases(&models);
    assert_eq!(aliases.get("smart"), Some(&"deepseek".to_owned()));
    let mut config = config(Vec::new());
    config.agents.defaults.models = Some(models);
    let registry = build_providers(&config, &env(&[]));
    assert_eq!(registry.alias("fast"), Some("groq"));
    assert_eq!(registry.alias("smart"), Some("deepseek"));
    assert_eq!(registry.alias("plain"), None);
    assert_eq!(registry.alias("none"), None);
    assert_eq!(registry.alias("twice"), Some("b"));
}

#[test]
fn a_registry_holds_one_provider_to_a_name() {
    let mut registry = ProviderRegistry::new();
    assert!(!registry.contains("a"));
    registry.register("a", openai(OpenAiMode::Completions, None, Some("1"), None));
    registry.register("b", openai(OpenAiMode::Responses, None, None, None));
    registry.register("a", openai(OpenAiMode::Completions, None, Some("2"), None));
    assert!(registry.contains("a"));
    assert_eq!(registry.names(), vec!["a", "b"]);
    assert_eq!(
        registry.get("a"),
        Some(&openai(OpenAiMode::Completions, None, Some("2"), None))
    );
    let mut aliases = NameMap::new();
    aliases.insert("m".to_owned(), "a".to_owned());
    registry.set_model_aliases(aliases);
    assert_eq!(registry.alias("m"), Some("a"));
}

#[test]
fn a_name_map_is_a_map() {
    let mut map: NameMap<u32> = NameMap::new();
    assert!(map.names().is_empty());
    map.insert("x".to_owned(), 1);
    map.insert("y".to_owned(), 2);
    map.insert("x".to_owned(), 3);
    assert_eq!(map.get("x"), Some(&3));
    assert_eq!(map.get("y"), Some(&2));
    assert_eq!(map.get("z"), None);
    assert!(map.contains("y") && !map.contains(""));
    assert_eq!(map.names(), vec!["x", "y"]);
}

#[test]
fn the_environment_counts_before_the_configured_address_of_a_proxy() {
    let env = env(&[("CODEX_PROXY_BASE_URL", "http://from-env")]);
    let mut proxy = nothing();
    proxy.base_url = owned(Some("http://configured"));
    let mut other = nothing();
    other.base_url = owned(Some("http://configured"));
    let registry = build_providers(&config(vec![("codex", proxy), ("other", other)]), &env);
    match registry.get("codex") {
        Some(Provider::CodexProxy(provider)) => {
            assert_eq!(provider.url(), "http://from-env/api/chat/sse")
        }
        unexpected => panic!("{:?}", unexpected),
    }
    assert_eq!(
        registry.get("other"),
        Some(&openai(OpenAiMode::Completions, Some("http://configured"), None, None))
    );
}
