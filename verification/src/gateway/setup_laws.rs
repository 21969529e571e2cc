//! What holds of how a provider is set up, whatever its configuration and the
//! environment.

use crate::config::{ApiFormat, ModelAlias, ProviderConfig, RuntimeConfig};
use crate::environment::{variable, vars_model};
use crate::gateway::provider_laws::{
    api_key_of, base_url_of, law_configuration_counts, law_key_makes_known, law_offer_is_taken_up,
    named, user_agent_of,
};
use crate::gateway::providers::{
    alias_target, aliases_of, anthropic_offer, ark_offer, codex_offer, compat_table, configured,
    configured_providers, gemini_offer, in_capitals, key_variable, known_aliases, known_providers,
    offers, ollama_offer, openai_offer, providers_of, well_known_base, Vars,
};
use crate::provider::codex_proxy::CodexProxyProvider;
use crate::provider::registry::{OpenAiMode, Provider, ProviderModel};
use crate::text::option_text;
use crate::text_laws::law_before_the_first;
use vstd::prelude::*;

verus! {

/// The names that stand for an address, and the address.
pub open spec fn addresses() -> Seq<(Seq<char>, Seq<char>)> {
    seq![
        ("qwen"@, "https://dashscope.aliyuncs.com/compatible-mode/v1"@),
        ("deepseek"@, "https://api.deepseek.com/v1"@),
        ("kimi"@, "https://api.moonshot.cn/v1"@),
        ("moonshot"@, "https://api.moonshot.cn/v1"@),
        ("zhipu"@, "https://open.bigmodel.cn/api/paas/v4"@),
        ("minimax"@, "https://api.minimaxi.com/v1"@),
        ("siliconflow"@, "https://api.siliconflow.cn/v1"@),
        ("groq"@, "https://api.groq.com/openai/v1"@),
        ("openrouter"@, "https://openrouter.ai/api/v1"@),
        ("gaterouter"@, "https://api.gaterouter.ai/openai/v1"@),
        ("grok"@, "https://api.x.ai/v1"@),
        ("xai"@, "https://api.x.ai/v1"@),
    ]
}

/// Whether the name is that of a Codex proxy.
pub open spec fn names_codex(name: Seq<char>) -> bool {
    name == "codex-proxy"@ || name == "codex"@
}

/// Whether the name stands for an address.
pub open spec fn has_address(name: Seq<char>) -> bool {
    exists|i: int| 0 <= i < addresses().len() && (#[trigger] addresses()[i]).0 == name
}

/// The names that are told apart are all different.
proof fn lemma_names_differ()
    ensures
        "codex-proxy"@.len() == 11 && "codex-proxy"@[0] == 'c',
        "codex"@.len() == 5 && "codex"@[0] == 'c',
        "qwen"@.len() == 4 && "qwen"@[0] == 'q',
        "deepseek"@.len() == 8 && "deepseek"@[0] == 'd',
        "kimi"@.len() == 4 && "kimi"@[0] == 'k',
        "moonshot"@.len() == 8 && "moonshot"@[0] == 'm',
        "zhipu"@.len() == 5 && "zhipu"@[0] == 'z',
        "minimax"@.len() == 7,
        "siliconflow"@.len() == 11 && "siliconflow"@[0] == 's',
        "groq"@.len() == 4 && "groq"@[0] == 'g' && "groq"@[3] == 'q',
        "openrouter"@.len() == 10 && "openrouter"@[0] == 'o',
        "gaterouter"@.len() == 10 && "gaterouter"@[0] == 'g',
        "grok"@.len() == 4 && "grok"@[0] == 'g' && "grok"@[3] == 'k',
        "xai"@.len() == 3,
        "anthropic"@.len() == 9 && "anthropic"@[0] == 'a',
        "gemini"@.len() == 6 && "gemini"@[0] == 'g',
        "doubao"@.len() == 6 && "doubao"@[0] == 'd',
        "bytedance"@.len() == 9 && "bytedance"@[0] == 'b',
        "ollama"@.len() == 6 && "ollama"@[0] == 'o',
{
    reveal_strlit("codex-proxy");
    reveal_strlit("codex");
    reveal_strlit("qwen");
    reveal_strlit("deepseek");
    reveal_strlit("kimi");
    reveal_strlit("moonshot");
    reveal_strlit("zhipu");
    reveal_strlit("minimax");
    reveal_strlit("siliconflow");
    reveal_strlit("groq");
    reveal_strlit("openrouter");
    reveal_strlit("gaterouter");
    reveal_strlit("grok");
    reveal_strlit("xai");
    reveal_strlit("anthropic");
    reveal_strlit("gemini");
    reveal_strlit("doubao");
    reveal_strlit("bytedance");
    reveal_strlit("ollama");
}

/// The address that a name stands for is the one in the list.
proof fn lemma_addresses(name: Seq<char>, i: int)
    requires
        0 <= i < addresses().len(),
    ensures
        well_known_base(addresses()[i].0) == Some(addresses()[i].1),
        !names_codex(addresses()[i].0),
        !names_codex(name) && !has_address(name) ==> well_known_base(name) is None,
{
    lemma_names_differ();
    let all = addresses();
    assert(all[0].0 == "qwen"@ && all[1].0 == "deepseek"@ && all[2].0 == "kimi"@);
    assert(all[3].0 == "moonshot"@ && all[4].0 == "zhipu"@ && all[5].0 == "minimax"@);
    assert(all[6].0 == "siliconflow"@ && all[7].0 == "groq"@ && all[8].0 == "openrouter"@);
    assert(all[9].0 == "gaterouter"@ && all[10].0 == "grok"@ && all[11].0 == "xai"@);
}

/// A provider whose name stands for an address is asked there where no other
/// address is configured, whatever its key, its protocol, its user agent and the
/// environment.
pub proof fn law_a_name_stands_for_its_address(
    i: int,
    config: ProviderConfig,
    gateway_user_agent: Option<Seq<char>>,
    named_key: Option<Seq<char>>,
    vars: Vars,
)
    requires
        0 <= i < addresses().len(),
        config.base_url is None,
    ensures
        base_url_of(
            configured(addresses()[i].0, config, gateway_user_agent, named_key, vars),
        ) == Some(addresses()[i].1),
{
    lemma_addresses(addresses()[i].0, i);
}

/// A Codex proxy without a configured address is asked where the environment
/// says, or else at its default address.
pub proof fn law_the_default_address_of_a_codex_proxy(
    name: Seq<char>,
    config: ProviderConfig,
    gateway_user_agent: Option<Seq<char>>,
    named_key: Option<Seq<char>>,
    vars: Vars,
)
    requires
        names_codex(name),
        config.base_url is None,
    ensures
        base_url_of(configured(name, config, gateway_user_agent, named_key, vars)) == Some(
            if vars.contains_key("CODEX_PROXY_BASE_URL"@) {
                vars["CODEX_PROXY_BASE_URL"@]
            } else {
                "http://127.0.0.1:8787"@
            },
        ),
{
}

/// A provider under any other name, for which no address is configured, is asked
/// at the service's own address; one that speaks Ollama's protocol is asked on
/// this machine.
pub proof fn law_other_names_stand_for_no_address(
    name: Seq<char>,
    config: ProviderConfig,
    gateway_user_agent: Option<Seq<char>>,
    named_key: Option<Seq<char>>,
    vars: Vars,
)
    requires
        !names_codex(name),
        !has_address(name),
        config.base_url is None,
    ensures
        ({
            let provider = configured(name, config, gateway_user_agent, named_key, vars);
            base_url_of(provider) == if provider is OpenAi && provider->mode == OpenAiMode::Ollama {
                Some("http://localhost:11434"@)
            } else {
                None
            }
        }),
{
    lemma_addresses(name, 0);
}

/// A configured address is used as it stands, whatever else is configured; only
/// a Codex proxy goes by the environment first.
pub proof fn law_a_configured_address_is_used(
    name: Seq<char>,
    config: ProviderConfig,
    gateway_user_agent: Option<Seq<char>>,
    named_key: Option<Seq<char>>,
    vars: Vars,
    address: String,
)
    requires
        config.base_url == Some(address),
        !names_codex(name) || !vars.contains_key("CODEX_PROXY_BASE_URL"@),
    ensures
        base_url_of(configured(name, config, gateway_user_agent, named_key, vars)) == Some(
            address@,
        ),
{
}

/// What a provider is asked with as its key: the configured one, or else the one
/// under the provider's own name, or else the one of the service whose protocol
/// it speaks. Where there is none, a provider of Anthropic or Gemini has an empty
/// key, and one of OpenAI has none.
pub proof fn law_keys_in_their_order(
    name: Seq<char>,
    config: ProviderConfig,
    gateway_user_agent: Option<Seq<char>>,
    named_key: Option<Seq<char>>,
    vars: Vars,
)
    requires
        !names_codex(name),
    ensures
        ({
            let provider = configured(name, config, gateway_user_agent, named_key, vars);
            let shared = if provider is Anthropic {
                "ANTHROPIC_API_KEY"@
            } else if provider is Gemini {
                "GEMINI_API_KEY"@
            } else {
                "OPENAI_API_KEY"@
            };
            let none = if provider is OpenAi {
                None
            } else {
                Some(Seq::<char>::empty())
            };
            &&& config.api_key matches Some(key) ==> api_key_of(provider) == Some(key@)
            &&& config.api_key is None && named_key is Some ==> api_key_of(provider) == named_key
            &&& config.api_key is None && named_key is None ==> api_key_of(provider)
                == if vars.contains_key(shared) {
                Some(vars[shared])
            } else {
                none
            }
        }),
{
}

/// The user agent is the provider's own where it is configured, or else the
/// gateway's.
pub proof fn law_user_agents_in_their_order(
    name: Seq<char>,
    config: ProviderConfig,
    gateway_user_agent: Option<Seq<char>>,
    named_key: Option<Seq<char>>,
    vars: Vars,
)
    ensures
        ({
            let provider = configured(name, config, gateway_user_agent, named_key, vars);
            &&& config.user_agent matches Some(own) ==> user_agent_of(provider) == Some(own@)
            &&& config.user_agent is None ==> user_agent_of(provider) == gateway_user_agent
        }),
{
}

/// A provider for which no protocol is written speaks the one of its name: those
/// of Anthropic, Gemini and Ollama speak their own, Doubao and ByteDance answer
/// by OpenAI's responses, a Codex proxy is one, and every other speaks OpenAI's
/// completions.
pub proof fn law_names_stand_for_protocols(
    name: Seq<char>,
    config: ProviderConfig,
    gateway_user_agent: Option<Seq<char>>,
    named_key: Option<Seq<char>>,
    vars: Vars,
)
    requires
        config.api is None,
    ensures
        ({
            let provider = configured(name, config, gateway_user_agent, named_key, vars);
            &&& provider is CodexProxy <==> names_codex(name)
            &&& provider is Anthropic <==> name == "anthropic"@
            &&& provider is Gemini <==> name == "gemini"@
            &&& provider is OpenAi ==> {
                &&& provider->mode == OpenAiMode::Ollama <==> name == "ollama"@
                &&& provider->mode == OpenAiMode::Responses <==> name == "doubao"@ || name
                    == "bytedance"@
            }
        }),
{
    lemma_names_differ();
}

/// A provider for which a protocol is written speaks it, under every name but
/// those of a Codex proxy, of Anthropic and of Gemini.
pub proof fn law_the_written_protocol_is_spoken(
    name: Seq<char>,
    config: ProviderConfig,
    gateway_user_agent: Option<Seq<char>>,
    named_key: Option<Seq<char>>,
    vars: Vars,
    format: ApiFormat,
)
    requires
        config.api == Some(format),
        !names_codex(name),
        name != "anthropic"@,
        name != "gemini"@,
    ensures
        ({
            let provider = configured(name, config, gateway_user_agent, named_key, vars);
            &&& provider is Anthropic <==> format is Anthropic || format is AnthropicMessages
            &&& provider is Gemini <==> format is Gemini
            &&& provider is OpenAi <==> format is OpenAiCompletions || format is OpenAiResponses
                || format is Ollama
            &&& provider is OpenAi ==> {
                &&& provider->mode == OpenAiMode::Ollama <==> format is Ollama
                &&& provider->mode == OpenAiMode::Responses <==> format is OpenAiResponses
            }
        }),
{
}

/// The name of a Codex proxy and that of Anthropic count whatever is written, and
/// that of Gemini does unless a protocol of Anthropic is written.
pub proof fn law_some_names_count_before_what_is_written(
    name: Seq<char>,
    config: ProviderConfig,
    gateway_user_agent: Option<Seq<char>>,
    named_key: Option<Seq<char>>,
    vars: Vars,
)
    ensures
        ({
            let provider = configured(name, config, gateway_user_agent, named_key, vars);
            &&& provider is CodexProxy <==> names_codex(name)
            &&& name == "anthropic"@ ==> provider is Anthropic
            &&& name == "gemini"@ && config.api != Some(ApiFormat::Anthropic) && config.api != Some(
                ApiFormat::AnthropicMessages,
            ) ==> provider is Gemini
        }),
{
    lemma_names_differ();
}

/// A configured Codex proxy is asked under the path that the environment gives,
/// or else under the default one.
pub proof fn law_the_path_of_a_codex_proxy(
    name: Seq<char>,
    config: ProviderConfig,
    gateway_user_agent: Option<Seq<char>>,
    named_key: Option<Seq<char>>,
    vars: Vars,
)
    requires
        names_codex(name),
    ensures
        configured(name, config, gateway_user_agent, named_key, vars) matches
            ProviderModel::CodexProxy(proxy) && proxy.sse_path == if vars.contains_key(
            "CODEX_PROXY_SSE_PATH"@,
        ) {
            vars["CODEX_PROXY_SSE_PATH"@]
        } else {
            "/api/chat/sse"@
        },
{
}

/// Of the configurations under a name the last counts, with the gateway's user
/// agent, and with the key that the environment holds under the name in capitals
/// and `_API_KEY`; so it is known to the gateway, whatever else the environment
/// offers.
pub proof fn law_a_configured_provider_is_known(config: RuntimeConfig, vars: Vars, at: int)
    requires
        config.model.models is Some,
        0 <= at < config.model.models->0.providers@.len(),
        forall|i: int|
            at < i < config.model.models->0.providers@.len() ==> (
            #[trigger] config.model.models->0.providers@[i]).0@
                != config.model.models->0.providers@[at].0@,
    ensures
        ({
            let (name, own) = config.model.models->0.providers@[at];
            let key_name = in_capitals(name@) + "_API_KEY"@;
            let named_key = if vars.contains_key(key_name) {
                Some(vars[key_name])
            } else {
                None
            };
            named(known_providers(config, vars), name@) == Some(
                configured(name@, own, option_text(config.gateway.user_agent), named_key, vars),
            )
        }),
{
    let providers = config.model.models->0.providers@;
    lemma_last_configuration(providers, option_text(config.gateway.user_agent), vars, at);
    law_configuration_counts(config, vars, providers[at].0@);
}

/// The last configuration under a name counts.
proof fn lemma_last_configuration(
    providers: Seq<(String, ProviderConfig)>,
    gateway_user_agent: Option<Seq<char>>,
    vars: Vars,
    at: int,
)
    requires
        0 <= at < providers.len(),
        forall|i: int|
            at < i < providers.len() ==> (#[trigger] providers[i]).0@ != providers[at].0@,
    ensures
        ({
            let (name, own) = providers[at];
            let all = configured_providers(providers, gateway_user_agent, vars);
            &&& all.contains_key(name@)
            &&& all[name@] == configured(
                name@,
                own,
                gateway_user_agent,
                variable(vars, in_capitals(name@) + "_API_KEY"@),
                vars,
            )
        }),
    decreases providers.len(),
{
    if at < providers.len() - 1 {
        let front = providers.drop_last();
        assert(providers[providers.len() - 1].0@ != providers[at].0@);
        assert forall|i: int| at < i < front.len() implies (#[trigger] front[i]).0@
            != front[at].0@ by {
            assert(front[i] == providers[i]);
        }
        lemma_last_configuration(front, gateway_user_agent, vars, at);
    }
}

/// In ASCII text the letters become capitals, one by one, and nothing else
/// changes; the variable of a key is the name in capitals and `_API_KEY`.
pub proof fn law_capitals(text: Seq<char>, i: int)
    requires
        forall|j: int| 0 <= j < text.len() ==> #[trigger] text[j] <= '\u{7f}',
        0 <= i < text.len(),
    ensures
        in_capitals(text).len() == text.len(),
        'a' <= text[i] <= 'z' ==> in_capitals(text)[i] as int == text[i] as int - 'a' as int
            + 'A' as int,
        !('a' <= text[i] <= 'z') ==> in_capitals(text)[i] == text[i],
        key_variable(text) == in_capitals(text) + "_API_KEY"@,
{
}

/// Without configured providers the configuration makes none known.
pub proof fn law_no_configuration_makes_nothing_known(config: RuntimeConfig, vars: Vars)
    requires
        config.model.models is None || config.model.models->0.providers@.len() == 0,
    ensures
        providers_of(config, vars).dom() == Set::<Seq<char>>::empty(),
{
    assert(providers_of(config, vars).dom() =~= Set::<Seq<char>>::empty());
}

/// A provider of OpenAI that is set up from the environment.
pub open spec fn openai_at(
    mode: OpenAiMode,
    base_url: Option<Seq<char>>,
    api_key: Option<Seq<char>>,
) -> ProviderModel {
    ProviderModel::OpenAi { mode, base_url, api_key, user_agent: None }
}

/// Anthropic, OpenAI and Gemini, where they are not configured, are known just
/// where the environment holds their key, and are then asked with it at their own
/// addresses.
pub proof fn law_a_key_makes_a_service_known(config: RuntimeConfig, vars: Vars)
    ensures
        ({
            let configured = providers_of(config, vars);
            let known = known_providers(config, vars);
            &&& !configured.contains_key("anthropic"@) ==> named(known, "anthropic"@)
                == if vars.contains_key("ANTHROPIC_API_KEY"@) {
                Some(
                    ProviderModel::Anthropic {
                        api_key: vars["ANTHROPIC_API_KEY"@],
                        base_url: None,
                        user_agent: None,
                    },
                )
            } else {
                None
            }
            &&& !configured.contains_key("openai"@) ==> named(known, "openai"@)
                == if vars.contains_key("OPENAI_API_KEY"@) {
                Some(openai_at(OpenAiMode::Completions, None, Some(vars["OPENAI_API_KEY"@])))
            } else {
                None
            }
            &&& !configured.contains_key("gemini"@) ==> named(known, "gemini"@)
                == if vars.contains_key("GEMINI_API_KEY"@) {
                Some(
                    ProviderModel::Gemini {
                        api_key: vars["GEMINI_API_KEY"@],
                        base_url: None,
                        user_agent: None,
                    },
                )
            } else {
                None
            }
        }),
{
    let configured = providers_of(config, vars);
    assert(offers(vars)[0] == anthropic_offer(vars));
    assert(offers(vars)[1] == openai_offer(vars));
    assert(offers(vars)[2] == gemini_offer(vars));
    if !configured.contains_key("anthropic"@) {
        law_offer_is_taken_up(config, vars, 0);
    }
    if !configured.contains_key("openai"@) {
        law_offer_is_taken_up(config, vars, 1);
    }
    if !configured.contains_key("gemini"@) {
        law_offer_is_taken_up(config, vars, 2);
    }
}

/// A provider of the table, where it is not configured, is known just where the
/// environment holds its key, and is then asked with it at its address.
pub proof fn law_a_key_makes_a_row_known(config: RuntimeConfig, vars: Vars, i: int)
    requires
        0 <= i < compat_table().len(),
        !providers_of(config, vars).contains_key(compat_table()[i].name),
    ensures
        ({
            let row = compat_table()[i];
            named(known_providers(config, vars), row.name) == if vars.contains_key(row.env_key) {
                Some(
                    openai_at(
                        OpenAiMode::Completions,
                        Some(row.base_url),
                        Some(vars[row.env_key]),
                    ),
                )
            } else {
                None
            }
        }),
{
    law_key_makes_known(config, vars, i);
}

/// Doubao and ByteDance, where they are not configured, are known just where the
/// environment holds the key of the Ark service, under either of its names.
/// Ollama, where it is not configured, is known on this machine.
pub proof fn law_ark_and_ollama(config: RuntimeConfig, vars: Vars)
    ensures
        ({
            let configured = providers_of(config, vars);
            let known = known_providers(config, vars);
            let address = "https://ark.cn-beijing.volces.com/api/v3"@;
            let ark = if vars.contains_key("ARK_API_KEY"@) {
                Some(openai_at(OpenAiMode::Responses, Some(address), Some(vars["ARK_API_KEY"@])))
            } else if vars.contains_key("DOUBAO_API_KEY"@) {
                Some(openai_at(OpenAiMode::Responses, Some(address), Some(vars["DOUBAO_API_KEY"@])))
            } else {
                None
            };
            &&& !configured.contains_key("doubao"@) ==> named(known, "doubao"@) == ark
            &&& !configured.contains_key("bytedance"@) ==> named(known, "bytedance"@) == ark
            &&& !configured.contains_key("ollama"@) ==> named(known, "ollama"@) == Some(
                openai_at(OpenAiMode::Completions, Some("http://localhost:11434"@), None),
            )
        }),
{
    let configured = providers_of(config, vars);
    assert(offers(vars)[27] == ark_offer("doubao"@, vars));
    assert(offers(vars)[28] == ark_offer("bytedance"@, vars));
    assert(offers(vars)[29] == ollama_offer());
    if !configured.contains_key("doubao"@) {
        law_offer_is_taken_up(config, vars, 27);
    }
    if !configured.contains_key("bytedance"@) {
        law_offer_is_taken_up(config, vars, 28);
    }
    if !configured.contains_key("ollama"@) {
        law_offer_is_taken_up(config, vars, 29);
    }
}

/// A Codex proxy that the environment makes known is asked where the environment
/// says, under the path that it gives or else the default one, and under the
/// built-in user agent.
pub proof fn law_a_codex_proxy_of_the_environment(config: RuntimeConfig, vars: Vars)
    requires
        !providers_of(config, vars).contains_key("codex-proxy"@),
        vars.contains_key("CODEX_PROXY_BASE_URL"@),
    ensures
        named(known_providers(config, vars), "codex-proxy"@) matches Some(
            ProviderModel::CodexProxy(proxy),
        ) && {
            &&& proxy.base_url == vars["CODEX_PROXY_BASE_URL"@]
            &&& proxy.user_agent is None
            &&& proxy.sse_path == if vars.contains_key("CODEX_PROXY_SSE_PATH"@) {
                vars["CODEX_PROXY_SSE_PATH"@]
            } else {
                "/api/chat/sse"@
            }
        },
{
    assert(offers(vars)[3] == codex_offer(vars));
    law_offer_is_taken_up(config, vars, 3);
}

/// A name of the table that stands for an address stands for the same one in the
/// table, so that it makes no difference to the address whether a provider is
/// configured or made known by the environment.
pub proof fn law_the_table_agrees_with_the_names(i: int)
    requires
        0 <= i < compat_table().len(),
    ensures
        well_known_base(compat_table()[i].name) matches Some(address) ==> address
            == compat_table()[i].base_url,
{
    lemma_names_differ();
    reveal_strlit("mistral");
    reveal_strlit("together");
    reveal_strlit("cerebras");
    reveal_strlit("fireworks");
    reveal_strlit("perplexity");
    reveal_strlit("cohere");
    reveal_strlit("huggingface");
    reveal_strlit("baichuan");
    reveal_strlit("stepfun");
    reveal_strlit("lingyi");
    reveal_strlit("baidu");
    reveal_strlit("infini");
    let table = compat_table();
    assert(table[2].name[2] == 's' && "minimax"@[2] == 'n') by {
        reveal_strlit("minimax");
    }
    assert(table[2].name.len() == 7);
    assert(table[3].name.len() == 8 && table[3].name[0] == 't');
    assert(table[6].name.len() == 8 && table[6].name[0] == 'c');
    assert(table[7].name.len() == 9);
    assert(table[8].name.len() == 10 && table[8].name[0] == 'p');
    assert(table[9].name.len() == 6);
    assert(table[10].name.len() == 11 && table[10].name[0] == 'h');
    assert(table[16].name.len() == 8 && table[16].name[0] == 'b');
    assert(table[18].name.len() == 7 && table[18].name[0] == 's');
    assert("minimax"@[0] == 'm') by {
        reveal_strlit("minimax");
    }
    assert(table[19].name.len() == 6);
    assert(table[20].name.len() == 5 && table[20].name[0] == 'b');
    assert(table[22].name.len() == 6);
}

/// A model stands for the provider that is written as its alias, or else for what
/// stands before the first slash of its model; where neither gives one it stands
/// for none.
pub proof fn law_what_a_model_stands_for(alias: ModelAlias, head: Seq<char>, tail: Seq<char>)
    requires
        forall|i: int| 0 <= i < head.len() ==> #[trigger] head[i] != '/',
    ensures
        alias.alias matches Some(target) ==> alias_target(alias) == Some(target@),
        alias.alias is None && alias.model is None ==> alias_target(alias) is None,
        alias.alias is None && alias.model is Some && alias.model->0@ == head.push('/') + tail
            ==> alias_target(alias) == Some(head),
        alias.alias is None && alias.model is Some && alias.model->0@ == head ==> alias_target(
            alias,
        ) is None,
{
    law_before_the_first(head, '/', tail);
}

/// Of the entries of a model the last that stands for a provider counts.
pub proof fn law_the_last_alias_counts(models: Seq<(String, ModelAlias)>, at: int)
    requires
        0 <= at < models.len(),
        alias_target(models[at].1) is Some,
        forall|i: int|
            at < i < models.len() ==> (#[trigger] models[i]).0@ != models[at].0@ || alias_target(
                models[i].1,
            ) is None,
    ensures
        aliases_of(models).contains_key(models[at].0@),
        Some(aliases_of(models)[models[at].0@]) == alias_target(models[at].1),
    decreases models.len(),
{
    if at < models.len() - 1 {
        let front = models.drop_last();
        let last = models[models.len() - 1];
        assert(last.0@ != models[at].0@ || alias_target(last.1) is None);
        assert forall|i: int| at < i < front.len() implies (#[trigger] front[i]).0@ != front[at].0@
            || alias_target(front[i].1) is None by {
            assert(front[i] == models[i]);
        }
        law_the_last_alias_counts(front, at);
    }
}

/// No other model stands for a provider.
pub proof fn law_no_other_model_has_an_alias(models: Seq<(String, ModelAlias)>, name: Seq<char>)
    requires
        forall|i: int|
            0 <= i < models.len() ==> (#[trigger] models[i]).0@ != name || alias_target(
                models[i].1,
            ) is None,
    ensures
        !aliases_of(models).contains_key(name),
    decreases models.len(),
{
    if models.len() > 0 {
        let front = models.drop_last();
        let last = models[models.len() - 1];
        assert(last.0@ != name || alias_target(last.1) is None);
        assert forall|i: int| 0 <= i < front.len() implies (#[trigger] front[i]).0@ != name
            || alias_target(front[i].1) is None by {
            assert(front[i] == models[i]);
        }
        law_no_other_model_has_an_alias(front, name);
    }
}

/// The aliases that a gateway knows are those of its configuration.
pub proof fn law_aliases_are_those_of_the_configuration(config: RuntimeConfig, name: Seq<char>)
    ensures
        config.agents.defaults.models is None ==> !known_aliases(config).contains_key(name),
        config.agents.defaults.models matches Some(models) ==> known_aliases(config) == aliases_of(
            models@,
        ),
{
}

/// Of two variables of the same name the first counts; the others are left alone.
pub proof fn law_the_first_variable_counts(
    vars: Seq<(String, String)>,
    name: String,
    value: String,
    other: Seq<char>,
)
    ensures
        ({
            let all = vars_model(seq![(name, value)] + vars);
            &&& variable(all, name@) == Some(value@)
            &&& other != name@ ==> variable(all, other) == variable(vars_model(vars), other)
        }),
        variable(vars_model(Seq::empty()), other) is None,
{
    let all = seq![(name, value)] + vars;
    assert(all.drop_first() =~= vars);
    assert(all.first() == (name, value));
}

/// A variable has the value that it is set to, and none where it is not set.
pub proof fn law_variables_have_their_values(vars: Vars, name: Seq<char>)
    ensures
        vars.contains_key(name) ==> variable(vars, name) == Some(vars[name]),
        !vars.contains_key(name) ==> variable(vars, name) is None,
{
}

/// A provider means what it holds.
pub proof fn law_a_provider_means_what_it_holds(
    mode: OpenAiMode,
    key: String,
    base_url: Option<String>,
    api_key: Option<String>,
    user_agent: Option<String>,
    proxy: CodexProxyProvider,
)
    ensures
        Provider::CodexProxy(proxy)@ == ProviderModel::CodexProxy(proxy@),
        (Provider::Anthropic { api_key: key, base_url, user_agent })@ == (
        ProviderModel::Anthropic {
            api_key: key@,
            base_url: option_text(base_url),
            user_agent: option_text(user_agent),
        }),
        (Provider::Gemini { api_key: key, base_url, user_agent })@ == (ProviderModel::Gemini {
            api_key: key@,
            base_url: option_text(base_url),
            user_agent: option_text(user_agent),
        }),
        (Provider::OpenAi { mode, base_url, api_key, user_agent })@ == (ProviderModel::OpenAi {
            mode,
            base_url: option_text(base_url),
            api_key: option_text(api_key),
            user_agent: option_text(user_agent),
        }),
{
}

} // verus!
