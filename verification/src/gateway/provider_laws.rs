//! What holds of the providers that a gateway knows, whatever its
//! configuration and its environment.

use crate::config::{ApiFormat, ModelAlias, ProviderConfig, RuntimeConfig};
use crate::environment::variable;
use crate::gateway::providers::{
    alias_target, anthropic_offer, ark_offer, codex_offer, compat_offer, compat_table, configured,
    configured_providers, gemini_offer, inferred_format, keyed_openai, known_providers, offers,
    ollama_offer, openai_offer, providers_of, with_offers, CompatModel, Offer, Vars,
};
use crate::provider::registry::{OpenAiMode, ProviderModel, Providers};
use crate::text::{before_first, first_of, option_text, or_default};
use vstd::prelude::*;

verus! {

/// The provider of that name, where there is one.
pub open spec fn named(providers: Providers, name: Seq<char>) -> Option<ProviderModel> {
    if providers.contains_key(name) {
        Some(providers[name])
    } else {
        None
    }
}

/// The first provider that is offered under that name.
pub open spec fn first_offered(offers: Seq<Offer>, name: Seq<char>) -> Option<ProviderModel>
    decreases offers.len(),
{
    if offers.len() == 0 {
        None
    } else {
        first_of(
            first_offered(offers.drop_last(), name),
            if offers.last().name == name {
                offers.last().provider
            } else {
                None
            },
        )
    }
}

/// The user agent of a provider, where one is set.
pub open spec fn user_agent_of(provider: ProviderModel) -> Option<Seq<char>> {
    match provider {
        ProviderModel::CodexProxy(provider) => provider.user_agent,
        ProviderModel::Anthropic { api_key, base_url, user_agent } => user_agent,
        ProviderModel::Gemini { api_key, base_url, user_agent } => user_agent,
        ProviderModel::OpenAi { mode, base_url, api_key, user_agent } => user_agent,
    }
}

/// The address of a provider, where it is not the service's own.
pub open spec fn base_url_of(provider: ProviderModel) -> Option<Seq<char>> {
    match provider {
        ProviderModel::CodexProxy(provider) => Some(provider.base_url),
        ProviderModel::Anthropic { api_key, base_url, user_agent } => base_url,
        ProviderModel::Gemini { api_key, base_url, user_agent } => base_url,
        ProviderModel::OpenAi { mode, base_url, api_key, user_agent } => base_url,
    }
}

/// The key of a provider, where there is one; a Codex proxy has none.
pub open spec fn api_key_of(provider: ProviderModel) -> Option<Seq<char>> {
    match provider {
        ProviderModel::CodexProxy(provider) => None,
        ProviderModel::Anthropic { api_key, base_url, user_agent } => Some(api_key),
        ProviderModel::Gemini { api_key, base_url, user_agent } => Some(api_key),
        ProviderModel::OpenAi { mode, base_url, api_key, user_agent } => api_key,
    }
}

/// After some offers each name stands for the provider that it stood for
/// before, or else for the first that was offered under it.
pub proof fn law_first_offer_counts(providers: Providers, offers: Seq<Offer>, name: Seq<char>)
    ensures
        named(with_offers(providers, offers), name) == first_of(
            named(providers, name),
            first_offered(offers, name),
        ),
    decreases offers.len(),
{
    if offers.len() > 0 {
        law_first_offer_counts(providers, offers.drop_last(), name);
    }
}

/// What is configured counts: a provider of the environment never takes the
/// place of a configured one.
pub proof fn law_configuration_counts(config: RuntimeConfig, vars: Vars, name: Seq<char>)
    requires
        providers_of(config, vars).contains_key(name),
    ensures
        known_providers(config, vars).contains_key(name),
        known_providers(config, vars)[name] == providers_of(config, vars)[name],
{
    law_first_offer_counts(providers_of(config, vars), offers(vars), name);
}

/// A gateway knows no providers but those that are configured and those that
/// the environment offers.
pub proof fn law_nothing_else_is_known(config: RuntimeConfig, vars: Vars, name: Seq<char>)
    requires
        known_providers(config, vars).contains_key(name),
        !providers_of(config, vars).contains_key(name),
    ensures
        first_offered(offers(vars), name) == Some(known_providers(config, vars)[name]),
{
    law_first_offer_counts(providers_of(config, vars), offers(vars), name);
}

/// Ollama, for which no key is needed, is always known.
pub proof fn law_ollama_is_always_known(config: RuntimeConfig, vars: Vars)
    ensures
        known_providers(config, vars).contains_key("ollama"@),
{
    let all = offers(vars);
    assert(all.last() == ollama_offer());
    assert(first_offered(all, "ollama"@) is Some);
    law_first_offer_counts(providers_of(config, vars), all, "ollama"@);
}

/// What is offered under a name, where the offers hold just one of that name.
proof fn lemma_only_offer(offers: Seq<Offer>, at: int)
    requires
        0 <= at < offers.len(),
        forall|i: int|
            0 <= i < offers.len() && i != at ==> (#[trigger] offers[i]).name != offers[at].name,
    ensures
        first_offered(offers, offers[at].name) == offers[at].provider,
    decreases offers.len(),
{
    let name = offers[at].name;
    let front = offers.drop_last();
    if at == offers.len() - 1 {
        assert forall|i: int| 0 <= i < front.len() implies (#[trigger] front[i]).name != name by {
            assert(front[i] == offers[i]);
        }
        lemma_no_offer(front, name);
    } else {
        assert(offers[offers.len() - 1].name != name);
        assert forall|i: int| 0 <= i < front.len() && i != at implies (#[trigger] front[i]).name
            != front[at].name by {
            assert(front[i] == offers[i]);
        }
        lemma_only_offer(front, at);
    }
}

/// Nothing is offered under a name that no offer has.
proof fn lemma_no_offer(offers: Seq<Offer>, name: Seq<char>)
    requires
        forall|i: int| 0 <= i < offers.len() ==> (#[trigger] offers[i]).name != name,
    ensures
        first_offered(offers, name) is None,
    decreases offers.len(),
{
    if offers.len() > 0 {
        let front = offers.drop_last();
        assert(offers[offers.len() - 1].name != name);
        assert forall|i: int| 0 <= i < front.len() implies (#[trigger] front[i]).name != name by {
            assert(front[i] == offers[i]);
        }
        lemma_no_offer(front, name);
    }
}

/// Where a name stands among the offers, told by its length and a letter or two.
spec fn place(name: Seq<char>) -> int {
    if name.len() == 3 {
        9
    } else if name.len() == 4 {
        if name[0] == 'g' {
            4
        } else if name[0] == 'q' {
            16
        } else {
            17
        }
    } else if name.len() == 5 {
        if name[0] == 'z' {
            19
        } else {
            24
        }
    } else if name.len() == 6 {
        if name[0] == 'o' {
            if name[1] == 'p' {
                1
            } else {
                29
            }
        } else if name[0] == 'g' {
            2
        } else if name[0] == 'c' {
            13
        } else if name[0] == 'l' {
            23
        } else if name[0] == 'i' {
            26
        } else {
            27
        }
    } else if name.len() == 7 {
        if name[0] == 's' {
            22
        } else if name[2] == 's' {
            6
        } else {
            21
        }
    } else if name.len() == 8 {
        if name[0] == 'd' {
            5
        } else if name[0] == 't' {
            7
        } else if name[0] == 'c' {
            10
        } else if name[0] == 'm' {
            18
        } else {
            20
        }
    } else if name.len() == 9 {
        if name[0] == 'a' {
            0
        } else if name[0] == 'f' {
            11
        } else {
            28
        }
    } else if name.len() == 10 {
        if name[0] == 'o' {
            8
        } else if name[0] == 'p' {
            12
        } else {
            25
        }
    } else {
        if name[0] == 'c' {
            3
        } else if name[0] == 'h' {
            14
        } else {
            15
        }
    }
}

/// The names in the table stand at their places.
proof fn lemma_places_of_the_table(i: int)
    requires
        0 <= i < compat_table().len(),
    ensures
        place(compat_table()[i].name) == 4 + i,
{
    let table = compat_table();
    reveal_strlit("groq");
    assert(place(table[0].name) == 4);
    reveal_strlit("deepseek");
    assert(place(table[1].name) == 5);
    reveal_strlit("mistral");
    assert(place(table[2].name) == 6);
    reveal_strlit("together");
    assert(place(table[3].name) == 7);
    reveal_strlit("openrouter");
    assert(place(table[4].name) == 8);
    reveal_strlit("xai");
    assert(place(table[5].name) == 9);
    reveal_strlit("cerebras");
    assert(place(table[6].name) == 10);
    reveal_strlit("fireworks");
    assert(place(table[7].name) == 11);
    reveal_strlit("perplexity");
    assert(place(table[8].name) == 12);
    reveal_strlit("cohere");
    assert(place(table[9].name) == 13);
    reveal_strlit("huggingface");
    assert(place(table[10].name) == 14);
    reveal_strlit("siliconflow");
    assert(place(table[11].name) == 15);
    reveal_strlit("qwen");
    assert(place(table[12].name) == 16);
    reveal_strlit("kimi");
    assert(place(table[13].name) == 17);
    reveal_strlit("moonshot");
    assert(place(table[14].name) == 18);
    reveal_strlit("zhipu");
    assert(place(table[15].name) == 19);
    reveal_strlit("baichuan");
    assert(place(table[16].name) == 20);
    reveal_strlit("minimax");
    assert(place(table[17].name) == 21);
    reveal_strlit("stepfun");
    assert(place(table[18].name) == 22);
    reveal_strlit("lingyi");
    assert(place(table[19].name) == 23);
    reveal_strlit("baidu");
    assert(place(table[20].name) == 24);
    reveal_strlit("gaterouter");
    assert(place(table[21].name) == 25);
    reveal_strlit("infini");
    assert(place(table[22].name) == 26);
}

/// The offer that stands at a place, and the name in it.
proof fn lemma_places(vars: Vars, i: int)
    requires
        0 <= i < offers(vars).len(),
    ensures
        place(offers(vars)[i].name) == i,
{
    let all = offers(vars);
    let table = compat_table();
    let from_table = table.map_values(|row: CompatModel| compat_offer(row, vars));
    if i < 4 {
        reveal_strlit("anthropic");
        assert(all[0] == anthropic_offer(vars) && place("anthropic"@) == 0);
        reveal_strlit("openai");
        assert(all[1] == openai_offer(vars) && place("openai"@) == 1);
        reveal_strlit("gemini");
        assert(all[2] == gemini_offer(vars) && place("gemini"@) == 2);
        reveal_strlit("codex-proxy");
        assert(all[3] == codex_offer(vars) && place("codex-proxy"@) == 3);
    } else if i < 4 + table.len() {
        lemma_places_of_the_table(i - 4);
        assert(all[i] == from_table[i - 4]);
        assert(from_table[i - 4] == compat_offer(table[i - 4], vars));
    } else {
        let rest = 4 + table.len() as int;
        reveal_strlit("doubao");
        assert(all[rest] == ark_offer("doubao"@, vars) && place("doubao"@) == 27);
        reveal_strlit("bytedance");
        assert(all[rest + 1] == ark_offer("bytedance"@, vars) && place("bytedance"@) == 28);
        reveal_strlit("ollama");
        assert(all[rest + 2] == ollama_offer() && place("ollama"@) == 29);
        assert(i == rest || i == rest + 1 || i == rest + 2);
    }
}

/// No two offers of an environment are made under the same name.
pub proof fn law_each_name_is_offered_once(vars: Vars, i: int, j: int)
    requires
        0 <= i < offers(vars).len(),
        0 <= j < offers(vars).len(),
        i != j,
    ensures
        offers(vars)[i].name != offers(vars)[j].name,
{
    lemma_places(vars, i);
    lemma_places(vars, j);
}

/// What an environment offers under a name that is not configured is what the
/// gateway knows under that name, be it a provider or none.
pub proof fn law_offer_is_taken_up(config: RuntimeConfig, vars: Vars, i: int)
    requires
        0 <= i < offers(vars).len(),
        !providers_of(config, vars).contains_key(offers(vars)[i].name),
    ensures
        named(known_providers(config, vars), offers(vars)[i].name) == offers(vars)[i].provider,
{
    let all = offers(vars);
    assert forall|j: int| 0 <= j < all.len() && j != i implies (#[trigger] all[j]).name
        != all[i].name by {
        law_each_name_is_offered_once(vars, j, i);
    }
    lemma_only_offer(all, i);
    law_first_offer_counts(providers_of(config, vars), all, all[i].name);
}

/// A provider of the table that is not configured is known just where the
/// environment holds its key; it is then asked at its address, with that key.
pub proof fn law_key_makes_known(config: RuntimeConfig, vars: Vars, i: int)
    requires
        0 <= i < compat_table().len(),
        !providers_of(config, vars).contains_key(compat_table()[i].name),
    ensures
        ({
            let row = compat_table()[i];
            named(known_providers(config, vars), row.name) == keyed_openai(
                OpenAiMode::Completions,
                Some(row.base_url),
                variable(vars, row.env_key),
            )
        }),
{
    let from_table = compat_table().map_values(|row: CompatModel| compat_offer(row, vars));
    assert(offers(vars)[4 + i] == from_table[i]);
    assert(from_table[i] == compat_offer(compat_table()[i], vars));
    law_offer_is_taken_up(config, vars, 4 + i);
}

/// Two names of one service, where neither is configured, stand for the same
/// provider: Kimi is Moonshot, and Doubao is ByteDance.
pub proof fn law_names_of_one_service(config: RuntimeConfig, vars: Vars)
    ensures
        ({
            let configured = providers_of(config, vars);
            let known = known_providers(config, vars);
            &&& !configured.contains_key("kimi"@) && !configured.contains_key("moonshot"@)
                ==> named(known, "kimi"@) == named(known, "moonshot"@)
            &&& !configured.contains_key("doubao"@) && !configured.contains_key("bytedance"@)
                ==> named(known, "doubao"@) == named(known, "bytedance"@)
        }),
{
    let configured = providers_of(config, vars);
    let table = compat_table();
    assert(table[13].name == "kimi"@ && table[14].name == "moonshot"@);
    if !configured.contains_key("kimi"@) && !configured.contains_key("moonshot"@) {
        law_key_makes_known(config, vars, 13);
        law_key_makes_known(config, vars, 14);
    }
    if !configured.contains_key("doubao"@) && !configured.contains_key("bytedance"@) {
        assert(offers(vars)[27] == ark_offer("doubao"@, vars));
        assert(offers(vars)[28] == ark_offer("bytedance"@, vars));
        law_offer_is_taken_up(config, vars, 27);
        law_offer_is_taken_up(config, vars, 28);
    }
}

/// A Codex proxy that is not configured is known just where the environment
/// says where it is, and then it is sought there.
pub proof fn law_codex_proxy_from_the_environment(config: RuntimeConfig, vars: Vars)
    requires
        !providers_of(config, vars).contains_key("codex-proxy"@),
    ensures
        known_providers(config, vars).contains_key("codex-proxy"@) <==> vars.contains_key(
            "CODEX_PROXY_BASE_URL"@,
        ),
        vars.contains_key("CODEX_PROXY_BASE_URL"@) ==> base_url_of(
            known_providers(config, vars)["codex-proxy"@],
        ) == Some(vars["CODEX_PROXY_BASE_URL"@]),
{
    assert(offers(vars)[3] == codex_offer(vars));
    law_offer_is_taken_up(config, vars, 3);
}

/// Without configuration and with an empty environment, Ollama is all that is
/// known.
pub proof fn law_ollama_alone(config: RuntimeConfig, name: Seq<char>)
    requires
        config.model.models is None,
        known_providers(config, Map::empty()).contains_key(name),
    ensures
        name == "ollama"@,
{
    let vars: Vars = Map::empty();
    let all = offers(vars);
    law_first_offer_counts(providers_of(config, vars), all, name);
    assert(first_offered(all, name) is Some);
    if name != "ollama"@ {
        let front = all.drop_last();
        assert(all.last() == ollama_offer());
        let table = compat_table();
        let from_table = table.map_values(|row: CompatModel| compat_offer(row, vars));
        assert forall|i: int| 0 <= i < front.len() implies (#[trigger] front[i]).provider is None by {
            if i < 4 {
                assert(front[0] == anthropic_offer(vars));
                assert(front[1] == openai_offer(vars));
                assert(front[2] == gemini_offer(vars));
                assert(front[3] == codex_offer(vars));
            } else if i < 4 + table.len() {
                assert(front[i] == from_table[i - 4]);
                assert(from_table[i - 4] == compat_offer(table[i - 4], vars));
            } else {
                let rest = 4 + table.len() as int;
                assert(front[rest] == ark_offer("doubao"@, vars));
                assert(front[rest + 1] == ark_offer("bytedance"@, vars));
                assert(i == rest || i == rest + 1);
            }
        }
        lemma_empty_offers(front, name);
    }
}

/// Offers without a provider offer nothing.
proof fn lemma_empty_offers(offers: Seq<Offer>, name: Seq<char>)
    requires
        forall|i: int| 0 <= i < offers.len() ==> (#[trigger] offers[i]).provider is None,
    ensures
        first_offered(offers, name) is None,
    decreases offers.len(),
{
    if offers.len() > 0 {
        let front = offers.drop_last();
        assert(offers[offers.len() - 1].provider is None);
        assert forall|i: int| 0 <= i < front.len() implies (#[trigger] front[i]).provider is None by {
            assert(front[i] == offers[i]);
        }
        lemma_empty_offers(front, name);
    }
}

/// Every configured provider is known by its name, and no other is: of two
/// with the same name the later one counts.
pub proof fn law_every_configured_provider_is_known(
    providers: Seq<(String, ProviderConfig)>,
    gateway_user_agent: Option<Seq<char>>,
    vars: Vars,
    name: Seq<char>,
)
    ensures
        configured_providers(providers, gateway_user_agent, vars).contains_key(name) <==> exists|
            i: int,
        |
            0 <= i < providers.len() && (#[trigger] providers[i]).0@ == name,
    decreases providers.len(),
{
    if providers.len() > 0 {
        let front = providers.drop_last();
        let last = providers.len() - 1;
        law_every_configured_provider_is_known(front, gateway_user_agent, vars, name);
        if exists|i: int| 0 <= i < front.len() && (#[trigger] front[i]).0@ == name {
            let i = choose|i: int| 0 <= i < front.len() && (#[trigger] front[i]).0@ == name;
            assert(providers[i] == front[i]);
        }
        if exists|i: int| 0 <= i < providers.len() && (#[trigger] providers[i]).0@ == name {
            let i = choose|i: int| 0 <= i < providers.len() && (#[trigger] providers[i]).0@ == name;
            if i < last {
                assert(front[i] == providers[i]);
            }
        }
        assert(providers[last].0@ == providers.last().0@);
    }
}

/// The user agent of a configured provider is its own, or else the gateway's,
/// or else the built-in one.
pub proof fn law_user_agent(
    name: Seq<char>,
    config: ProviderConfig,
    gateway_user_agent: Option<Seq<char>>,
    named_key: Option<Seq<char>>,
    vars: Vars,
)
    ensures
        user_agent_of(configured(name, config, gateway_user_agent, named_key, vars)) == first_of(
            option_text(config.user_agent),
            gateway_user_agent,
        ),
{
}

/// A provider speaks the protocol that is written in its configuration, or else
/// the one that its name stands for. The names of the Codex proxy and of
/// Anthropic count before what is written, and that of Gemini does unless a
/// protocol of Anthropic is written.
pub proof fn law_written_format_counts(
    name: Seq<char>,
    config: ProviderConfig,
    gateway_user_agent: Option<Seq<char>>,
    named_key: Option<Seq<char>>,
    vars: Vars,
)
    ensures
        ({
            let provider = configured(name, config, gateway_user_agent, named_key, vars);
            let format = or_default(config.api, inferred_format(name));
            if name == "codex-proxy"@ || name == "codex"@ {
                provider is CodexProxy
            } else if name == "anthropic"@ {
                provider is Anthropic
            } else if name == "gemini"@ && format != ApiFormat::Anthropic && format
                != ApiFormat::AnthropicMessages {
                provider is Gemini
            } else {
                match format {
                    ApiFormat::Anthropic => provider is Anthropic,
                    ApiFormat::AnthropicMessages => provider is Anthropic,
                    ApiFormat::Ollama => provider is OpenAi && provider->mode
                        == OpenAiMode::Ollama,
                    ApiFormat::OpenAiResponses => provider is OpenAi && provider->mode
                        == OpenAiMode::Responses,
                    ApiFormat::OpenAiCompletions => provider is OpenAi && provider->mode
                        == OpenAiMode::Completions,
                    ApiFormat::Gemini => provider is Gemini,
                }
            }
        }),
{
}

/// A configured address counts, save for a Codex proxy whose address the
/// environment gives.
pub proof fn law_configured_address_counts(
    name: Seq<char>,
    config: ProviderConfig,
    gateway_user_agent: Option<Seq<char>>,
    named_key: Option<Seq<char>>,
    vars: Vars,
)
    requires
        config.base_url is Some,
    ensures
        base_url_of(configured(name, config, gateway_user_agent, named_key, vars)) == if (name
            == "codex-proxy"@ || name == "codex"@) && vars.contains_key("CODEX_PROXY_BASE_URL"@) {
            Some(vars["CODEX_PROXY_BASE_URL"@])
        } else {
            option_text(config.base_url)
        },
{
}

/// A configured key counts before any key of the environment, and the key
/// under the provider's own name before those that several providers share.
pub proof fn law_nearest_key_counts(
    name: Seq<char>,
    config: ProviderConfig,
    gateway_user_agent: Option<Seq<char>>,
    named_key: Option<Seq<char>>,
    vars: Vars,
)
    requires
        name != "codex-proxy"@,
        name != "codex"@,
        first_of(option_text(config.api_key), named_key) is Some,
    ensures
        api_key_of(configured(name, config, gateway_user_agent, named_key, vars)) == first_of(
            option_text(config.api_key),
            named_key,
        ),
{
}

/// An alias that is written out counts before the provider of a model.
pub proof fn law_written_alias_counts(alias: ModelAlias)
    ensures
        alias.alias is Some ==> alias_target(alias) == option_text(alias.alias),
        alias.alias is None && alias.model is Some ==> alias_target(alias) == before_first(
            alias.model->0@,
            '/',
        ),
{
}

} // verus!
