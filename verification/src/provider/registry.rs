//! The providers that a gateway knows.

use crate::name_map::{texts, NameMap};
use crate::provider::codex_proxy::{CodexProxyModel, CodexProxyProvider};
use crate::text::option_text;
use vstd::prelude::*;

verus! {

/// How a provider that speaks a protocol of OpenAI is asked.
#[derive(Clone, Copy, Debug, PartialEq, Eq, Structural)]
pub enum OpenAiMode {
    Completions,
    Responses,
    Ollama,
}

/// A provider and how it is set up. A missing `base_url` stands for the address
/// of the service that the variant is named after, a missing `user_agent` for
/// the built-in one.
#[derive(Debug, PartialEq, Eq)]
#[allow(inconsistent_fields)]
pub enum Provider {
    CodexProxy(CodexProxyProvider),
    Anthropic { api_key: String, base_url: Option<String>, user_agent: Option<String> },
    Gemini { api_key: String, base_url: Option<String>, user_agent: Option<String> },
    OpenAi {
        mode: OpenAiMode,
        base_url: Option<String>,
        api_key: Option<String>,
        user_agent: Option<String>,
    },
}

/// What a [`Provider`] means.
#[allow(inconsistent_fields)]
pub enum ProviderModel {
    CodexProxy(CodexProxyModel),
    Anthropic {
        api_key: Seq<char>,
        base_url: Option<Seq<char>>,
        user_agent: Option<Seq<char>>,
    },
    Gemini { api_key: Seq<char>, base_url: Option<Seq<char>>, user_agent: Option<Seq<char>> },
    OpenAi {
        mode: OpenAiMode,
        base_url: Option<Seq<char>>,
        api_key: Option<Seq<char>>,
        user_agent: Option<Seq<char>>,
    },
}

impl View for Provider {
    type V = ProviderModel;

    open spec fn view(&self) -> ProviderModel {
        match self {
            Provider::CodexProxy(provider) => ProviderModel::CodexProxy(provider@),
            Provider::Anthropic { api_key, base_url, user_agent } => ProviderModel::Anthropic {
                api_key: api_key@,
                base_url: option_text(*base_url),
                user_agent: option_text(*user_agent),
            },
            Provider::Gemini { api_key, base_url, user_agent } => ProviderModel::Gemini {
                api_key: api_key@,
                base_url: option_text(*base_url),
                user_agent: option_text(*user_agent),
            },
            Provider::OpenAi { mode, base_url, api_key, user_agent } => ProviderModel::OpenAi {
                mode: *mode,
                base_url: option_text(*base_url),
                api_key: option_text(*api_key),
                user_agent: option_text(*user_agent),
            },
        }
    }
}

/// The providers that a gateway knows, by name, and the names of models that
/// stand for a provider.
#[derive(Debug)]
pub struct ProviderRegistry {
    providers: NameMap<Provider>,
    aliases: NameMap<String>,
}

/// Providers by name.
pub type Providers = Map<Seq<char>, ProviderModel>;

/// Names of providers by the names of models.
pub type Aliases = Map<Seq<char>, Seq<char>>;

impl ProviderRegistry {
    /// The providers, by name.
    pub closed spec fn providers(self) -> Providers {
        self.providers@.map_values(|provider: Provider| provider@)
    }

    /// The models that stand for a provider, with its name.
    pub closed spec fn aliases(self) -> Aliases {
        self.aliases@.map_values(|target: String| target@)
    }

    /// A registry without providers.
    pub fn new() -> (registry: ProviderRegistry)
        ensures
            registry.providers() == Map::<Seq<char>, ProviderModel>::empty(),
            registry.aliases() == Map::<Seq<char>, Seq<char>>::empty(),
    {
        let registry = ProviderRegistry { providers: NameMap::new(), aliases: NameMap::new() };
        proof {
            assert(registry.providers() =~= Map::empty());
            assert(registry.aliases() =~= Map::empty());
        }
        registry
    }

    /// Makes a provider known under a name, in place of one that had it.
    pub fn register(&mut self, name: &str, provider: Provider)
        ensures
            final(self).providers() == old(self).providers().insert(name@, provider@),
            final(self).aliases() == old(self).aliases(),
    {
        let ghost before = self.providers();
        self.providers.insert(name.to_owned(), provider);
        assert(self.providers() =~= before.insert(name@, provider@));
    }

    /// Whether a provider of that name is known.
    pub fn contains(&self, name: &str) -> (yes: bool)
        ensures
            yes == self.providers().contains_key(name@),
    {
        self.providers.contains(name)
    }

    /// The provider of that name, where one is known.
    pub fn get(&self, name: &str) -> (provider: Option<&Provider>)
        ensures
            provider is Some <==> self.providers().contains_key(name@),
            provider matches Some(provider) ==> self.providers()[name@] == provider@,
    {
        self.providers.get(name)
    }

    /// The names of the providers, each of them once.
    pub fn names(&self) -> (names: Vec<&str>)
        ensures
            texts(names@).no_duplicates(),
            texts(names@).to_set() == self.providers().dom(),
    {
        assert(self.providers().dom() =~= self.providers@.dom());
        self.providers.names()
    }

    /// Says which models stand for which provider, in place of what was said
    /// before.
    pub fn set_model_aliases(&mut self, aliases: NameMap<String>)
        ensures
            final(self).aliases() == aliases@.map_values(|target: String| target@),
            final(self).providers() == old(self).providers(),
    {
        self.aliases = aliases;
    }

    /// The name of the provider that a model stands for, where it stands for one.
    pub fn alias(&self, model: &str) -> (provider: Option<&str>)
        ensures
            provider is Some <==> self.aliases().contains_key(model@),
            provider matches Some(provider) ==> self.aliases()[model@] == provider@,
    {
        match self.aliases.get(model) {
            Some(target) => Some(target.as_str()),
            None => None,
        }
    }
}

} // verus!
