//! The provider that reaches a language model by way of a local Codex proxy.
//!
//! The proxy is an adapter that speaks HTTP; the keys to the service behind
//! it are its own concern. By default it is sought at
//! [`CODEX_PROXY_DEFAULT_BASE`], under the path `/api/chat/sse`; the
//! environment variables `CODEX_PROXY_BASE_URL` and `CODEX_PROXY_SSE_PATH`
//! say otherwise.

use crate::environment::{variable, Environment};
use crate::json::{Json, JsonModel};
use crate::provider::message::LlmRequest;
use crate::provider::proxy_body::{body_members, build_proxy_body};
use crate::text::{
    begins_with, contains, followed_by, occurs_in, option_text, trim_trailing, without_trailing,
};
use vstd::prelude::*;
use vstd::string::*;

verus! {

/// Where the proxy is sought by default.
pub const CODEX_PROXY_DEFAULT_BASE: &'static str = "http://127.0.0.1:8787";

/// The path under which the proxy is asked by default.
pub const CODEX_PROXY_DEFAULT_SSE_PATH: &'static str = "/api/chat/sse";

/// The provider that reaches a language model by way of a local Codex proxy.
#[derive(Debug, PartialEq, Eq)]
pub struct CodexProxyProvider {
    base_url: String,
    sse_path: String,
    user_agent: Option<String>,
}

/// What a [`CodexProxyProvider`] means.
pub struct CodexProxyModel {
    pub base_url: Seq<char>,
    pub sse_path: Seq<char>,
    pub user_agent: Option<Seq<char>>,
}

impl View for CodexProxyProvider {
    type V = CodexProxyModel;

    closed spec fn view(&self) -> CodexProxyModel {
        CodexProxyModel {
            base_url: self.base_url@,
            sse_path: self.sse_path@,
            user_agent: option_text(self.user_agent),
        }
    }
}

/// The value of a variable, or another where it is not set.
pub open spec fn variable_or(
    vars: Map<Seq<char>, Seq<char>>,
    name: Seq<char>,
    default: Seq<char>,
) -> Seq<char> {
    match variable(vars, name) {
        Some(value) => value,
        None => default,
    }
}

/// The provider for a proxy at `base_url`, in an environment that may say
/// otherwise.
pub open spec fn codex_proxy(
    base_url: Seq<char>,
    user_agent: Option<Seq<char>>,
    vars: Map<Seq<char>, Seq<char>>,
) -> CodexProxyModel {
    CodexProxyModel {
        base_url: variable_or(vars, "CODEX_PROXY_BASE_URL"@, base_url),
        sse_path: variable_or(vars, "CODEX_PROXY_SSE_PATH"@, CODEX_PROXY_DEFAULT_SSE_PATH@),
        user_agent,
    }
}

/// A path with a slash at its start.
pub open spec fn normalized_path(path: Seq<char>) -> Seq<char> {
    if "/"@.is_prefix_of(path) {
        path
    } else {
        "/"@ + path
    }
}

/// The address under which a path of a server is asked.
pub open spec fn proxy_url(base_url: Seq<char>, path: Seq<char>) -> Seq<char> {
    without_trailing(base_url, '/') + normalized_path(path)
}

/// A request to the proxy, ready to be posted.
#[derive(Debug, PartialEq, Eq)]
pub struct ProxyRequest {
    pub url: String,
    pub content_type: &'static str,
    pub accept: &'static str,
    pub body: Json,
}

/// What becomes of the answer of the proxy.
#[derive(Clone, Copy, Debug, PartialEq, Eq, Structural)]
pub enum ResponsePlan {
    /// The answer is an error.
    Fail,
    /// The answer is one JSON value.
    Json,
    /// The answer is a stream of events.
    EventStream,
}

/// Whether an HTTP status stands for success.
pub open spec fn is_success(status: u16) -> bool {
    200 <= status < 300
}

/// What becomes of an answer with that status and that content type.
pub open spec fn planned(status: u16, content_type: Seq<char>) -> ResponsePlan {
    if !is_success(status) {
        ResponsePlan::Fail
    } else if occurs_in("json"@, content_type) && !occurs_in("text/event-stream"@, content_type) {
        ResponsePlan::Json
    } else {
        ResponsePlan::EventStream
    }
}

/// A path with a slash at its start.
pub fn normalize_path(path: &str) -> (normalized: String)
    ensures
        normalized@ == normalized_path(path@),
{
    if begins_with(path, "/") {
        path.to_owned()
    } else {
        followed_by("/", path)
    }
}

/// What becomes of an answer with that status and that content type; a
/// missing content type is an empty one.
pub fn plan_response(status: u16, content_type: Option<&str>) -> (plan: ResponsePlan)
    ensures
        plan == planned(
            status,
            match content_type {
                Some(content_type) => content_type@,
                None => Seq::empty(),
            },
        ),
{
    let content_type = match content_type {
        Some(content_type) => content_type,
        None => "",
    };
    proof {
        reveal_strlit("");
        assert(""@ =~= Seq::empty());
    }
    if status < 200 || status >= 300 {
        ResponsePlan::Fail
    } else if contains(content_type, "json") && !contains(content_type, "text/event-stream") {
        ResponsePlan::Json
    } else {
        ResponsePlan::EventStream
    }
}

impl CodexProxyProvider {
    /// The provider for a proxy at `base_url`, unless the environment says
    /// otherwise.
    pub fn new(base_url: &str, env: &Environment) -> (provider: CodexProxyProvider)
        ensures
            provider@ == codex_proxy(base_url@, None, env@),
    {
        Self::with_user_agent(base_url, None, env)
    }

    /// The same, for requests under the given user agent.
    pub fn with_user_agent(
        base_url: &str,
        user_agent: Option<String>,
        env: &Environment,
    ) -> (provider: CodexProxyProvider)
        ensures
            provider@ == codex_proxy(base_url@, option_text(user_agent), env@),
    {
        let base_url = match env.var("CODEX_PROXY_BASE_URL") {
            Some(url) => url,
            None => base_url.to_owned(),
        };
        let sse_path = match env.var("CODEX_PROXY_SSE_PATH") {
            Some(path) => path,
            None => CODEX_PROXY_DEFAULT_SSE_PATH.to_owned(),
        };
        CodexProxyProvider { base_url, sse_path, user_agent }
    }

    /// The name of the provider.
    pub fn name(&self) -> (name: &'static str)
        ensures
            name@ == "codex-proxy"@,
    {
        "codex-proxy"
    }

    /// The user agent under which requests are made, where one is set.
    pub fn user_agent(&self) -> (user_agent: Option<&str>)
        ensures
            user_agent is Some <==> self@.user_agent is Some,
            user_agent matches Some(user_agent) ==> self@.user_agent == Some(user_agent@),
    {
        match &self.user_agent {
            Some(user_agent) => Some(user_agent.as_str()),
            None => None,
        }
    }

    /// The address under which the proxy is asked.
    pub fn url(&self) -> (url: String)
        ensures
            url@ == proxy_url(self@.base_url, self@.sse_path),
    {
        let path = normalize_path(self.sse_path.as_str());
        followed_by(trim_trailing(self.base_url.as_str(), '/'), path.as_str())
    }

    /// The request to the proxy that asks for an answer to `request`.
    pub fn proxy_request(&self, request: &LlmRequest) -> (posted: ProxyRequest)
        ensures
            posted.url@ == proxy_url(self@.base_url, self@.sse_path),
            posted.content_type@ == "application/json"@,
            posted.accept@ == "text/event-stream"@,
            posted.body@ == JsonModel::Object(body_members(*request)),
    {
        ProxyRequest {
            url: self.url(),
            content_type: "application/json",
            accept: "text/event-stream",
            body: build_proxy_body(request),
        }
    }
}

/// A path that has been normalized begins with a slash, and normalizing it
/// once more changes nothing.
pub proof fn law_normalized_path(path: Seq<char>)
    ensures
        "/"@.is_prefix_of(normalized_path(path)),
        normalized_path(normalized_path(path)) == normalized_path(path),
{
    reveal_strlit("/");
    assert("/"@ =~= ("/"@ + path).subrange(0, 1));
}

/// A slash at the end of the base address makes no difference.
pub proof fn law_trailing_slash_makes_no_difference(base_url: Seq<char>, path: Seq<char>)
    ensures
        proxy_url(base_url.push('/'), path) == proxy_url(base_url, path),
{
    assert(base_url.push('/').drop_last() =~= base_url);
}

/// Nor does it make a difference whether a path is written with the slash at
/// its start or without.
pub proof fn law_leading_slash_makes_no_difference(base_url: Seq<char>, path: Seq<char>)
    requires
        !"/"@.is_prefix_of(path),
    ensures
        proxy_url(base_url, "/"@ + path) == proxy_url(base_url, path),
{
    law_normalized_path(path);
}

/// Between the base address and the path stands one slash, as long as the
/// path is not written with more.
pub proof fn law_one_slash_between(base_url: Seq<char>, path: Seq<char>)
    ensures
        ({
            let base = without_trailing(base_url, '/');
            &&& base.len() > 0 ==> base.last() != '/'
            &&& proxy_url(base_url, path)[base.len() as int] == '/'
            &&& proxy_url(base_url, path).take(base.len() as int) == base
        }),
    decreases base_url.len(),
{
    if base_url.len() > 0 && base_url.last() == '/' {
        law_one_slash_between(base_url.drop_last(), path);
    } else {
        law_normalized_path(path);
        reveal_strlit("/");
        assert(normalized_path(path).subrange(0, 1)[0] == '/');
        assert(proxy_url(base_url, path).take(base_url.len() as int) =~= base_url);
    }
}

/// What the environment says counts, whatever base address was asked for;
/// where it says nothing, the address that was asked for and the default path
/// count.
pub proof fn law_environment_counts(
    base_url: Seq<char>,
    other: Seq<char>,
    user_agent: Option<Seq<char>>,
    vars: Map<Seq<char>, Seq<char>>,
)
    ensures
        vars.contains_key("CODEX_PROXY_BASE_URL"@) ==> {
            &&& codex_proxy(base_url, user_agent, vars) == codex_proxy(other, user_agent, vars)
            &&& codex_proxy(base_url, user_agent, vars).base_url == vars["CODEX_PROXY_BASE_URL"@]
        },
        !vars.contains_key("CODEX_PROXY_BASE_URL"@) ==> codex_proxy(
            base_url,
            user_agent,
            vars,
        ).base_url == base_url,
        vars.contains_key("CODEX_PROXY_SSE_PATH"@) ==> codex_proxy(
            base_url,
            user_agent,
            vars,
        ).sse_path == vars["CODEX_PROXY_SSE_PATH"@],
        !vars.contains_key("CODEX_PROXY_SSE_PATH"@) ==> codex_proxy(
            base_url,
            user_agent,
            vars,
        ).sse_path == "/api/chat/sse"@,
{
}

/// By default the proxy is asked at `http://127.0.0.1:8787/api/chat/sse`.
pub proof fn law_default_address(vars: Map<Seq<char>, Seq<char>>, user_agent: Option<Seq<char>>)
    requires
        !vars.contains_key("CODEX_PROXY_BASE_URL"@),
        !vars.contains_key("CODEX_PROXY_SSE_PATH"@),
    ensures
        ({
            let provider = codex_proxy(CODEX_PROXY_DEFAULT_BASE@, user_agent, vars);
            proxy_url(provider.base_url, provider.sse_path)
                == "http://127.0.0.1:8787/api/chat/sse"@
        }),
{
    reveal_strlit("/");
    reveal_strlit("http://127.0.0.1:8787");
    reveal_strlit("/api/chat/sse");
    reveal_strlit("http://127.0.0.1:8787/api/chat/sse");
    assert("/"@ =~= "/api/chat/sse"@.subrange(0, 1));
    assert("http://127.0.0.1:8787"@ + "/api/chat/sse"@ =~= "http://127.0.0.1:8787/api/chat/sse"@);
}

} // verus!
