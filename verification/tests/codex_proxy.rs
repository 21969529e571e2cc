use rsclaw::environment::Environment;
use rsclaw::provider::codex_proxy::{
    normalize_path, CodexProxyProvider, CODEX_PROXY_DEFAULT_BASE,
};
use rsclaw::provider::message::LlmRequest;

fn env(vars: &[(&str, &str)]) -> Environment {
    Environment {
        vars: vars.iter().map(|(name, value)| (name.to_string(), value.to_string())).collect(),
    }
}

#[test]
fn variables_are_found_by_name() {
    let env = env(&[("A", "1"), ("B", ""), ("A", "2")]);
    assert_eq!(env.var("A"), Some("1".to_owned()));
    assert_eq!(env.var("B"), Some(String::new()));
    assert_eq!(env.var("C"), None);
    assert_eq!(env.var("a"), None);
}

#[test]
fn paths_get_a_slash() {
    assert_eq!(normalize_path("/api"), "/api");
    assert_eq!(normalize_path("api"), "/api");
    assert_eq!(normalize_path(""), "/");
    assert_eq!(normalize_path("//x"), "//x");
    assert_eq!(normalize_path(&normalize_path("x")), normalize_path("x"));
}

#[test]
fn the_default_address() {
    let provider = CodexProxyProvider::new(CODEX_PROXY_DEFAULT_BASE, &env(&[]));
    assert_eq!(provider.url(), "http://127.0.0.1:8787/api/chat/sse");
    assert_eq!(provider.name(), "codex-proxy");
    assert_eq!(provider.user_agent(), None);
}

#[test]
fn slashes_at_the_seam_make_no_difference() {
    for base in ["http://h", "http://h/", "http://h//"] {
        for path in ["sse", "/sse"] {
            let provider = CodexProxyProvider::new(base, &env(&[("CODEX_PROXY_SSE_PATH", path)]));
            assert_eq!(provider.url(), "http://h/sse");
        }
    }
}

#[test]
fn the_environment_says_otherwise() {
    let set = env(&[
        ("CODEX_PROXY_BASE_URL", "http://10.0.0.2:9/"),
        ("CODEX_PROXY_SSE_PATH", "v2/sse"),
    ]);
    let provider =
        CodexProxyProvider::with_user_agent("http://h", Some("agent/1".to_owned()), &set);
    assert_eq!(provider.url(), "http://10.0.0.2:9/v2/sse");
    assert_eq!(provider.user_agent(), Some("agent/1"));
    let only_path = env(&[("CODEX_PROXY_SSE_PATH", "")]);
    assert_eq!(CodexProxyProvider::new("http://h", &only_path).url(), "http://h/");
}

#[test]
fn a_request_is_posted_as_json_for_a_stream() {
    let provider = CodexProxyProvider::new("http://h", &env(&[]));
    let posted = provider.proxy_request(&LlmRequest {
        model: "m".to_owned(),
        messages: Vec::new(),
        tools: Vec::new(),
        system: None,
        max_tokens: None,
        temperature: None,
    });
    assert_eq!(posted.url, "http://h/api/chat/sse");
    assert_eq!(posted.content_type, "application/json");
    assert_eq!(posted.accept, "text/event-stream");
    assert_eq!(posted.body.get("model").and_then(|v| v.as_str()), Some("m"));
}
