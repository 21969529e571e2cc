# rsclaw

The providers of a language model gateway, verified with Verus.

The library decides which providers a gateway knows, from its configuration and
its environment, and it speaks for one of them: a local Codex proxy, which is
asked by HTTP and answers with a stream of events.

- `src/gateway/providers.rs` – which providers there are; what holds of them in
  every configuration and environment is in `provider_laws.rs`.
- `src/provider/codex_proxy.rs` – where the proxy is asked, and what becomes of
  its answer.
- `src/provider/proxy_body.rs` – the body of a request.
- `src/provider/sse.rs` and `proxy_event.rs` – from the bytes of an answer to
  events. That it does not matter how the stream is cut is proved in
  `sse_laws.rs`; what holds of every request and answer, in `proxy_laws.rs`.
- `src/provider/exchange.rs` – one exchange with the proxy, step by step.
- `src/json.rs` – JSON values and their model; `json_value.rs` reads and writes
  their text by way of `serde_json`.
- `src/text.rs`, `src/name_map.rs`, `src/environment.rs`, `src/config.rs` – what
  the others are built from.

`app/` reads the environment of the process, talks to the network and writes the
log. `tests/` runs the library on concrete values.

What is believed without proof is little and stands next to its use: the calls
into `serde_json` in `src/json_value.rs`, and `String::push`,
`String::from_utf8_lossy` and `str::to_uppercase` of the standard library.
