//! Providers of language models.

pub mod body_laws;
pub mod codex_proxy;
pub mod event;
pub mod event_laws;
pub mod exchange;
pub mod exchange_laws;
pub mod line_laws;
pub mod message;
pub mod proxy_body;
pub mod proxy_event;
pub mod proxy_laws;
pub mod registry;
pub mod sse;
pub mod sse_laws;
