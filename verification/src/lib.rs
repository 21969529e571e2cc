//! The providers of a language model gateway, and the Codex proxy among them.
//!
//! [`gateway`] decides which providers there are, from a configuration and an
//! environment. [`provider`] holds what the gateway says to a Codex proxy and
//! what it makes of the answers. The library reads no environment and opens no
//! connection: what comes from outside is handed to it as plain values.

pub mod config;
pub mod environment;
pub mod gateway;
pub mod json;
pub mod json_laws;
pub mod json_value;
pub mod name_map;
pub mod provider;
pub mod text;
pub mod text_laws;
