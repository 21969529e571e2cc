//! The gateway.

pub mod provider_laws;
pub mod providers;
pub mod setup_laws;
