//! Policy and redaction core of an inline security gateway for chat backends.
//!
//! The gateway sits between a chat client and an inference backend. It judges
//! each prompt before the backend sees it, and redacts secrets and personal
//! data from what the backend answers. This library holds the decisions; the
//! program around it performs the network calls.

pub mod api_types;
pub mod backend;
pub mod gateway;
pub mod interceptor;
pub mod middleware;
pub mod ollama_client;
pub mod passthrough;
pub mod pii_filter;
pub mod prompt_guard;
pub mod proxy;
pub mod redaction;
pub mod secrets_filter;
pub mod status;
pub mod text;
pub mod vault;

pub use gateway::AppState;
pub use redaction::apply_filters;
