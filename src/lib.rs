//! Agentic session engine for operating remote hosts through a chat assistant.
pub mod callback;
pub mod command;
pub mod directive;
pub mod discovery;
pub mod dispatch;
pub mod executor;
pub mod provider;
pub mod servers;
pub mod session;
pub mod text;
pub mod token;
