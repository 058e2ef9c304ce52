//! Client-side building blocks for the Agent-to-Agent (A2A) protocol and the
//! AgentOven control plane: the task data model and its state machine, the
//! JSON-RPC envelope, the server-sent-event decoder and agent-card validation.

pub mod agent;
pub mod agent_card;
pub mod artifact;
pub mod binding;
pub mod client;
pub mod commands;
pub mod config;
pub mod error;
pub mod event_types;
pub mod http;
pub mod ident;
pub mod ingredient;
pub mod json;
pub mod jsonrpc;
pub mod message;
pub mod methods;
pub mod model;
pub mod notification;
pub mod oven;
pub mod recipe;
pub mod router;
pub mod same;
pub mod sse;
pub mod task;
pub mod text;
pub mod time;
pub mod tomlfile;
pub mod url;
pub mod wire;
