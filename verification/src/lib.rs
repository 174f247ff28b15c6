//! Orchestration core of a local multi-backend inference server: discovery of
//! installed model files, a pool of loaded model handles, and the wire
//! protocol of the streaming gateway.

pub mod api;
pub mod chat;
pub mod cli;
pub mod daemon;
pub mod decode;
pub mod discover;
pub mod engine;
pub mod env;
pub mod exclude;
pub mod features;
pub mod hub;
pub mod json;
pub mod model;
pub mod ollama;
pub mod path;
pub mod pattern;
pub mod search;
pub mod sniff;
pub mod template;
pub mod text;
