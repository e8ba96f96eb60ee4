//! Building blocks of a small tool-using chat agent: the message model of the
//! Anthropic Messages API, the bookkeeping of one conversation, the tool
//! protocol, and text chunking for retrieval.

pub mod agent;
pub mod anthropic;
pub mod json;
pub mod ollama;
pub mod rag;
pub mod text;
