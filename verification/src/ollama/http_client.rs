use vstd::prelude::*;

verus! {

/// The server of the embedding model.
pub const URL_BASE: &'static str = "http://localhost:11434";

/// The embedding model.
pub const EMBEDDING_MODEL: &'static str = "qwen3-embedding";

/// A client of the local Ollama server.
pub struct HttpClient {}

impl HttpClient {
    pub fn new() -> (r: Self) {
        HttpClient {}
    }
}

} // verus!
