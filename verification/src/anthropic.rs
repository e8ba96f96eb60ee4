pub mod call_logger;
pub mod common;
pub mod http_client;
pub mod mcp;
pub mod request;
pub mod response;
pub mod tools;
