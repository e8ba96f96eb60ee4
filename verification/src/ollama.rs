pub mod http_client;
pub use http_client::HttpClient;
