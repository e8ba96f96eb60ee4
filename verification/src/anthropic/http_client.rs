use vstd::prelude::*;
use vstd::string::*;
use std::borrow::Cow;
use std::collections::HashMap;

verus! {

/// The endpoint of the Messages API.
pub const MESSAGE_URI: &'static str = "https://api.anthropic.com/v1/messages";

/// A client of the Messages API, with the key it authenticates with.
pub struct HttpClient {
    pub api_key: Cow<'static, str>,
}

impl HttpClient {
    pub fn new(api_key: &str) -> (r: Self)
        ensures
            r.api_key@ == api_key@,
    {
        Self { api_key: Cow::Owned(String::from_str(api_key)) }
    }
}

/// What a call of the API gave back: the status, whether it is a success,
/// the rate-limit headers that were present, and the body as text.
pub struct Response {
    pub status: u16,
    pub is_success: bool,
    pub headers: HashMap<String, String>,
    pub raw_body: String,
}

} // verus!
