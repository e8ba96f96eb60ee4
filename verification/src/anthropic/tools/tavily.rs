use vstd::prelude::*;
use crate::agent::tools::tavily_client::{new_search_request_with, search_request_with};

verus! {

/// The input of the first web-search tool: the query, how many results, the
/// topic, and optional time range and country.
#[derive(Debug)]
pub struct SearchWeb {
    pub query: String,
    pub max_result: i32,
    pub topic: Topic,
    pub time_range: Option<String>,
    pub country: Option<String>,
}

/// The topic of a search.
#[derive(Debug, PartialEq, Eq, Structural, Copy, Clone)]
pub enum Topic {
    General,
    News,
    Finance,
}

/// The name of a topic, as the Tavily API takes it.
pub open spec fn topic_name(topic: Topic) -> Seq<char> {
    match topic {
        Topic::General => "general"@,
        Topic::News => "news"@,
        Topic::Finance => "finance"@,
    }
}

impl Topic {
    pub fn as_str(&self) -> (r: &'static str)
        ensures
            r@ == topic_name(*self),
    {
        match self {
            Topic::General => "general",
            Topic::News => "news",
            Topic::Finance => "finance",
        }
    }
}

/// The request that the first web-search tool sends for `input` with the key
/// `api_key`: its query, its number of results and its topic. The time range
/// and the country of the input are not sent.
pub fn search_request(api_key: &str, input: &SearchWeb) -> (r: ::tavily::SearchRequest)
    ensures
        r == search_request_with(api_key@, input.query@, input.max_result, topic_name(input.topic)),
{
    new_search_request_with(api_key, input.query.as_str(), input.max_result, input.topic.as_str())
}

} // verus!
