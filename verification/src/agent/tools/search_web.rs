use vstd::prelude::*;
use crate::agent::tools::tavily_client::TavilyClient;

verus! {

/// The web-search tool, with the Tavily client it searches with.
pub struct SearchWeb {
    pub tavily_client: TavilyClient,
}

/// The input that the model gives the web-search tool: the query, how many
/// results it wants, the topic, and optional time range and country.
#[derive(Debug)]
pub struct SearchWebInput {
    pub query: String,
    pub max_result: i32,
    pub topic: Topic,
    pub time_range: Option<String>,
    pub country: Option<String>,
}

/// The topic of a search.
#[derive(Debug, PartialEq, Eq, Structural, Copy, Clone)]
pub enum Topic {
    General,
    News,
    Finance,
}

/// The name of a topic, as the Tavily API takes it.
pub open spec fn topic_name(topic: Topic) -> Seq<char> {
    match topic {
        Topic::General => "general"@,
        Topic::News => "news"@,
        Topic::Finance => "finance"@,
    }
}

impl Topic {
    pub fn as_str(&self) -> (r: &'static str)
        ensures
            r@ == topic_name(*self),
    {
        match self {
            Topic::General => "general",
            Topic::News => "news",
            Topic::Finance => "finance",
        }
    }
}

} // verus!
