use vstd::prelude::*;
use serde_json::Value;
use crate::agent::tools::ToolSpec;
use crate::anthropic::common::{ContentBlockParam, MessageParam, Role, is_text_block};

verus! {

/// A call of the Messages API: the model, the token budget of the answer, the
/// conversation so far, the system prompt, optional output settings, and the
/// tools that the model may ask for.
#[derive(Debug)]
pub struct Request {
    pub model: &'static str,
    pub max_tokens: u32,
    pub messages: Vec<MessageParam>,
    pub system: Vec<ContentBlockParam>,
    pub output_config: Option<OutputConfig>,
    pub tools: Vec<ToolSpec>,
}

impl Request {
    pub fn create(
        model: &'static str,
        max_tokens: u32,
        messages: Vec<MessageParam>,
        system: Vec<ContentBlockParam>,
        output_config: Option<OutputConfig>,
        tools: Vec<ToolSpec>,
    ) -> (r: Self)
        ensures
            r.model == model,
            r.max_tokens == max_tokens,
            r.messages == messages,
            r.system == system,
            r.output_config == output_config,
            r.tools == tools,
    {
        Self { model, max_tokens, messages, system, output_config, tools }
    }

    /// A call with one message of the user that holds the text `message`, no
    /// system prompt, no output settings and no tools.
    pub fn new(model: &'static str, max_tokens: u32, message: &str) -> (r: Self)
        ensures
            r.model == model,
            r.max_tokens == max_tokens,
            r.messages@.len() == 1,
            r.messages@[0].role == Role::User,
            r.messages@[0].content@.len() == 1,
            is_text_block(r.messages@[0].content@[0], message@),
            r.system@.len() == 0,
            r.output_config is None,
            r.tools@.len() == 0,
    {
        let mut content = Vec::new();
        content.push(ContentBlockParam::text(message));
        let mut messages = Vec::new();
        messages.push(MessageParam::new(Role::User, content));
        Self {
            model,
            max_tokens,
            messages,
            system: Vec::new(),
            output_config: None,
            tools: Vec::new(),
        }
    }
}

/// Output settings of a call: how much effort the model spends, and the
/// format of its answer.
#[derive(Debug)]
pub struct OutputConfig {
    pub effort: Option<EffortLevel>,
    pub format: Option<JSONOutputFormat>,
}

/// How much effort the model spends on an answer.
#[derive(Debug, PartialEq, Eq, Structural, Copy, Clone)]
pub enum EffortLevel {
    Low,
    Medium,
    High,
    Xhigh,
    Max,
}

/// An answer in JSON that follows a schema.
#[derive(Debug)]
pub enum JSONOutputFormat {
    JsonSchema { schema: Value },
}

} // verus!
