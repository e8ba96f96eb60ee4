use vstd::prelude::*;
use vstd::string::*;
use crate::agent::execution_context::{ExecutionContext, event_content, event_role};
use crate::agent::tools::{ToolResult, ToolSpec};
use crate::anthropic::common::{ContentBlockParam, MessageParam, Role, is_text_block};
use crate::anthropic::http_client::Response;
use crate::anthropic::request::Request;
use crate::text::{decimal, decimal_string};

pub mod event;
pub mod execution_context;
pub mod tools;

verus! {

/// The token budget of each answer.
pub const DEFAULT_MAX_TOKEN: u32 = 1024;

/// The number of turns that a chat may take, counting from the first.
pub const DEFAULT_MAX_TURN: u32 = 100;

/// The call for the next turn of a conversation: the model, the default
/// token budget, the conversation so far, the system prompt as one text
/// block, no output settings, and the specs of the tools.
pub fn prepare_llm_request(
    context: &ExecutionContext,
    model: &'static str,
    system_prompt: &str,
    tools: Vec<ToolSpec>,
) -> (r: Request)
    ensures
        r.model == model,
        r.max_tokens == DEFAULT_MAX_TOKEN,
        r.messages@.len() == context@.events.len(),
        forall|i: int|
            0 <= i < r.messages@.len() ==> {
                &&& #[trigger] r.messages@[i].role == event_role(context@.events[i])
                &&& r.messages@[i].content@ == event_content(context@.events[i])
            },
        r.system@.len() == 1,
        is_text_block(r.system@[0], system_prompt@),
        r.output_config is None,
        r.tools == tools,
{
    let mut system = Vec::new();
    system.push(ContentBlockParam::text(system_prompt));
    Request::create(model, DEFAULT_MAX_TOKEN, context.messages(), system, None, tools)
}

/// The message that carries the results of the tools back to the model: a
/// message of the user with one tool-result block per result, in their
/// order; none where there is no result.
pub fn tool_result_message(results: Vec<ToolResult>) -> (r: Option<MessageParam>)
    ensures
        results@.len() == 0 <==> r is None,
        r matches Some(m) ==> {
            &&& m.role == Role::User
            &&& m.content@.len() == results@.len()
            &&& forall|i: int|
                0 <= i < results@.len() ==> #[trigger] m.content@[i] == ContentBlockParam::ToolResult(
                    results@[i],
                )
        },
{
    let mut content: Vec<ContentBlockParam> = Vec::new();
    let mut i: usize = 0;
    while i < results.len()
        invariant
            i <= results@.len(),
            content@.len() == i,
            forall|j: int|
                0 <= j < i ==> #[trigger] content@[j] == ContentBlockParam::ToolResult(results@[j]),
        decreases results@.len() - i,
    {
        content.push(ContentBlockParam::ToolResult(results[i].clone()));
        i = i + 1;
    }
    if content.len() == 0 {
        None
    } else {
        Some(MessageParam::new(Role::User, content))
    }
}

/// The message of a failed call: its status and its body.
pub open spec fn response_error_text(status: u16, raw_body: Seq<char>) -> Seq<char> {
    "응답 오류 status: "@ + decimal(status as nat) + ", response: "@ + raw_body
}

/// A successful response as it is, or, for any other, the message of the
/// failure.
pub fn check_response(response: Response) -> (r: Result<Response, String>)
    ensures
        response.is_success ==> r == Ok::<Response, String>(response),
        !response.is_success ==> (r matches Err(e) && e@ == response_error_text(
            response.status,
            response.raw_body@,
        )),
{
    if response.is_success {
        Ok(response)
    } else {
        let mut e = String::from_str("응답 오류 status: ");
        let status = decimal_string(response.status as u64);
        e.append(status.as_str());
        e.append(", response: ");
        e.append(response.raw_body.as_str());
        Err(e)
    }
}

} // verus!
