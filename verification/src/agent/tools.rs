use vstd::prelude::*;
use vstd::string::*;
use serde_json::Value;
use crate::json::{clone_json, debug_json, json_debug};
use crate::text::{debug_str, str_debug};

pub mod list_files;
pub mod search_web;
pub mod tavily_client;
pub mod unzip_file;

verus! {

/// A request of the model to run a tool: the id of the request, the name of
/// the tool and the tool's input.
#[derive(Debug)]
pub struct ToolUse {
    pub id: String,
    pub name: String,
    pub input: Value,
}

impl Clone for ToolUse {
    fn clone(&self) -> (r: Self)
        ensures
            r == *self,
    {
        ToolUse { id: self.id.clone(), name: self.name.clone(), input: clone_json(&self.input) }
    }
}

/// `tool_names[i]` is the first of the names that equals `name`.
pub open spec fn first_match(tool_names: Seq<&str>, name: Seq<char>, i: int) -> bool {
    &&& 0 <= i < tool_names.len()
    &&& tool_names[i]@ == name
    &&& forall|j: int| 0 <= j < i ==> tool_names[j]@ != name
}

/// The text that `{:?}` gives for a tool request, as `#[derive(Debug)]` lays
/// it out: each string in the form of `str_debug`, the input in the form of
/// `json_debug`.
pub open spec fn tool_use_debug(t: ToolUse) -> Seq<char> {
    "ToolUse { id: "@ + str_debug(t.id@) + ", name: "@ + str_debug(t.name@) + ", input: "@
        + json_debug(t.input) + " }"@
}

/// The message of the result for a request whose tool is not there.
pub open spec fn not_found_text(t: ToolUse) -> Seq<char> {
    "cannot find tool "@ + tool_use_debug(t)
}

impl ToolUse {
    /// The `{:?}` text of this request.
    pub fn debug_string(&self) -> (r: String)
        ensures
            r@ == tool_use_debug(*self),
    {
        let mut s = String::from_str("ToolUse { id: ");
        s.append(debug_str(self.id.as_str()).as_str());
        s.append(", name: ");
        s.append(debug_str(self.name.as_str()).as_str());
        s.append(", input: ");
        s.append(debug_json(&self.input).as_str());
        s.append(" }");
        s
    }

    /// The result that tells the model that no tool has the name it asked
    /// for: the request, in its `{:?}` form, after "cannot find tool ".
    pub fn not_found_result(&self) -> (r: ToolResult)
        ensures
            r.tool_use_id@ == self.id@,
            r.content@ == not_found_text(*self),
    {
        let mut message = String::from_str("cannot find tool ");
        message.append(self.debug_string().as_str());
        self.error_result(message.as_str())
    }

    /// The index of the first tool, among `tool_names`, that has the name
    /// that the model asked for.
    pub fn find_tool(&self, tool_names: &[&str]) -> (r: Option<usize>)
        ensures
            match r {
                Some(i) => first_match(tool_names@, self.name@, i as int),
                None => forall|j: int| 0 <= j < tool_names@.len() ==> tool_names@[j]@ != self.name@,
            },
    {
        let mut i: usize = 0;
        while i < tool_names.len()
            invariant
                i <= tool_names@.len(),
                forall|j: int| 0 <= j < i ==> tool_names@[j]@ != self.name@,
            decreases tool_names@.len() - i,
        {
            let candidate = String::from_str(tool_names[i]);
            if candidate == self.name {
                return Some(i);
            }
            i = i + 1;
        }
        None
    }

    /// The result that tells the model that this request failed with
    /// `message`.
    pub fn error_result(&self, message: &str) -> (r: ToolResult)
        ensures
            r.tool_use_id@ == self.id@,
            r.content@ == message@,
    {
        ToolResult::new(self.id.clone(), String::from_str(message))
    }
}

/// What a tool gave back for the request `tool_use_id`.
#[derive(Debug)]
pub struct ToolResult {
    pub tool_use_id: String,
    pub content: String,
}

impl Clone for ToolResult {
    fn clone(&self) -> (r: Self)
        ensures
            r == *self,
    {
        ToolResult { tool_use_id: self.tool_use_id.clone(), content: self.content.clone() }
    }
}

impl ToolResult {
    pub fn new(tool_use_id: String, content: String) -> (r: Self)
        ensures
            r.tool_use_id == tool_use_id,
            r.content == content,
    {
        ToolResult { tool_use_id, content }
    }
}

/// How a tool presents itself to the model: its name, a description and the
/// JSON schema of its input.
#[derive(Debug)]
pub struct ToolSpec {
    pub name: &'static str,
    pub description: Option<&'static str>,
    pub input_schema: Value,
}

impl Clone for ToolSpec {
    fn clone(&self) -> (r: Self)
        ensures
            r == *self,
    {
        ToolSpec {
            name: self.name,
            description: self.description,
            input_schema: clone_json(&self.input_schema),
        }
    }
}

/// A tool that failed on the request `tool_use_id`, with the message of the
/// cause.
#[derive(Debug)]
pub struct ToolError {
    pub tool_use_id: String,
    pub cause: String,
}

/// How a tool failure reads: the request it belongs to and its cause.
pub open spec fn tool_error_text(tool_use_id: Seq<char>, cause: Seq<char>) -> Seq<char> {
    "id: "@ + tool_use_id + ", cause: "@ + cause
}

impl ToolError {
    /// The text of the failure: the request it belongs to and its cause.
    pub fn to_string(&self) -> (r: String)
        ensures
            r@ == tool_error_text(self.tool_use_id@, self.cause@),
    {
        let mut r = String::from_str("id: ");
        r.append(self.tool_use_id.as_str());
        r.append(", cause: ");
        r.append(self.cause.as_str());
        r
    }

    /// The result that reports this failure to the model: the message of the
    /// cause, for the same request.
    pub fn tool_result(&self) -> (r: ToolResult)
        ensures
            r.tool_use_id@ == self.tool_use_id@,
            r.content@ == self.cause@,
    {
        ToolResult { tool_use_id: self.tool_use_id.clone(), content: self.cause.clone() }
    }
}

} // verus!
