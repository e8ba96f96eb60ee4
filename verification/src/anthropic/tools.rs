use vstd::prelude::*;
use vstd::string::*;
use serde_json::Value;
use crate::agent::tools::first_match;

pub mod calculator;
pub mod tavily;

verus! {

/// A request of the model to run a tool, in the shape of the first tool
/// protocol: the id of the request, the name of the tool and its input.
#[derive(Debug)]
pub struct ToolUse {
    pub id: String,
    pub name: String,
    pub input: Value,
}

impl ToolUse {
    /// The index of the first tool, among `tool_names`, that has the name
    /// that the model asked for.
    pub fn find_tool(&self, tool_names: &[&str]) -> (r: Option<usize>)
        ensures
            match r {
                Some(i) => first_match(tool_names@, self.name@, i as int),
                None => forall|j: int| 0 <= j < tool_names@.len() ==> tool_names@[j]@ != self.name@,
            },
    {
        let mut i: usize = 0;
        while i < tool_names.len()
            invariant
                i <= tool_names@.len(),
                forall|j: int| 0 <= j < i ==> tool_names@[j]@ != self.name@,
            decreases tool_names@.len() - i,
        {
            let candidate = String::from_str(tool_names[i]);
            if candidate == self.name {
                return Some(i);
            }
            i = i + 1;
        }
        None
    }
}

/// What a tool gave back for the request `tool_use_id`.
#[derive(Debug)]
pub struct ToolResult {
    pub tool_use_id: String,
    pub content: String,
}

impl ToolResult {
    pub fn new(tool_use_id: String, content: String) -> (r: Self)
        ensures
            r.tool_use_id == tool_use_id,
            r.content == content,
    {
        ToolResult { tool_use_id, content }
    }
}

/// How a tool presents itself to the model.
#[derive(Debug)]
pub struct ToolSpec {
    pub name: &'static str,
    pub description: Option<&'static str>,
    pub input_schema: Value,
}

} // verus!
