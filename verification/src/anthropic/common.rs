use vstd::prelude::*;
use vstd::string::*;
use crate::agent::tools::{ToolResult, ToolUse};

verus! {

/// One message of the conversation, as the Messages API takes it: who speaks
/// and what the message holds.
#[derive(Debug)]
pub struct MessageParam {
    pub role: Role,
    pub content: Vec<ContentBlockParam>,
}

impl Clone for MessageParam {
    fn clone(&self) -> (r: Self)
        ensures
            r.role == self.role,
            r.content@ == self.content@,
    {
        let content = self.content.clone();
        assert(content@ =~= self.content@);
        MessageParam { role: self.role, content }
    }
}

/// `block` is a text block that holds `text`.
pub open spec fn is_text_block(block: ContentBlockParam, text: Seq<char>) -> bool {
    block matches ContentBlockParam::Text { text: t } && t@ == text
}

impl MessageParam {
    pub fn new(role: Role, content: Vec<ContentBlockParam>) -> (r: Self)
        ensures
            r.role == role,
            r.content == content,
    {
        Self { role, content }
    }

    /// A message of the user that holds one text block with `message`.
    pub fn user(message: &str) -> (r: Self)
        ensures
            r.role == Role::User,
            r.content@.len() == 1,
            is_text_block(r.content@[0], message@),
    {
        let mut content = Vec::new();
        content.push(ContentBlockParam::Text { text: String::from_str(message) });
        Self { role: Role::User, content }
    }
}

/// One block of a message: a text, a tool request of the model, a tool result
/// sent back, or a kind of block that this library does not read.
#[derive(Debug)]
pub enum ContentBlockParam {
    Text { text: String },
    ToolUse(ToolUse),
    ToolResult(ToolResult),
    Unknown,
}

impl Clone for ContentBlockParam {
    fn clone(&self) -> (r: Self)
        ensures
            r == *self,
    {
        match self {
            ContentBlockParam::Text { text } => ContentBlockParam::Text { text: text.clone() },
            ContentBlockParam::ToolUse(t) => ContentBlockParam::ToolUse(t.clone()),
            ContentBlockParam::ToolResult(t) => ContentBlockParam::ToolResult(t.clone()),
            ContentBlockParam::Unknown => ContentBlockParam::Unknown,
        }
    }
}

impl ContentBlockParam {
    /// A text block that holds `text`.
    pub fn text(text: &str) -> (r: Self)
        ensures
            is_text_block(r, text@),
    {
        ContentBlockParam::Text { text: String::from_str(text) }
    }
}

/// Who speaks.
#[derive(Debug, PartialEq, Eq, Structural, Copy, Clone)]
pub enum Role {
    User,
    Assistant,
}

} // verus!
