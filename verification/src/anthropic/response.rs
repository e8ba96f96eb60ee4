use vstd::prelude::*;
use vstd::string::*;
use serde_json::Value;
use crate::agent::tools::{tool_use_debug, ToolUse};
use crate::anthropic::common::{ContentBlockParam, MessageParam, Role};
use crate::text::{debug_str, join_strings, seq_join, str_debug, views};

verus! {

/// A message that the model sent back.
#[derive(Debug)]
pub struct Message {
    pub id: String,
    pub container: Option<Value>,
    pub content: Vec<ContentBlockParam>,
    pub model: String,
    pub role: Role,
    pub stop_details: Option<Value>,
    pub stop_reason: Option<StopReason>,
    pub stop_sequence: Option<String>,
    pub kind: ResponseType,
    pub usage: ResponseUsage,
}

/// The tool requests among `content`, in their order.
pub open spec fn tool_uses(content: Seq<ContentBlockParam>) -> Seq<ToolUse>
    decreases content.len(),
{
    if content.len() == 0 {
        seq![]
    } else {
        let rest = tool_uses(content.drop_last());
        match content.last() {
            ContentBlockParam::ToolUse(t) => rest.push(t),
            _ => rest,
        }
    }
}

/// The text that `{:?}` gives for a block, as `#[derive(Debug)]` on the
/// block types lays it out: the variant, then the fields of the struct it
/// holds, each string in the form of `str_debug` and the input in the form of
/// `json_debug`.
pub open spec fn debug_text(block: ContentBlockParam) -> Seq<char> {
    match block {
        ContentBlockParam::Text { text } => "Text { text: "@ + str_debug(text@) + " }"@,
        ContentBlockParam::ToolUse(t) => "ToolUse("@ + tool_use_debug(t) + ")"@,
        ContentBlockParam::ToolResult(r) => "ToolResult(ToolResult { tool_use_id: "@ + str_debug(
            r.tool_use_id@,
        ) + ", content: "@ + str_debug(r.content@) + " })"@,
        ContentBlockParam::Unknown => "Unknown"@,
    }
}

/// The `{:?}` text of a block.
pub fn debug_string(block: &ContentBlockParam) -> (s: String)
    ensures
        s@ == debug_text(*block),
{
    match block {
        ContentBlockParam::Text { text } => {
            let mut s = String::from_str("Text { text: ");
            s.append(debug_str(text.as_str()).as_str());
            s.append(" }");
            s
        },
        ContentBlockParam::ToolUse(t) => {
            let mut s = String::from_str("ToolUse(");
            s.append(t.debug_string().as_str());
            s.append(")");
            s
        },
        ContentBlockParam::ToolResult(r) => {
            let mut s = String::from_str("ToolResult(ToolResult { tool_use_id: ");
            s.append(debug_str(r.tool_use_id.as_str()).as_str());
            s.append(", content: ");
            s.append(debug_str(r.content.as_str()).as_str());
            s.append(" })");
            s
        },
        ContentBlockParam::Unknown => String::from_str("Unknown"),
    }
}

/// The text of a block: the text itself for a text block, its `{:?}` form for
/// any other block.
pub open spec fn block_text(block: ContentBlockParam) -> Seq<char> {
    match block {
        ContentBlockParam::Text { text } => text@,
        _ => debug_text(block),
    }
}

/// The text of a message: the texts of its blocks, one per line.
pub open spec fn content_text(content: Seq<ContentBlockParam>) -> Seq<char> {
    seq_join(content.map_values(|b: ContentBlockParam| block_text(b)), seq!['\n'])
}

/// The model stopped to have a tool run.
pub open spec fn stops_for_tool_use(m: Message) -> bool {
    m.stop_reason == Some(StopReason::ToolUse)
}

impl Message {
    /// This message, as a message of the conversation to send back.
    pub fn message_param(&self) -> (r: MessageParam)
        ensures
            r.role == self.role,
            r.content@ == self.content@,
    {
        let content = self.content.clone();
        assert(content@ =~= self.content@);
        MessageParam::new(self.role, content)
    }

    /// The model stopped because it asks for a tool.
    pub fn next_tool_use(&self) -> (r: bool)
        ensures
            r == stops_for_tool_use(*self),
            r <==> self.stop_reason == Some(StopReason::ToolUse),
    {
        if let Some(r) = &self.stop_reason {
            match r {
                StopReason::ToolUse => true,
                _ => false,
            }
        } else {
            false
        }
    }

    /// The tool requests of this message, in their order.
    pub fn tool_calls(&self) -> (r: Vec<ToolUse>)
        ensures
            r@ == tool_uses(self.content@),
    {
        let mut r: Vec<ToolUse> = Vec::new();
        let mut i: usize = 0;
        while i < self.content.len()
            invariant
                i <= self.content@.len(),
                r@ == tool_uses(self.content@.take(i as int)),
            decreases self.content@.len() - i,
        {
            assert(self.content@.take(i + 1).drop_last() =~= self.content@.take(i as int));
            match &self.content[i] {
                ContentBlockParam::ToolUse(t) => r.push(t.clone()),
                _ => {},
            }
            i = i + 1;
        }
        assert(self.content@.take(self.content@.len() as int) =~= self.content@);
        r
    }

    /// The text of this message: the text of each block, one per line.
    pub fn text(&self) -> (r: String)
        ensures
            r@ == content_text(self.content@),
            self.content@.len() == 1 ==> (self.content@[0] matches ContentBlockParam::Text { text } ==> r@
                == text@),
    {
        let mut parts: Vec<String> = Vec::new();
        let mut i: usize = 0;
        while i < self.content.len()
            invariant
                i <= self.content@.len(),
                parts@.len() == i,
                forall|j: int| 0 <= j < i ==> #[trigger] parts@[j]@ == block_text(self.content@[j]),
            decreases self.content@.len() - i,
        {
            let part = match &self.content[i] {
                ContentBlockParam::Text { text } => text.clone(),
                c => debug_string(c),
            };
            parts.push(part);
            i = i + 1;
        }
        let sep = "\n";
        proof {
            reveal_strlit("\n");
        }
        assert(sep@ =~= seq!['\n']);
        let r = join_strings(&parts, sep);
        proof {
            assert(views(parts@) =~= self.content@.map_values(|b: ContentBlockParam| block_text(b)));
            if self.content@.len() == 1 {
                lemma_single_block_text(self.content@);
            }
        }
        r
    }

    /// The blocks of this message.
    pub fn contents(&self) -> (r: Vec<&ContentBlockParam>)
        ensures
            r@.len() == self.content@.len(),
            forall|i: int| 0 <= i < r@.len() ==> *#[trigger] r@[i] == self.content@[i],
    {
        let mut r: Vec<&ContentBlockParam> = Vec::new();
        let mut i: usize = 0;
        while i < self.content.len()
            invariant
                i <= self.content@.len(),
                r@.len() == i,
                forall|j: int| 0 <= j < i ==> *#[trigger] r@[j] == self.content@[j],
            decreases self.content@.len() - i,
        {
            r.push(&self.content[i]);
            i = i + 1;
        }
        r
    }

    /// The numbers of input and output tokens of the call.
    pub fn usage_io_tokens(&self) -> (r: (u32, u32))
        ensures
            r == (self.usage.input_tokens, self.usage.output_tokens),
    {
        (self.usage.input_tokens, self.usage.output_tokens)
    }
}

/// What the call cost in tokens.
#[derive(Debug)]
pub struct ResponseUsage {
    pub input_tokens: u32,
    pub cache_creation_input_tokens: u32,
    pub cache_read_input_tokens: u32,
    pub cache_creation: Option<ResponseUsageCacheCreation>,
    pub output_tokens: u32,
    pub service_tier: String,
    pub inference_geo: Option<String>,
}

/// The tokens written to the prompt cache, by lifetime.
#[derive(Debug)]
pub struct ResponseUsageCacheCreation {
    pub ephemeral_5m_input_tokens: u32,
    pub ephemeral_1h_input_tokens: u32,
}

/// The kind of object that the API sent back.
#[derive(Debug, PartialEq, Eq, Structural, Copy, Clone)]
pub enum ResponseType {
    Message,
}

/// Why the model stopped.
#[derive(Debug, PartialEq, Eq, Structural, Copy, Clone)]
pub enum StopReason {
    EndTurn,
    MaxTokens,
    StopSequence,
    ToolUse,
    PauseTurn,
    Refusal,
    ModelContextWindowExceeded,
}

/// Adding a block to a message adds its tool request, if it is one, at the
/// end of the message's tool requests, and leaves them as they are for any
/// other block.
pub proof fn lemma_tool_uses_push(content: Seq<ContentBlockParam>, block: ContentBlockParam)
    ensures
        tool_uses(content.push(block)) == match block {
            ContentBlockParam::ToolUse(t) => tool_uses(content).push(t),
            _ => tool_uses(content),
        },
{
    assert(content.push(block).drop_last() =~= content);
}

/// The tool requests of two runs of blocks, one after the other, are those of
/// the first run followed by those of the second.
pub proof fn lemma_tool_uses_concat(a: Seq<ContentBlockParam>, b: Seq<ContentBlockParam>)
    ensures
        tool_uses(a + b) == tool_uses(a) + tool_uses(b),
    decreases b.len(),
{
    if b.len() == 0 {
        assert(a + b =~= a);
        assert(tool_uses(a) + tool_uses(b) =~= tool_uses(a));
    } else {
        let c = b.drop_last();
        lemma_tool_uses_concat(a, c);
        assert((a + b).drop_last() =~= a + c);
        assert((a + b).last() == b.last());
        match b.last() {
            ContentBlockParam::ToolUse(t) => {
                assert(tool_uses(a) + tool_uses(c).push(t) =~= (tool_uses(a) + tool_uses(c)).push(t));
            },
            _ => {},
        }
    }
}

/// Every tool request of a message is among its tool requests: the request
/// at block `i` is the one that comes after the requests of the blocks before
/// `i`; none is dropped, merged with another or moved.
pub proof fn lemma_tool_uses_complete(content: Seq<ContentBlockParam>, i: int, t: ToolUse)
    requires
        0 <= i < content.len(),
        content[i] == ContentBlockParam::ToolUse(t),
    ensures
        tool_uses(content.take(i)).len() < tool_uses(content).len(),
        tool_uses(content)[tool_uses(content.take(i)).len() as int] == t,
{
    let before = content.take(i);
    let after = content.subrange(i + 1, content.len() as int);
    assert(content =~= before.push(content[i]) + after);
    lemma_tool_uses_concat(before.push(content[i]), after);
    lemma_tool_uses_push(before, content[i]);
}

/// The text of a message with one text block is that text, whole and
/// unchanged, whatever its length.
pub proof fn lemma_single_block_text(content: Seq<ContentBlockParam>)
    requires
        content.len() == 1,
    ensures
        content[0] matches ContentBlockParam::Text { text } ==> content_text(content) == text@,
{
    assert(content.map_values(|b: ContentBlockParam| block_text(b)) =~= seq![block_text(content[0])]);
}

/// Adding a block to a non-empty message adds a line break and the block's
/// text to the message's text; a text block adds its text unchanged.
pub proof fn lemma_content_text_push(content: Seq<ContentBlockParam>, block: ContentBlockParam)
    requires
        content.len() > 0,
    ensures
        content_text(content.push(block)) == content_text(content) + seq!['\n'] + block_text(block),
        block matches ContentBlockParam::Text { text } ==> content_text(content.push(block))
            == content_text(content) + seq!['\n'] + text@,
{
    let f = |b: ContentBlockParam| block_text(b);
    let l = content.push(block).map_values(f);
    assert(l.drop_last() =~= content.map_values(f));
    assert(l.last() == block_text(block));
}

} // verus!
