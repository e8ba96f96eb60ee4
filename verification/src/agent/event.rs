use vstd::prelude::*;
use crate::anthropic::common::MessageParam;
use crate::anthropic::response::Message;

verus! {

/// One step of a conversation: a message sent to the model (a question of the
/// user or the results of tools), or a message of the model.
#[derive(Debug)]
pub enum Event {
    User(MessageParam),
    Llm(Message),
}

} // verus!
