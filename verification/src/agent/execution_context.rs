use vstd::prelude::*;
use crate::agent::event::Event;
use crate::agent::tools::ToolUse;
use serde_json::Value;
use crate::anthropic::call_logger::{logs_response, record_header, HttpCallLogger, LogBody, LogRecord, LOG_FILE_NAME};
use crate::anthropic::http_client::Response;
use crate::anthropic::common::{ContentBlockParam, MessageParam, Role};
use crate::anthropic::response::{content_text, stops_for_tool_use, tool_uses, Message, StopReason};

verus! {

/// The state of one conversation: the turn it is at, the last turn it may
/// reach, the id of the run (for the log), what happened so far, and the
/// logger of its calls.
pub struct ExecutionContext {
    turn: u32,
    max_turn: u32,
    run: String,
    events: Vec<Event>,
    logger: HttpCallLogger,
}

/// The abstract state of a conversation.
pub struct ContextView {
    pub turn: nat,
    pub max_turn: nat,
    pub run: Seq<char>,
    pub events: Seq<Event>,
    pub log_filename: Seq<char>,
}

impl View for ExecutionContext {
    type V = ContextView;

    closed spec fn view(&self) -> ContextView {
        ContextView {
            turn: self.turn as nat,
            max_turn: self.max_turn as nat,
            run: self.run@,
            events: self.events@,
            log_filename: self.logger.log_filename@,
        }
    }
}

/// The last event leaves the model something to answer: there is no event
/// yet, the last one was sent to the model, or the model asked for a tool.
pub open spec fn events_keep_going(events: Seq<Event>) -> bool {
    events.len() == 0 || match events.last() {
        Event::User(_) => true,
        Event::Llm(m) => stops_for_tool_use(m),
    }
}

/// The conversation goes on: turns are left and the model has something to
/// answer.
pub open spec fn keeps_going(v: ContextView) -> bool {
    v.turn < v.max_turn && events_keep_going(v.events)
}

/// The text of the last answer of the model, where the conversation ends on
/// one.
pub open spec fn final_text(events: Seq<Event>) -> Option<Seq<char>> {
    if events.len() == 0 {
        None
    } else {
        match events.last() {
            Event::User(_) => None,
            Event::Llm(m) => Some(content_text(m.content@)),
        }
    }
}

/// The tool requests that the last event holds, where it is a message of the
/// model with at least one of them.
pub open spec fn pending_tool_calls(events: Seq<Event>) -> Option<Seq<ToolUse>> {
    if events.len() == 0 {
        None
    } else {
        match events.last() {
            Event::User(_) => None,
            Event::Llm(m) => if tool_uses(m.content@).len() == 0 {
                None
            } else {
                Some(tool_uses(m.content@))
            },
        }
    }
}

/// Who speaks in an event.
pub open spec fn event_role(e: Event) -> Role {
    match e {
        Event::User(m) => m.role,
        Event::Llm(m) => m.role,
    }
}

/// The blocks of an event.
pub open spec fn event_content(e: Event) -> Seq<ContentBlockParam> {
    match e {
        Event::User(m) => m.content@,
        Event::Llm(m) => m.content@,
    }
}

/// The views of an optional string.
pub open spec fn option_text(o: Option<String>) -> Option<Seq<char>> {
    match o {
        Some(s) => Some(s@),
        None => None,
    }
}

/// The views of an optional vector.
pub open spec fn option_seq<T>(o: Option<Vec<T>>) -> Option<Seq<T>> {
    match o {
        Some(v) => Some(v@),
        None => None,
    }
}

impl ExecutionContext {
    /// A conversation at its first turn, that may go on while the turn is
    /// below `max_turn`, with the run id `run` and no event yet.
    pub fn new(max_turn: u32, run: String) -> (r: Self)
        ensures
            r@.turn == 1,
            r@.max_turn == max_turn,
            r@.run == run@,
            r@.events.len() == 0,
            r@.log_filename == LOG_FILE_NAME@,
    {
        ExecutionContext { turn: 1, max_turn, run, events: Vec::new(), logger: HttpCallLogger::new() }
    }

    /// The conversation goes on.
    pub fn keep_going(&self) -> (r: bool)
        ensures
            r == keeps_going(self@),
    {
        self.turn < self.max_turn && self.keep_going_event()
    }

    /// The tool requests that the last message of the model holds, if it is
    /// the last event and holds any.
    pub fn last_tool_calls(&self) -> (r: Option<Vec<ToolUse>>)
        ensures
            option_seq(r) == pending_tool_calls(self@.events),
    {
        let n = self.events.len();
        if n == 0 {
            return None;
        }
        match &self.events[n - 1] {
            Event::Llm(message) => {
                let calls = message.tool_calls();
                if calls.len() == 0 {
                    None
                } else {
                    Some(calls)
                }
            },
            Event::User(_) => None,
        }
    }

    /// Moves to the next turn.
    pub fn inc_step(&mut self)
        requires
            old(self)@.turn < u32::MAX,
        ensures
            final(self)@ == (ContextView { turn: old(self)@.turn + 1, ..old(self)@ }),
    {
        self.turn = self.turn + 1;
    }

    /// Records an event.
    pub fn add_event(&mut self, event: Event)
        ensures
            final(self)@ == (ContextView { events: old(self)@.events.push(event), ..old(self)@ }),
    {
        self.events.push(event);
    }

    /// Records the answer `message` of the model and gives the tool requests
    /// that it holds, if it holds any: the tools to run in this step.
    pub fn receive_answer(&mut self, message: Message) -> (r: Option<Vec<ToolUse>>)
        ensures
            final(self)@ == (ContextView { events: old(self)@.events.push(Event::Llm(message)), ..old(self)@ }),
            option_seq(r) == (if tool_uses(message.content@).len() == 0 {
                None::<Seq<ToolUse>>
            } else {
                Some(tool_uses(message.content@))
            }),
    {
        self.add_event(Event::Llm(message));
        proof {
            assert(self@.events.last() == Event::Llm(message));
        }
        self.last_tool_calls()
    }

    /// Ends a step: records the message that carries the results of the
    /// tools, where there is one, and moves to the next turn.
    pub fn end_step(&mut self, tool_result: Option<MessageParam>)
        requires
            old(self)@.turn < u32::MAX,
        ensures
            final(self)@ == (ContextView {
                turn: old(self)@.turn + 1,
                events: match tool_result {
                    Some(m) => old(self)@.events.push(Event::User(m)),
                    None => old(self)@.events,
                },
                ..old(self)@
            }),
    {
        match tool_result {
            Some(m) => self.add_event(Event::User(m)),
            None => {},
        }
        self.inc_step();
    }

    /// The conversation as messages to send to the model: one per event, in
    /// their order, with the role and the blocks of the event.
    pub fn messages(&self) -> (r: Vec<MessageParam>)
        ensures
            r@.len() == self@.events.len(),
            forall|i: int|
                0 <= i < r@.len() ==> {
                    &&& #[trigger] r@[i].role == event_role(self@.events[i])
                    &&& r@[i].content@ == event_content(self@.events[i])
                },
            forall|i: int|
                0 <= i < r@.len() ==> match self@.events[i] {
                    Event::User(m) => #[trigger] r@[i].role == m.role && r@[i].content@ == m.content@,
                    Event::Llm(m) => r@[i].role == m.role && r@[i].content@ == m.content@,
                },
    {
        let mut r: Vec<MessageParam> = Vec::new();
        let mut i: usize = 0;
        while i < self.events.len()
            invariant
                i <= self.events@.len(),
                r@.len() == i,
                forall|j: int|
                    0 <= j < i ==> {
                        &&& #[trigger] r@[j].role == event_role(self.events@[j])
                        &&& r@[j].content@ == event_content(self.events@[j])
                    },
            decreases self.events@.len() - i,
        {
            let m = match &self.events[i] {
                Event::User(m) => m.clone(),
                Event::Llm(m) => m.message_param(),
            };
            r.push(m);
            i = i + 1;
        }
        r
    }

    /// The text of the last answer of the model, where the conversation ends
    /// on one.
    pub fn final_message(&self) -> (r: Option<String>)
        ensures
            option_text(r) == final_text(self@.events),
    {
        let n = self.events.len();
        if n == 0 {
            return None;
        }
        match &self.events[n - 1] {
            Event::User(_) => None,
            Event::Llm(message) => Some(message.text()),
        }
    }

    fn keep_going_event(&self) -> (r: bool)
        ensures
            r == events_keep_going(self@.events),
    {
        let n = self.events.len();
        if n == 0 {
            return true;
        }
        match &self.events[n - 1] {
            Event::User(_) => true,
            Event::Llm(message) => message.next_tool_use(),
        }
    }

    /// The last event of the conversation, if there is one.
    pub fn last_event(&self) -> (r: Option<&Event>)
        ensures
            self@.events.len() == 0 <==> r is None,
            r matches Some(e) ==> *e == self@.events.last(),
    {
        let n = self.events.len();
        if n == 0 {
            None
        } else {
            Some(&self.events[n - 1])
        }
    }

    /// The turn the conversation is at.
    pub fn turn(&self) -> (r: u32)
        ensures
            r == self@.turn,
    {
        self.turn
    }

    /// The last turn that the conversation may reach.
    pub fn max_turn(&self) -> (r: u32)
        ensures
            r == self@.max_turn,
    {
        self.max_turn
    }

    /// The id of the run, as the log records it.
    pub fn run(&self) -> (r: &str)
        ensures
            r@ == self@.run,
    {
        self.run.as_str()
    }

    /// The record that logs the request `request` of the current turn, made
    /// at the time `ts`.
    pub fn log_request(&self, request: &Value, ts: &str) -> (r: LogRecord)
        ensures
            record_header(r, self@.run, self@.turn as int, ts@),
            r.body == LogBody::Request(*request),
    {
        self.logger.request(request, self.run.as_str(), self.turn, ts)
    }

    /// The record that logs the response `response` of the current turn,
    /// made at the time `ts`.
    pub fn log_response(&self, response: &Response, ts: &str) -> (r: LogRecord)
        ensures
            record_header(r, self@.run, self@.turn as int, ts@),
            logs_response(r.body, *response),
    {
        self.logger.response(response, self.run.as_str(), self.turn, ts)
    }

    /// The record that logs the error `error_message` of the current turn,
    /// made at the time `ts`.
    pub fn log_error(&self, error_message: &str, ts: &str) -> (r: LogRecord)
        ensures
            record_header(r, self@.run, self@.turn as int, ts@),
            r.body matches LogBody::Error(m) && m@ == error_message@,
    {
        self.logger.error(error_message, self.run.as_str(), self.turn, ts)
    }

    /// The logger of the calls.
    pub fn logger(&self) -> (r: &HttpCallLogger)
        ensures
            r.log_filename@ == self@.log_filename,
    {
        &self.logger
    }
}

/// A conversation never goes on once its turn reaches the last turn: the
/// loop of a chat makes at most `max_turn - 1` steps, each of which moves to
/// the next turn.
pub proof fn lemma_turn_budget(v: ContextView)
    requires
        v.turn >= v.max_turn,
    ensures
        !keeps_going(v),
{
}

/// Whenever the conversation stops on its events, it ends on an answer of
/// the model, so that a chat that stops before its last turn has a final
/// message.
pub proof fn lemma_stop_has_answer(v: ContextView)
    requires
        !events_keep_going(v.events),
    ensures
        final_text(v.events) is Some,
{
}

/// An answer of the model that does not ask for a tool ends the
/// conversation, and is its final message.
pub proof fn lemma_answer_ends_chat(v: ContextView, m: crate::anthropic::response::Message)
    requires
        !stops_for_tool_use(m),
    ensures
        ({
            let w = ContextView { events: v.events.push(Event::Llm(m)), ..v };
            &&& !keeps_going(w)
            &&& final_text(w.events) == Some(content_text(m.content@))
        }),
{
    assert(v.events.push(Event::Llm(m)).last() == Event::Llm(m));
}

/// A message of the model that asks for a tool lets the conversation go on
/// while turns are left, and its tool requests are the pending ones.
pub proof fn lemma_tool_request_continues(v: ContextView, m: crate::anthropic::response::Message)
    requires
        stops_for_tool_use(m),
        tool_uses(m.content@).len() > 0,
    ensures
        ({
            let w = ContextView { events: v.events.push(Event::Llm(m)), ..v };
            &&& keeps_going(w) == (v.turn < v.max_turn)
            &&& pending_tool_calls(w.events) == Some(tool_uses(m.content@))
            &&& final_text(w.events) == Some(content_text(m.content@))
        }),
{
    assert(v.events.push(Event::Llm(m)).last() == Event::Llm(m));
}

/// A message sent to the model lets the conversation go on while turns are
/// left, with no final message and no pending tool request.
pub proof fn lemma_user_message_continues(v: ContextView, p: MessageParam)
    ensures
        ({
            let w = ContextView { events: v.events.push(Event::User(p)), ..v };
            &&& keeps_going(w) == (v.turn < v.max_turn)
            &&& final_text(w.events) is None
            &&& pending_tool_calls(w.events) is None
        }),
{
    assert(v.events.push(Event::User(p)).last() == Event::User(p));
}

/// Every event is sent to the model as the message it holds: the same role
/// and the same blocks, for a message of the user as for one of the model.
pub proof fn lemma_events_sent_as_held(e: Event)
    ensures
        match e {
            Event::User(m) => event_role(e) == m.role && event_content(e) == m.content@,
            Event::Llm(m) => event_role(e) == m.role && event_content(e) == m.content@,
        },
{
}

/// After a message of the model, the conversation goes on exactly when turns
/// are left and the model stopped to ask for a tool: an answer that stopped
/// for any other reason (the end of its turn, the token budget, a stop
/// sequence, a pause, a refusal, a full context window) or for none ends it.
pub proof fn lemma_chat_goes_on_only_for_tool_use(v: ContextView, m: crate::anthropic::response::Message)
    ensures
        keeps_going(ContextView { events: v.events.push(Event::Llm(m)), ..v }) <==> (v.turn < v.max_turn
            && m.stop_reason == Some(StopReason::ToolUse)),
{
    assert(v.events.push(Event::Llm(m)).last() == Event::Llm(m));
}

} // verus!
