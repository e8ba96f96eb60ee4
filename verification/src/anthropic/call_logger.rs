use vstd::prelude::*;
use vstd::string::*;
use serde_json::Value;
use std::collections::HashMap;
use crate::anthropic::http_client::Response;
use crate::json::{clone_json, json_from_str, parse_json};

verus! {

/// The file that the calls are logged to, one JSON object per line.
pub const LOG_FILE_NAME: &'static str = "ring0.jsonl";

/// The version of the layout of a log record (its `v` field).
pub const LOG_VERSION: u32 = 1;

/// Logs the calls of the Messages API to `log_filename`.
#[derive(Debug)]
pub struct HttpCallLogger {
    pub log_filename: String,
}

/// Which part of a call a record logs: the request sent, the response
/// received, or the error that ended the call.
#[derive(Clone, Copy, Debug, PartialEq, Eq, Structural)]
pub enum Direction {
    Request,
    Response,
    Error,
}

/// The tag of a direction in the log (the `dir` field).
pub open spec fn direction_tag(d: Direction) -> Seq<char> {
    match d {
        Direction::Request => "req"@,
        Direction::Response => "res"@,
        Direction::Error => "err"@,
    }
}

impl Direction {
    /// The tag that the log writes for the direction.
    pub fn as_str(&self) -> (r: &'static str)
        ensures
            r@ == direction_tag(*self),
    {
        proof {
            reveal_strlit("req");
            reveal_strlit("res");
            reveal_strlit("err");
        }
        match self {
            Direction::Request => "req",
            Direction::Response => "res",
            Direction::Error => "err",
        }
    }
}

/// What a record logs of a call besides when and where it was made.
pub enum LogBody {
    /// The body of the request.
    Request(Value),
    /// The message of the error.
    Error(String),
    /// The status and rate-limit headers of the response, and its body:
    /// parsed where it is JSON (`body`), else as raw text (`body_raw`).
    Response {
        status: u16,
        headers: HashMap<String, String>,
        body: Option<Value>,
        body_raw: Option<String>,
    },
}

/// The direction that a record body belongs to.
pub open spec fn body_direction(b: LogBody) -> Direction {
    match b {
        LogBody::Request(_) => Direction::Request,
        LogBody::Error(_) => Direction::Error,
        LogBody::Response { .. } => Direction::Response,
    }
}

impl LogBody {
    /// The direction of the record.
    pub fn direction(&self) -> (r: Direction)
        ensures
            r == body_direction(*self),
    {
        match self {
            LogBody::Request(_) => Direction::Request,
            LogBody::Error(_) => Direction::Error,
            LogBody::Response { .. } => Direction::Response,
        }
    }
}

/// One line of the log: the layout version, the run and turn of the call,
/// the time of the record, and what it logs.
pub struct LogRecord {
    pub v: u32,
    pub run: String,
    pub turn: u32,
    pub ts: String,
    pub body: LogBody,
}

/// A value of a field of a log line, borrowed from the record.
#[derive(Debug)]
pub enum LogValue<'a> {
    Number(u64),
    Text(&'a str),
    Json(&'a Value),
    Headers(&'a HashMap<String, String>),
    Null,
}

/// What a field of a log line holds.
pub enum FieldView {
    Number(int),
    Text(Seq<char>),
    Json(Value),
    Headers(Map<String, String>),
    Null,
}

/// What `v` holds.
pub open spec fn field_view(v: LogValue) -> FieldView {
    match v {
        LogValue::Number(n) => FieldView::Number(n as int),
        LogValue::Text(t) => FieldView::Text(t@),
        LogValue::Json(j) => FieldView::Json(*j),
        LogValue::Headers(h) => FieldView::Headers(h@),
        LogValue::Null => FieldView::Null,
    }
}

/// The fields of the log line of `r`, in their order: the version, the run,
/// the turn, the time and the direction; then the body for a request or an
/// error; for a response its status, its headers, its parsed body and its raw
/// body, each of the last two `null` where it is absent.
pub open spec fn record_layout(r: LogRecord) -> Seq<(Seq<char>, FieldView)> {
    let head = seq![
        ("v"@, FieldView::Number(r.v as int)),
        ("run"@, FieldView::Text(r.run@)),
        ("turn"@, FieldView::Number(r.turn as int)),
        ("ts"@, FieldView::Text(r.ts@)),
        ("dir"@, FieldView::Text(direction_tag(body_direction(r.body)))),
    ];
    match r.body {
        LogBody::Request(v) => head.push(("body"@, FieldView::Json(v))),
        LogBody::Error(m) => head.push(("body"@, FieldView::Text(m@))),
        LogBody::Response { status, headers, body, body_raw } => head + seq![
            ("status"@, FieldView::Number(status as int)),
            ("headers"@, FieldView::Headers(headers@)),
            ("body"@, match body {
                Some(v) => FieldView::Json(v),
                None => FieldView::Null,
            }),
            ("body_raw"@, match body_raw {
                Some(t) => FieldView::Text(t@),
                None => FieldView::Null,
            }),
        ],
    }
}

impl LogRecord {
    /// The fields of the log line of this record, in their order.
    pub fn fields(&self) -> (r: Vec<(&'static str, LogValue<'_>)>)
        ensures
            r@.len() == record_layout(*self).len(),
            forall|i: int|
                0 <= i < r@.len() ==> {
                    &&& (#[trigger] r@[i]).0@ == record_layout(*self)[i].0
                    &&& field_view(r@[i].1) == record_layout(*self)[i].1
                },
            self.body matches LogBody::Response { body, body_raw, .. } ==> {
                &&& r@.len() == 9
                &&& r@[7].0@ == "body"@
                &&& field_view(r@[7].1) == match body {
                    Some(v) => FieldView::Json(v),
                    None => FieldView::Null,
                }
                &&& r@[8].0@ == "body_raw"@
                &&& field_view(r@[8].1) == match body_raw {
                    Some(t) => FieldView::Text(t@),
                    None => FieldView::Null,
                }
            },
    {
        let dir = self.body.direction();
        let mut r: Vec<(&'static str, LogValue<'_>)> = Vec::new();
        r.push(("v", LogValue::Number(self.v as u64)));
        r.push(("run", LogValue::Text(self.run.as_str())));
        r.push(("turn", LogValue::Number(self.turn as u64)));
        r.push(("ts", LogValue::Text(self.ts.as_str())));
        r.push(("dir", LogValue::Text(dir.as_str())));
        match &self.body {
            LogBody::Request(v) => {
                r.push(("body", LogValue::Json(v)));
            },
            LogBody::Error(m) => {
                r.push(("body", LogValue::Text(m.as_str())));
            },
            LogBody::Response { status, headers, body, body_raw } => {
                r.push(("status", LogValue::Number(*status as u64)));
                r.push(("headers", LogValue::Headers(headers)));
                match body {
                    Some(v) => r.push(("body", LogValue::Json(v))),
                    None => r.push(("body", LogValue::Null)),
                }
                match body_raw {
                    Some(t) => r.push(("body_raw", LogValue::Text(t.as_str()))),
                    None => r.push(("body_raw", LogValue::Null)),
                }
            },
        }
        r
    }
}

/// `r` is a record of the current layout for the call at `turn` of `run`,
/// made at `ts`.
pub open spec fn record_header(r: LogRecord, run: Seq<char>, turn: int, ts: Seq<char>) -> bool {
    &&& r.v == LOG_VERSION
    &&& r.run@ == run
    &&& r.turn == turn
    &&& r.ts@ == ts
}

/// `body` and `body_raw` are how the log records a response body `raw`: the
/// parsed JSON value and no raw text where `raw` is JSON, else no value and
/// the raw text.
pub open spec fn logged_response_body(raw: Seq<char>, body: Option<Value>, body_raw: Option<String>) -> bool {
    match parse_json(raw) {
        Some(v) => body == Some(v) && body_raw is None,
        None => body is None && (body_raw matches Some(s) && s@ == raw),
    }
}

/// `r` logs `response`.
pub open spec fn logs_response(b: LogBody, response: Response) -> bool {
    b matches LogBody::Response { status, headers, body, body_raw } && {
        &&& status == response.status
        &&& headers@ == response.headers@
        &&& logged_response_body(response.raw_body@, body, body_raw)
    }
}

impl HttpCallLogger {
    /// A logger that writes to `LOG_FILE_NAME`.
    pub fn new() -> (r: Self)
        ensures
            r.log_filename@ == LOG_FILE_NAME@,
    {
        Self { log_filename: String::from_str(LOG_FILE_NAME) }
    }

    /// The body of a response as the log records it: the parsed JSON value
    /// where the body is JSON (and no raw text), else the raw text.
    pub fn response_body(raw_body: &str) -> (r: (Option<Value>, Option<String>))
        ensures
            logged_response_body(raw_body@, r.0, r.1),
    {
        match json_from_str(raw_body) {
            Some(v) => (Some(v), None),
            None => (None, Some(String::from_str(raw_body))),
        }
    }

    /// The record of the request `request`, sent at turn `turn` of `run`, at
    /// the time `ts`.
    pub fn request(&self, request: &Value, run: &str, turn: u32, ts: &str) -> (r: LogRecord)
        ensures
            record_header(r, run@, turn as int, ts@),
            r.body == LogBody::Request(*request),
    {
        LogRecord {
            v: LOG_VERSION,
            run: String::from_str(run),
            turn,
            ts: String::from_str(ts),
            body: LogBody::Request(clone_json(request)),
        }
    }

    /// The record of the error `error_message` of the call at turn `turn` of
    /// `run`, at the time `ts`.
    pub fn error(&self, error_message: &str, run: &str, turn: u32, ts: &str) -> (r: LogRecord)
        ensures
            record_header(r, run@, turn as int, ts@),
            r.body matches LogBody::Error(m) && m@ == error_message@,
    {
        LogRecord {
            v: LOG_VERSION,
            run: String::from_str(run),
            turn,
            ts: String::from_str(ts),
            body: LogBody::Error(String::from_str(error_message)),
        }
    }

    /// The record of the response `response` to the call at turn `turn` of
    /// `run`, at the time `ts`.
    pub fn response(&self, response: &Response, run: &str, turn: u32, ts: &str) -> (r: LogRecord)
        ensures
            record_header(r, run@, turn as int, ts@),
            logs_response(r.body, *response),
    {
        let (body, body_raw) = Self::response_body(response.raw_body.as_str());
        LogRecord {
            v: LOG_VERSION,
            run: String::from_str(run),
            turn,
            ts: String::from_str(ts),
            body: LogBody::Response {
                status: response.status,
                headers: response.headers.clone(),
                body,
                body_raw,
            },
        }
    }
}

/// The line that logs a response carries its body: where the body is JSON,
/// the `body` field holds the parsed value and `body_raw` is null; where it is
/// not, `body` is null and `body_raw` holds the text as it came.
pub proof fn lemma_response_line_keeps_body(r: LogRecord, response: Response)
    requires
        logs_response(r.body, response),
    ensures
        record_layout(r).len() == 9,
        record_layout(r)[7].0 == "body"@,
        record_layout(r)[8].0 == "body_raw"@,
        match parse_json(response.raw_body@) {
            Some(v) => record_layout(r)[7].1 == FieldView::Json(v) && record_layout(r)[8].1 == FieldView::Null,
            None => record_layout(r)[7].1 == FieldView::Null && record_layout(r)[8].1 == FieldView::Text(
                response.raw_body@,
            ),
        },
{
}

} // verus!
