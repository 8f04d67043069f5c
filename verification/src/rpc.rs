//! Messages between the editor and its proxy: the requests and
//! notifications they exchange, how a received JSON-RPC object is read, and
//! the table of requests that wait for a response.
use std::collections::HashMap;

use vstd::prelude::*;

use crate::doc::BufferId;
use crate::text::{concat, str_chars, trim_chars, trim_seq};

verus! {

broadcast use vstd::std_specs::hash::group_hash_axioms;

/// How an open file changed on disk.
#[derive(Debug, Clone)]
pub enum FileChanged {
    Change(String),
    Delete,
}

/// A match of a workspace-wide search.
#[derive(Debug, Clone)]
pub struct SearchMatch {
    pub line: usize,
    pub start: usize,
    pub end: usize,
    pub line_content: String,
}

/// Requests from the editor to the proxy.
#[derive(Debug, Clone)]
pub enum ProxyRequest {
    NewBuffer { buffer_id: BufferId, path: String },
    BufferHead { path: String },
    GlobalSearch { pattern: String, case_sensitive: bool, whole_word: bool, is_regex: bool },
    GitGetRemoteFileUrl { file: String },
    GetFiles { path: String },
    ReadDir { path: String },
    Save {
        rev: u64,
        path: String,
        /// Whether to create the parent directories if they do not exist.
        create_parents: bool,
    },
    SaveBufferAs {
        buffer_id: BufferId,
        path: String,
        rev: u64,
        content: String,
        /// Whether to create the parent directories if they do not exist.
        create_parents: bool,
    },
    CreateFile { path: String },
    CreateDirectory { path: String },
    TrashPath { path: String },
    DuplicatePath { existing_path: String, new_path: String },
    RenamePath { from: String, to: String },
    TestCreateAtPath { path: String },
}

/// A received JSON-RPC object, as far as its kind depends on it: its `id`
/// (where it is an unsigned integer), which of the members `id`, `method`,
/// `result` and `error` it has, and the values of `result`, `error` and of
/// the whole object.
#[derive(Debug)]
pub struct RpcObject<V> {
    pub id: Option<u64>,
    pub has_id: bool,
    pub has_method: bool,
    pub result: Option<V>,
    pub error: Option<V>,
    pub value: V,
}

/// A received message, by kind.
#[derive(Debug)]
pub enum RpcKind<V> {
    /// A response with a result or an error.
    Response(u64, Result<V, V>),
    /// A request, as the whole object.
    Request(u64, V),
    /// A notification, as the whole object.
    Notification(V),
}

pub open spec fn no_id_message() -> Seq<char> {
    "Response requires 'id' field."@
}

pub open spec fn result_xor_error_message() -> Seq<char> {
    "RPC response must contain exactly one of'error' or 'result' fields."@
}

impl<V> RpcObject<V> {
    /// The object is consistent: an unsigned `id` is an `id` member.
    pub open spec fn wf(&self) -> bool {
        self.id is Some ==> self.has_id
    }

    pub fn get_id(&self) -> (r: Option<u64>)
        ensures
            r == self.id,
    {
        self.id
    }

    /// An object with an `id` and no `method` is a response.
    pub fn is_response(&self) -> (r: bool)
        ensures
            r == (self.has_id && !self.has_method),
    {
        self.has_id && !self.has_method
    }

    /// The result or the error that a response carries.
    pub fn into_response(self) -> (r: Result<Result<V, V>, String>)
        ensures
            self.id is None ==> (r matches Err(m) && m@ == no_id_message()),
            self.id is Some && (self.result is Some) == (self.error is Some) ==> (r matches Err(m)
                && m@ == result_xor_error_message()),
            self.id is Some && self.result is Some && self.error is None ==> r == Ok::<
                Result<V, V>,
                String,
            >(Ok(self.result->0)),
            self.id is Some && self.result is None && self.error is Some ==> r == Ok::<
                Result<V, V>,
                String,
            >(Err(self.error->0)),
    {
        if self.id.is_none() {
            return Err(String::from_str("Response requires 'id' field."));
        }
        if self.result.is_some() == self.error.is_some() {
            return Err(
                String::from_str("RPC response must contain exactly one of'error' or 'result' fields."),
            );
        }
        match self.result {
            Some(r) => Ok(Ok(r)),
            None => match self.error {
                Some(e) => Ok(Err(e)),
                None => Err(String::new()),
            },
        }
    }

    /// The kind of a received message; `None` for a response without an
    /// unsigned `id` or with not exactly one of `result` and `error`.
    pub fn classify(self) -> (r: Option<RpcKind<V>>)
        requires
            self.wf(),
        ensures
            self.has_id && !self.has_method ==> match r {
                Some(RpcKind::Response(id, res)) => self.id == Some(id) && (self.result is Some) != (
                self.error is Some) && match res {
                    Ok(v) => self.result == Some(v),
                    Err(v) => self.result is None && self.error == Some(v),
                },
                Some(_) => false,
                None => self.id is None || (self.result is Some) == (self.error is Some),
            },
            !(self.has_id && !self.has_method) ==> match self.id {
                Some(id) => r == Some(RpcKind::Request(id, self.value)),
                None => r == Some(RpcKind::<V>::Notification(self.value)),
            },
    {
        if self.is_response() {
            let id = match self.id {
                Some(id) => id,
                None => return None,
            };
            match self.into_response() {
                Ok(res) => Some(RpcKind::Response(id, res)),
                Err(_) => None,
            }
        } else {
            match self.id {
                Some(id) => Some(RpcKind::Request(id, self.value)),
                None => Some(RpcKind::Notification(self.value)),
            }
        }
    }
}

/// A message as it is written to the other side: its JSON text and a line
/// feed, one message per line.
pub fn frame_message(json: &str) -> (r: String)
    ensures
        r@ == json@.push('\n'),
{
    let r = concat(json, "\n");
    proof {
        reveal_strlit("\n");
    }
    assert(r@ =~= json@.push('\n'));
    r
}

/// Whether a line read from the other side carries no message: it holds
/// white space only (the end of the input reads as an empty line).
pub fn is_blank_line(line: &str) -> (r: bool)
    ensures
        r == (trim_seq(line@).len() == 0),
{
    let cs = str_chars(line);
    let (a, b) = trim_chars(&cs);
    a == b
}

/// `serde_json::Value`, a parsed JSON value.
#[verifier::external_type_specification]
#[verifier::external_body]
pub struct ExJsonValue(serde_json::Value);

/// `serde_json::Error`, why a text is not JSON.
#[verifier::external_type_specification]
#[verifier::external_body]
pub struct ExJsonError(serde_json::Error);

/// What a line read from the other side is, as far as the kind of the
/// message depends on it: `None` where the line is not JSON; else the
/// object's `id` where it is an unsigned integer, and whether it has the
/// members `id`, `method`, `result` and `error`.
pub uninterp spec fn spec_rpc_line(line: Seq<char>) -> Option<(Option<u64>, bool, bool, bool, bool)>;

/// `serde_json::from_str::<Value>(line)`, with the members that decide the
/// kind of the message read from the value (`get("id")` with `as_u64`,
/// `get("method")`, `get("result")`, `get("error")`).
///
/// Trusted: the outcome is named `spec_rpc_line` of the line; where the
/// line parses, the object read from it carries those members (an unsigned
/// `id` is an `id` member), and the values of `result`, `error` and the
/// whole object, which nothing states more of.
#[verifier::external_body]
fn parse_rpc_line(line: &str) -> (r: Result<RpcObject<serde_json::Value>, serde_json::Error>)
    ensures
        match r {
            Ok(o) => o.wf() && spec_rpc_line(line@) == Some(
                (o.id, o.has_id, o.has_method, o.result is Some, o.error is Some),
            ),
            Err(_) => spec_rpc_line(line@) is None,
        },
{
    match serde_json::from_str::<serde_json::Value>(line) {
        Ok(value) => Ok(RpcObject {
            id: value.get("id").and_then(serde_json::Value::as_u64),
            has_id: value.get("id").is_some(),
            has_method: value.get("method").is_some(),
            result: value.get("result").cloned(),
            error: value.get("error").cloned(),
            value,
        }),
        Err(e) => Err(e),
    }
}

/// The kind of the message that a line read from the other side carries.
pub open spec fn spec_line_kind(
    fields: (Option<u64>, bool, bool, bool, bool),
    kind: Option<RpcKind<serde_json::Value>>,
) -> bool {
    let (id, has_id, has_method, has_result, has_error) = fields;
    if has_id && !has_method {
        match kind {
            Some(RpcKind::Response(i, res)) => id == Some(i) && has_result != has_error && (res is Ok)
                == has_result,
            Some(_) => false,
            None => id is None || has_result == has_error,
        }
    } else {
        match id {
            Some(i) => kind matches Some(RpcKind::Request(j, _)) && j == i,
            None => kind matches Some(RpcKind::Notification(_)),
        }
    }
}

/// Reads a line of JSON-RPC: an error where the line is not JSON; else the
/// kind of its message, `None` for a response without an unsigned `id` or
/// without exactly one of `result` and `error`.
pub fn read_rpc_line(line: &str) -> (r: Result<Option<RpcKind<serde_json::Value>>, serde_json::Error>)
    ensures
        match spec_rpc_line(line@) {
            None => r is Err,
            Some(fields) => r matches Ok(kind) && spec_line_kind(fields, kind),
        },
{
    match parse_rpc_line(line) {
        Ok(object) => Ok(object.classify()),
        Err(e) => Err(e),
    }
}

/// A line read from the other side of an IPC channel.
#[derive(Debug)]
pub enum IpcLine {
    /// White space only: no message (the end of the input reads so).
    Blank,
    /// A JSON value, to be read as a message.
    Value(serde_json::Value),
}

/// Reads a line of the IPC channel: blank, or the JSON value it holds; an
/// error where it is neither.
pub fn read_ipc_line(line: &str) -> (r: Result<IpcLine, serde_json::Error>)
    ensures
        trim_seq(line@).len() == 0 ==> r matches Ok(IpcLine::Blank),
        trim_seq(line@).len() != 0 ==> match spec_rpc_line(line@) {
            None => r is Err,
            Some(_) => r matches Ok(IpcLine::Value(_)),
        },
{
    if is_blank_line(line) {
        return Ok(IpcLine::Blank);
    }
    match parse_rpc_line(line) {
        Ok(object) => Ok(IpcLine::Value(object.value)),
        Err(e) => Err(e),
    }
}

/// Where the editor side hands a notification from the proxy.
#[derive(Debug, PartialEq, Eq)]
pub enum NotificationRoute {
    /// New content of a terminal goes to the terminals, as an update of
    /// that terminal's content.
    Terminal { term_id: u64, content: Vec<u8> },
    /// Every other notification goes to the window.
    Window,
}

/// Routes a notification from the proxy, given the terminal and content
/// it carries where it is a terminal update (and `None` for any other).
pub fn route_core_notification(terminal_update: Option<(u64, Vec<u8>)>) -> (r: NotificationRoute)
    ensures
        match terminal_update {
            Some((term_id, content)) => r == (NotificationRoute::Terminal { term_id, content }),
            None => r == NotificationRoute::Window,
        },
{
    match terminal_update {
        Some((term_id, content)) => NotificationRoute::Terminal { term_id, content },
        None => NotificationRoute::Window,
    }
}

/// The requests that wait for their response, by request id, and the id
/// of the next request.
#[derive(Debug)]
pub struct PendingRequests<H> {
    pub next_id: u64,
    pub pending: HashMap<u64, H>,
}

impl<H> PendingRequests<H> {
    /// No request is pending; the first id is 0.
    pub fn new() -> (r: PendingRequests<H>)
        ensures
            r.next_id == 0,
            r.pending@ == Map::<u64, H>::empty(),
    {
        PendingRequests { next_id: 0, pending: HashMap::new() }
    }

    /// Records the handler of a new request, and returns the request's id.
    /// Ids are handed out in order and wrap around after `u64::MAX`.
    pub fn register(&mut self, handler: H) -> (id: u64)
        ensures
            id == old(self).next_id,
            final(self).next_id == (if old(self).next_id == u64::MAX { 0 } else { old(self).next_id + 1 }),
            final(self).pending@ == old(self).pending@.insert(id, handler),
    {
        let id = self.next_id;
        self.next_id = if self.next_id == u64::MAX { 0 } else { self.next_id + 1 };
        self.pending.insert(id, handler);
        id
    }

    /// Removes and returns the handler waiting for the response to `id`.
    pub fn take(&mut self, id: u64) -> (r: Option<H>)
        ensures
            final(self).next_id == old(self).next_id,
            final(self).pending@ == old(self).pending@.remove(id),
            match r {
                Some(h) => old(self).pending@.contains_key(id) && h == old(self).pending@[id],
                None => !old(self).pending@.contains_key(id),
            },
    {
        self.pending.remove(&id)
    }
}

/// A response reaches the handler that was registered for its request, and
/// only once: a second response with the same id finds no handler.
pub proof fn law_response_reaches_its_handler<H>(
    before: Map<u64, H>,
    id: u64,
    handler: H,
)
    ensures
        before.insert(id, handler).contains_key(id),
        before.insert(id, handler)[id] == handler,
        !before.insert(id, handler).remove(id).contains_key(id),
        forall|other: u64| other != id ==> #[trigger] before.insert(id, handler).remove(id).contains_key(other)
            == before.contains_key(other),
{
}

} // verus!
