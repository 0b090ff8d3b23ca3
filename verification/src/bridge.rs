//! The bridge between a remote process and the live document: the frames
//! on the wire, the registry of requests that wait for an acknowledgement,
//! and what each request comes to. The bridge decides; whoever drives it
//! reads and writes the stream, relays the events and keeps the time.

use vstd::prelude::*;
use vstd::string::*;
use crate::json::{
    check_syntax, document_or_null, literal, member, read_member, read_string_member,
    string_member, syntax_error, write_compact, write_literal,
};
use crate::tasks::or_default;
use crate::text::{opt_view, str_eq, trim, trimmed};

verus! {

/// One request that waits for its acknowledgement: the correlation
/// identifier, and the slot through which the answer is handed over.
struct PendingEntry<T> {
    id: String,
    slot: T,
}

/// The entries of a list as a map from identifier to slot; of two entries
/// with one identifier the later counts.
spec fn entries_map<T>(entries: Seq<PendingEntry<T>>) -> Map<Seq<char>, T>
    decreases entries.len(),
{
    if entries.len() == 0 {
        Map::empty()
    } else {
        entries_map(entries.drop_last()).insert(entries.last().id@, entries.last().slot)
    }
}

/// No two entries of a list share an identifier.
spec fn distinct_ids<T>(entries: Seq<PendingEntry<T>>) -> bool {
    forall|i: int, j: int|
        0 <= i < j < entries.len() ==> (#[trigger] entries[i]).id@ != (#[trigger] entries[j]).id@
}

/// The identifiers of a list are exactly the keys of its map, and each
/// entry's slot is what the map holds for it.
proof fn lemma_entries_map<T>(entries: Seq<PendingEntry<T>>)
    requires
        distinct_ids(entries),
    ensures
        forall|i: int|
            0 <= i < entries.len() ==> entries_map(entries).contains_key(
                (#[trigger] entries[i]).id@,
            ) && entries_map(entries)[entries[i].id@] == entries[i].slot,
        forall|id: Seq<char>| #[trigger]
            entries_map(entries).contains_key(id) ==> exists|i: int|
                0 <= i < entries.len() && (#[trigger] entries[i]).id@ == id,
        entries_map(entries).dom().finite(),
        entries_map(entries).len() == entries.len(),
    decreases entries.len(),
{
    if entries.len() > 0 {
        let head = entries.drop_last();
        lemma_entries_map(head);
        assert forall|i: int| 0 <= i < entries.len() implies entries_map(entries).contains_key(
            (#[trigger] entries[i]).id@,
        ) && entries_map(entries)[entries[i].id@] == entries[i].slot by {
            if i < head.len() {
                assert(head[i] == entries[i]);
            }
        }
    }
}

/// Taking one entry out of a list takes its identifier out of the map and
/// leaves the rest as it was.
proof fn lemma_entries_remove<T>(entries: Seq<PendingEntry<T>>, k: int)
    requires
        distinct_ids(entries),
        0 <= k < entries.len(),
    ensures
        distinct_ids(entries.remove(k)),
        entries_map(entries.remove(k)) == entries_map(entries).remove(entries[k].id@),
    decreases entries.len(),
{
    let rest = entries.remove(k);
    lemma_entries_map(entries);
    lemma_entries_map(rest);
    assert forall|id: Seq<char>|
        entries_map(rest).contains_key(id) <==> entries_map(entries).remove(
            entries[k].id@,
        ).contains_key(id) by {
        if entries_map(entries).remove(entries[k].id@).contains_key(id) {
            let a = choose|a: int| 0 <= a < entries.len() && (#[trigger] entries[a]).id@ == id;
            let i = if a < k {
                a
            } else {
                a - 1
            };
            assert(rest[i] == entries[a]);
        }
    }
}

/// The registry of requests that wait for an acknowledgement. It holds at
/// most one entry for an identifier.
pub struct PendingMap<T> {
    entries: Vec<PendingEntry<T>>,
}

impl<T> View for PendingMap<T> {
    type V = Map<Seq<char>, T>;

    closed spec fn view(&self) -> Map<Seq<char>, T> {
        entries_map(self.entries@)
    }
}

impl<T> PendingMap<T> {
    #[verifier::type_invariant]
    spec fn at_most_one_entry_per_id(self) -> bool {
        distinct_ids(self.entries@)
    }

    /// A registry without entries.
    pub fn new() -> (r: PendingMap<T>)
        ensures
            r@ == Map::<Seq<char>, T>::empty(),
    {
        PendingMap { entries: Vec::new() }
    }

    /// The number of requests that wait.
    pub fn len(&self) -> (r: usize)
        ensures
            r == self@.len(),
            self@.dom().finite(),
    {
        proof {
            use_type_invariant(self);
            lemma_entries_map(self.entries@);
        }
        self.entries.len()
    }

    fn position(&self, id: &str) -> (r: Option<usize>)
        ensures
            match r {
                Some(k) => k < self.entries@.len() && self.entries@[k as int].id@ == id@,
                None => forall|j: int|
                    0 <= j < self.entries@.len() ==> (#[trigger] self.entries@[j]).id@ != id@,
            },
    {
        let mut i: usize = 0;
        while i < self.entries.len()
            invariant
                i <= self.entries@.len(),
                forall|j: int| 0 <= j < i ==> (#[trigger] self.entries@[j]).id@ != id@,
            decreases self.entries@.len() - i,
        {
            if str_eq(self.entries[i].id.as_str(), id) {
                return Some(i);
            }
            i = i + 1;
        }
        None
    }

    /// Whether a request waits under this identifier.
    pub fn contains(&self, id: &str) -> (r: bool)
        ensures
            r == self@.contains_key(id@),
    {
        proof {
            use_type_invariant(self);
            lemma_entries_map(self.entries@);
        }
        self.position(id).is_some()
    }

    /// Takes the entry of an identifier out of the registry and hands its
    /// slot over; `None`, and nothing changed, where there is none.
    pub fn remove(&mut self, id: &str) -> (r: Option<T>)
        ensures
            match r {
                Some(slot) => old(self)@.contains_key(id@) && slot == old(self)@[id@],
                None => !old(self)@.contains_key(id@),
            },
            final(self)@ == old(self)@.remove(id@),
    {
        proof {
            use_type_invariant(&*self);
            lemma_entries_map(self.entries@);
        }
        match self.position(id) {
            Some(k) => {
                proof {
                    lemma_entries_remove(self.entries@, k as int);
                }
                let mut entries: Vec<PendingEntry<T>> = Vec::new();
                core::mem::swap(&mut self.entries, &mut entries);
                let entry = entries.remove(k);
                self.entries = entries;
                Some(entry.slot)
            },
            None => {
                None
            },
        }
    }

    /// Enters a request. An entry that waited under the same identifier
    /// gives way: its slot is handed back.
    pub fn insert(&mut self, id: String, slot: T) -> (r: Option<T>)
        ensures
            match r {
                Some(earlier) => old(self)@.contains_key(id@) && earlier == old(self)@[id@],
                None => !old(self)@.contains_key(id@),
            },
            final(self)@ == old(self)@.insert(id@, slot),
    {
        let earlier = self.remove(id.as_str());
        proof {
            use_type_invariant(&*self);
            lemma_entries_map(self.entries@);
            assert(self.entries@.push(PendingEntry { id, slot }).drop_last() =~= self.entries@);
        }
        let mut entries: Vec<PendingEntry<T>> = Vec::new();
        core::mem::swap(&mut self.entries, &mut entries);
        entries.push(PendingEntry { id, slot });
        self.entries = entries;
        earlier
    }
}

/// The correlation identifier of the answer to a frame that cannot be
/// read.
pub const UNKNOWN_ID: &'static str = "unknown";

/// The method that reads the document.
pub const METHOD_READ: &'static str = "canvas_read";

/// The method that applies a batch of mutations to the document.
pub const METHOD_BATCH: &'static str = "canvas_batch";

/// The event by which a read is relayed to the live document.
pub const EVENT_READ: &'static str = "mcp:canvas_read";

/// The event by which a batch of mutations is relayed to the live document.
pub const EVENT_BATCH: &'static str = "mcp:canvas_batch";

/// The event by which the live document acknowledges a request.
pub const EVENT_RESPONSE: &'static str = "mcp:response";

/// Seconds that a request waits for its acknowledgement.
pub const WAIT_SECS: u64 = 30;

/// The payload of an answer: a result or an error, never both and never
/// neither.
#[derive(Debug)]
pub enum Reply {
    Result(String),
    Error(String),
}

/// A reply over plain texts.
pub enum ReplyView {
    Result(Seq<char>),
    Error(Seq<char>),
}

impl View for Reply {
    type V = ReplyView;

    open spec fn view(&self) -> ReplyView {
        match self {
            Reply::Result(text) => ReplyView::Result(text@),
            Reply::Error(text) => ReplyView::Error(text@),
        }
    }
}

/// The answer to one request, under the request's identifier.
#[derive(Debug)]
pub struct BridgeResponse {
    pub id: String,
    pub reply: Reply,
}

/// An answer over plain texts.
pub struct ResponseView {
    pub id: Seq<char>,
    pub reply: ReplyView,
}

impl View for BridgeResponse {
    type V = ResponseView;

    open spec fn view(&self) -> ResponseView {
        ResponseView { id: self.id@, reply: self.reply@ }
    }
}

impl ResponseView {
    /// The answer as a frame: a JSON object with the identifier and either
    /// `result` or `error`, closed by a line feed.
    pub open spec fn line(self) -> Seq<char> {
        match self.reply {
            ReplyView::Result(text) => "{\"id\":"@ + literal(self.id) + ",\"result\":"@ + literal(
                text,
            ) + "}\n"@,
            ReplyView::Error(text) => "{\"id\":"@ + literal(self.id) + ",\"error\":"@ + literal(
                text,
            ) + "}\n"@,
        }
    }
}

impl BridgeResponse {
    /// Writes the answer as a frame.
    pub fn to_line(&self) -> (r: String)
        ensures
            r@ == self@.line(),
    {
        let mut out = "{\"id\":".to_string();
        let id = write_literal(self.id.as_str());
        out.append(id.as_str());
        match &self.reply {
            Reply::Result(text) => {
                out.append(",\"result\":");
                let value = write_literal(text.as_str());
                out.append(value.as_str());
            },
            Reply::Error(text) => {
                out.append(",\"error\":");
                let value = write_literal(text.as_str());
                out.append(value.as_str());
            },
        }
        out.append("}\n");
        out
    }
}

/// What a request frame holds: identifier, method, and the parameters as
/// the JSON document that they are.
#[derive(Debug)]
pub struct BridgeRequest {
    pub id: String,
    pub method: String,
    pub params: String,
}

/// A request over plain texts.
pub struct RequestView {
    pub id: Seq<char>,
    pub method: Seq<char>,
    pub params: Seq<char>,
}

impl View for BridgeRequest {
    type V = RequestView;

    open spec fn view(&self) -> RequestView {
        RequestView { id: self.id@, method: self.method@, params: self.params@ }
    }
}

/// The request that the fields of a frame make, or what is wrong with
/// them: identifier and method must be strings, and the parameters must be
/// there.
pub open spec fn request_from(
    id: Option<Seq<char>>,
    method: Option<Seq<char>>,
    params: Option<Seq<char>>,
) -> Result<RequestView, Seq<char>> {
    match (id, method, params) {
        (None, _, _) => Err("Invalid request JSON: missing field `id`"@),
        (Some(_), None, _) => Err("Invalid request JSON: missing field `method`"@),
        (Some(_), Some(_), None) => Err("Invalid request JSON: missing field `params`"@),
        (Some(id), Some(method), Some(params)) => Ok(RequestView { id, method, params }),
    }
}

/// The request that a frame holds, or what is wrong with the frame. The
/// frame is trimmed before it is read.
pub open spec fn request_of(line: Seq<char>) -> Result<RequestView, Seq<char>> {
    let text = trimmed(line);
    match syntax_error(text) {
        Some(complaint) => Err("Invalid request JSON: "@ + complaint),
        None => request_from(
            string_member(text, "id"@),
            string_member(text, "method"@),
            member(text, "params"@),
        ),
    }
}

/// A request over plain texts, or what is wrong.
pub open spec fn request_view(r: Result<BridgeRequest, String>) -> Result<RequestView, Seq<char>> {
    match r {
        Ok(request) => Ok(request@),
        Err(e) => Err(e@),
    }
}

/// Puts the fields of a frame together.
pub fn bridge_request(id: Option<String>, method: Option<String>, params: Option<String>) -> (r:
    Result<BridgeRequest, String>)
    ensures
        request_view(r) == request_from(opt_view(id), opt_view(method), opt_view(params)),
{
    let id = match id {
        Some(v) => v,
        None => {
            return Err("Invalid request JSON: missing field `id`".to_string());
        },
    };
    let method = match method {
        Some(v) => v,
        None => {
            return Err("Invalid request JSON: missing field `method`".to_string());
        },
    };
    let params = match params {
        Some(v) => v,
        None => {
            return Err("Invalid request JSON: missing field `params`".to_string());
        },
    };
    Ok(BridgeRequest { id, method, params })
}

/// Reads a request frame.
pub fn parse_request(line: &str) -> (r: Result<BridgeRequest, String>)
    ensures
        request_view(r) == request_of(line@),
{
    let text = trim(line);
    match check_syntax(text) {
        Some(complaint) => {
            let mut message = "Invalid request JSON: ".to_string();
            message.append(complaint.as_str());
            Err(message)
        },
        None => bridge_request(
            read_string_member(text, "id"),
            read_string_member(text, "method"),
            read_member(text, "params"),
        ),
    }
}

/// What a frame comes to.
#[derive(Debug)]
pub enum FrameOutcome {
    /// The frame is answered at once; nothing waits.
    Respond(BridgeResponse),
    /// The request is relayed to the live document as the event `event`
    /// with a JSON payload, and its answer waits for the acknowledgement
    /// under the identifier `id`.
    Forward { id: String, event: String, payload: String },
}

/// What a frame comes to, over plain texts.
pub enum FrameOutcomeView {
    Respond(ResponseView),
    Forward { id: Seq<char>, event: Seq<char>, payload: Seq<char> },
}

impl View for FrameOutcome {
    type V = FrameOutcomeView;

    open spec fn view(&self) -> FrameOutcomeView {
        match self {
            FrameOutcome::Respond(response) => FrameOutcomeView::Respond(response@),
            FrameOutcome::Forward { id, event, payload } => FrameOutcomeView::Forward {
                id: id@,
                event: event@,
                payload: payload@,
            },
        }
    }
}

/// A member of a JSON object as a JSON value: what it holds, or `null`.
pub open spec fn member_or_null(text: Seq<char>, key: Seq<char>) -> Seq<char> {
    match member(text, key) {
        Some(value) => value,
        None => "null"@,
    }
}

/// The payload of the event that relays a read: the request's identifier,
/// and scope, node and edge identifiers as the parameters hold them.
pub open spec fn read_payload(id: Seq<char>, params: Seq<char>) -> Seq<char> {
    "{\"requestId\":"@ + literal(id) + ",\"scope\":"@ + member_or_null(params, "scope"@)
        + ",\"nodeIds\":"@ + member_or_null(params, "nodeIds"@) + ",\"edgeIds\":"@ + member_or_null(
        params,
        "edgeIds"@,
    ) + "}"@
}

/// The payload of the event that relays a batch of mutations: the
/// request's identifier, and the parameters as the operations.
pub open spec fn batch_payload(id: Seq<char>, params: Seq<char>) -> Seq<char> {
    "{\"requestId\":"@ + literal(id) + ",\"operations\":"@ + params + "}"@
}

/// What a request comes to: a read and a batch are relayed, any other
/// method is turned down at once.
pub open spec fn dispatched(request: RequestView) -> FrameOutcomeView {
    if request.method == METHOD_READ@ {
        FrameOutcomeView::Forward {
            id: request.id,
            event: EVENT_READ@,
            payload: read_payload(request.id, request.params),
        }
    } else if request.method == METHOD_BATCH@ {
        FrameOutcomeView::Forward {
            id: request.id,
            event: EVENT_BATCH@,
            payload: batch_payload(request.id, request.params),
        }
    } else {
        FrameOutcomeView::Respond(
            ResponseView {
                id: request.id,
                reply: ReplyView::Error("Unknown method: "@ + request.method),
            },
        )
    }
}

/// What a frame comes to: a frame that cannot be read is answered with an
/// error under the identifier `unknown`; one that can is dispatched.
pub open spec fn frame_outcome(line: Seq<char>) -> FrameOutcomeView {
    match request_of(line) {
        Err(message) => FrameOutcomeView::Respond(
            ResponseView { id: UNKNOWN_ID@, reply: ReplyView::Error(message) },
        ),
        Ok(request) => dispatched(request),
    }
}

fn write_member_or_null(text: &str, key: &str) -> (r: String)
    ensures
        r@ == member_or_null(text@, key@),
{
    match read_member(text, key) {
        Some(value) => value,
        None => "null".to_string(),
    }
}

/// Decides what a request comes to.
pub fn dispatch(request: BridgeRequest) -> (r: FrameOutcome)
    ensures
        r@ == dispatched(request@),
{
    if str_eq(request.method.as_str(), METHOD_READ) {
        let mut payload = "{\"requestId\":".to_string();
        let id = write_literal(request.id.as_str());
        payload.append(id.as_str());
        payload.append(",\"scope\":");
        let scope = write_member_or_null(request.params.as_str(), "scope");
        payload.append(scope.as_str());
        payload.append(",\"nodeIds\":");
        let nodes = write_member_or_null(request.params.as_str(), "nodeIds");
        payload.append(nodes.as_str());
        payload.append(",\"edgeIds\":");
        let edges = write_member_or_null(request.params.as_str(), "edgeIds");
        payload.append(edges.as_str());
        payload.append("}");
        FrameOutcome::Forward { id: request.id, event: EVENT_READ.to_string(), payload }
    } else if str_eq(request.method.as_str(), METHOD_BATCH) {
        let mut payload = "{\"requestId\":".to_string();
        let id = write_literal(request.id.as_str());
        payload.append(id.as_str());
        payload.append(",\"operations\":");
        payload.append(request.params.as_str());
        payload.append("}");
        FrameOutcome::Forward { id: request.id, event: EVENT_BATCH.to_string(), payload }
    } else {
        let mut message = "Unknown method: ".to_string();
        message.append(request.method.as_str());
        FrameOutcome::Respond(BridgeResponse { id: request.id, reply: Reply::Error(message) })
    }
}

/// Reads a frame and decides what it comes to.
pub fn handle_frame(line: &str) -> (r: FrameOutcome)
    ensures
        r@ == frame_outcome(line@),
{
    match parse_request(line) {
        Err(message) => FrameOutcome::Respond(
            BridgeResponse { id: UNKNOWN_ID.to_string(), reply: Reply::Error(message) },
        ),
        Ok(request) => dispatch(request),
    }
}

/// How the wait of a relayed request ended.
#[derive(Debug)]
pub enum Outcome {
    /// The acknowledgement came in time, with this payload.
    Filled(String),
    /// The wait ran out.
    TimedOut,
    /// The slot was dropped before it was filled.
    Closed,
    /// The request could not be relayed at all.
    EmitFailed(String),
}

impl Outcome {
    /// The reply that the outcome of a wait amounts to.
    pub open spec fn reply(self) -> ReplyView {
        match self {
            Outcome::Filled(payload) => ReplyView::Result(payload@),
            Outcome::TimedOut => ReplyView::Error("Request timed out (30s)"@),
            Outcome::Closed => ReplyView::Error("Response channel closed"@),
            Outcome::EmitFailed(reason) => ReplyView::Error("Failed to emit event: "@ + reason@),
        }
    }
}

/// The answer to a relayed request and the registry afterwards, given how
/// its wait ended. An acknowledgement in time has taken the entry out
/// already; after any other end the entry, where it is still there, goes.
pub open spec fn concluded<T>(pending: Map<Seq<char>, T>, id: Seq<char>, outcome: Outcome) -> (
    ResponseView,
    Map<Seq<char>, T>,
) {
    (
        ResponseView { id, reply: outcome.reply() },
        if outcome is Filled {
            pending
        } else {
            pending.remove(id)
        },
    )
}

/// Closes the wait of a relayed request: takes what may be left of its
/// entry out of the registry and gives the answer to write.
pub fn conclude<T>(pending: &mut PendingMap<T>, id: &str, outcome: Outcome) -> (r: BridgeResponse)
    ensures
        r@ == concluded(old(pending)@, id@, outcome).0,
        final(pending)@ == concluded(old(pending)@, id@, outcome).1,
{
    let reply = match outcome {
        Outcome::Filled(payload) => Reply::Result(payload),
        Outcome::TimedOut => {
            let _ = pending.remove(id);
            Reply::Error("Request timed out (30s)".to_string())
        },
        Outcome::Closed => {
            let _ = pending.remove(id);
            Reply::Error("Response channel closed".to_string())
        },
        Outcome::EmitFailed(reason) => {
            let _ = pending.remove(id);
            let mut message = "Failed to emit event: ".to_string();
            message.append(reason.as_str());
            Reply::Error(message)
        },
    };
    BridgeResponse { id: id.to_string(), reply }
}

/// An acknowledgement that found its request: the slot that waits, and the
/// payload to hand over through it.
pub struct Delivery<T> {
    pub slot: T,
    pub payload: String,
}

/// What an acknowledgement holds: identifier and payload of a JSON object
/// whose members `id` and `result` are strings.
pub open spec fn acknowledgement(text: Seq<char>) -> Option<(Seq<char>, Seq<char>)> {
    match (string_member(text, "id"@), string_member(text, "result"@)) {
        (Some(id), Some(result)) => Some((id, result)),
        _ => None,
    }
}

/// The delivery that an acknowledgement leads to, and the registry
/// afterwards. One that finds its request takes the entry out; one that
/// cannot be read, or finds nothing, changes nothing.
pub open spec fn acknowledged<T>(pending: Map<Seq<char>, T>, text: Seq<char>) -> (
    Option<(T, Seq<char>)>,
    Map<Seq<char>, T>,
) {
    match acknowledgement(text) {
        Some((id, payload)) => if pending.contains_key(id) {
            (Some((pending[id], payload)), pending.remove(id))
        } else {
            (None, pending)
        },
        None => (None, pending),
    }
}

/// A delivery over plain values.
pub open spec fn delivery_view<T>(d: Option<Delivery<T>>) -> Option<(T, Seq<char>)> {
    match d {
        Some(delivery) => Some((delivery.slot, delivery.payload@)),
        None => None,
    }
}

/// Matches an acknowledgement of the live document with the request that
/// waits for it.
pub fn deliver<T>(pending: &mut PendingMap<T>, text: &str) -> (r: Option<Delivery<T>>)
    ensures
        delivery_view(r) == acknowledged(old(pending)@, text@).0,
        final(pending)@ == acknowledged(old(pending)@, text@).1,
{
    let id = match read_string_member(text, "id") {
        Some(id) => id,
        None => {
            return None;
        },
    };
    let payload = match read_string_member(text, "result") {
        Some(payload) => payload,
        None => {
            return None;
        },
    };
    match pending.remove(id.as_str()) {
        Some(slot) => Some(Delivery { slot, payload }),
        None => {
            None
        },
    }
}

/// A request frame as the remote process writes it: a JSON object with
/// identifier, method and parameters, closed by a line feed. The
/// parameters are a JSON document and go in in compact form; parameters
/// that are no document go in as `null`.
pub open spec fn request_line(id: Seq<char>, method: Seq<char>, params: Seq<char>) -> Seq<char> {
    "{\"id\":"@ + literal(id) + ",\"method\":"@ + literal(method) + ",\"params\":"@
        + document_or_null(Some(params)) + "}\n"@
}

/// Writes a request frame.
pub fn write_request(id: &str, method: &str, params: &str) -> (r: String)
    ensures
        r@ == request_line(id@, method@, params@),
{
    let mut out = "{\"id\":".to_string();
    let id = write_literal(id);
    out.append(id.as_str());
    out.append(",\"method\":");
    let method = write_literal(method);
    out.append(method.as_str());
    out.append(",\"params\":");
    let document = match write_compact(params) {
        Some(document) => document,
        None => "null".to_string(),
    };
    out.append(document.as_str());
    out.append("}\n");
    out
}

/// What an answer frame tells the remote process. An `error` member, of
/// whatever kind, is a failure and is handed on as the JSON value that it
/// is. A `result` member is a success: the string it holds, or `{}` where
/// it holds none. A frame with neither is handed on whole, trimmed.
pub open spec fn reply_of(line: Seq<char>) -> Result<Seq<char>, Seq<char>> {
    let text = trimmed(line);
    match member(text, "error"@) {
        Some(error) => Err(error),
        None => match member(text, "result"@) {
            Some(_) => Ok(or_default(string_member(text, "result"@), "{}"@)),
            None => Ok(text),
        },
    }
}

/// The outcome of reading an answer, over plain texts.
pub open spec fn reply_view(r: Result<String, String>) -> Result<Seq<char>, Seq<char>> {
    match r {
        Ok(v) => Ok(v@),
        Err(e) => Err(e@),
    }
}

/// Reads an answer frame.
pub fn read_reply(line: &str) -> (r: Result<String, String>)
    ensures
        reply_view(r) == reply_of(line@),
{
    let text = trim(line);
    match read_member(text, "error") {
        Some(error) => Err(error),
        None => match read_member(text, "result") {
            Some(_) => match read_string_member(text, "result") {
                Some(result) => Ok(result),
                None => Ok("{}".to_string()),
            },
            None => Ok(text.to_string()),
        },
    }
}

/// A request is answered once, with the payload of its acknowledgement:
/// an acknowledgement that comes while the request waits is matched with
/// the request's slot and takes the entry out, the answer then written
/// carries the request's identifier and the acknowledgement's payload,
/// and the same acknowledgement once more finds nothing.
pub proof fn lemma_acknowledged_in_time<T>(
    pending: Map<Seq<char>, T>,
    id: Seq<char>,
    slot: T,
    text: Seq<char>,
    payload: String,
)
    requires
        acknowledgement(text) == Some((id, payload@)),
    ensures
        ({
            let waiting = pending.insert(id, slot);
            let (delivery, after) = acknowledged(waiting, text);
            let (answer, settled) = concluded(after, id, Outcome::Filled(payload));
            &&& delivery == Some((slot, payload@))
            &&& !after.contains_key(id)
            &&& answer == ResponseView { id, reply: ReplyView::Result(payload@) }
            &&& settled == after
            &&& acknowledged(settled, text) == (None::<(T, Seq<char>)>, settled)
        }),
{
}

/// An acknowledgement that comes after the wait has run out has no
/// effect: the request was answered with the timeout, its entry is gone,
/// and the late acknowledgement finds nothing and changes nothing.
pub proof fn lemma_late_acknowledgement_is_dropped<T>(
    pending: Map<Seq<char>, T>,
    id: Seq<char>,
    slot: T,
    text: Seq<char>,
)
    requires
        acknowledgement(text) matches Some((to, _)) && to == id,
    ensures
        ({
            let waiting = pending.insert(id, slot);
            let (answer, after) = concluded(waiting, id, Outcome::TimedOut);
            &&& answer == ResponseView {
                id,
                reply: ReplyView::Error("Request timed out (30s)"@),
            }
            &&& !after.contains_key(id)
            &&& acknowledged(after, text) == (None::<(T, Seq<char>)>, after)
        }),
{
}

/// The entry of a request goes exactly once: whichever of acknowledgement
/// and end of wait comes first takes it out, and the other finds the
/// registry without it and leaves the registry as it is.
pub proof fn lemma_entry_removed_once<T>(
    pending: Map<Seq<char>, T>,
    id: Seq<char>,
    text: Seq<char>,
    outcome: Outcome,
)
    requires
        acknowledgement(text) matches Some((to, _)) && to == id,
        !(outcome is Filled),
    ensures
        acknowledged(concluded(pending, id, outcome).1, text).1 == concluded(pending, id, outcome).1,
        concluded(acknowledged(pending, text).1, id, outcome).1 == acknowledged(pending, text).1,
        !concluded(pending, id, outcome).1.contains_key(id),
        !acknowledged(pending, text).1.contains_key(id),
{
}

/// What happens to one request leaves every other alone: acknowledging or
/// closing the wait of `id` neither adds nor removes nor changes the entry
/// of another identifier.
pub proof fn lemma_other_requests_untouched<T>(
    pending: Map<Seq<char>, T>,
    id: Seq<char>,
    other: Seq<char>,
    text: Seq<char>,
    outcome: Outcome,
)
    requires
        other != id,
        acknowledgement(text) matches Some((to, _)) && to == id,
    ensures
        acknowledged(pending, text).1.contains_key(other) == pending.contains_key(other),
        concluded(pending, id, outcome).1.contains_key(other) == pending.contains_key(other),
        pending.contains_key(other) ==> acknowledged(pending, text).1[other] == pending[other]
            && concluded(pending, id, outcome).1[other] == pending[other],
{
}

/// Every frame is answered under an identifier that its sender can tell:
/// a request that can be read keeps its own identifier, whether it is
/// relayed or turned down, and any method but the two known ones is turned
/// down at once, with nothing left waiting.
pub proof fn lemma_answer_carries_identifier(request: RequestView)
    ensures
        dispatched(request) matches FrameOutcomeView::Forward { id, .. } ==> id == request.id && (
        request.method == METHOD_READ@ || request.method == METHOD_BATCH@),
        dispatched(request) matches FrameOutcomeView::Respond(answer) ==> answer.id == request.id
            && answer.reply is Error && request.method != METHOD_READ@ && request.method
            != METHOD_BATCH@,
{
}

/// One connection of a remote process. Its frames are taken one at a
/// time: while the answer to a relayed request is outstanding, no further
/// frame is taken up.
#[derive(Debug)]
pub struct Connection {
    /// The identifier of the relayed request whose answer is outstanding.
    pub waiting: Option<String>,
}

/// A connection over plain texts.
pub struct ConnectionView {
    pub waiting: Option<Seq<char>>,
}

impl View for Connection {
    type V = ConnectionView;

    open spec fn view(&self) -> ConnectionView {
        ConnectionView { waiting: opt_view(self.waiting) }
    }
}

/// What is to be done for a connection next.
#[derive(Debug)]
pub enum ConnectionAction {
    /// Write this frame to the stream; the next frame can then be read.
    Write(String),
    /// Enter a slot under `id` into the registry, relay the event to the
    /// live document, and wait for the slot to be filled, for no longer
    /// than the wait allowed.
    Relay { id: String, event: String, payload: String },
    /// Nothing: the connection is not ready for what has come.
    Ignore,
}

/// An action over plain texts.
pub enum ConnectionActionView {
    Write(Seq<char>),
    Relay { id: Seq<char>, event: Seq<char>, payload: Seq<char> },
    Ignore,
}

impl View for ConnectionAction {
    type V = ConnectionActionView;

    open spec fn view(&self) -> ConnectionActionView {
        match self {
            ConnectionAction::Write(line) => ConnectionActionView::Write(line@),
            ConnectionAction::Relay { id, event, payload } => ConnectionActionView::Relay {
                id: id@,
                event: event@,
                payload: payload@,
            },
            ConnectionAction::Ignore => ConnectionActionView::Ignore,
        }
    }
}

impl ConnectionView {
    /// A connection with nothing outstanding.
    pub open spec fn idle() -> ConnectionView {
        ConnectionView { waiting: None }
    }

    /// What a frame that has come in leads to. With an answer outstanding
    /// the frame is not taken up. Else it is answered at once, or relayed,
    /// and then its answer is outstanding.
    pub open spec fn received(self, line: Seq<char>) -> (ConnectionView, ConnectionActionView) {
        match self.waiting {
            Some(_) => (self, ConnectionActionView::Ignore),
            None => match frame_outcome(line) {
                FrameOutcomeView::Respond(answer) => (
                    ConnectionView::idle(),
                    ConnectionActionView::Write(answer.line()),
                ),
                FrameOutcomeView::Forward { id, event, payload } => (
                    ConnectionView { waiting: Some(id) },
                    ConnectionActionView::Relay { id, event, payload },
                ),
            },
        }
    }

    /// What the end of a wait leads to: the answer to the outstanding
    /// request is written, its entry is settled in the registry, and the
    /// connection has nothing outstanding. With nothing outstanding, the
    /// end of a wait means nothing.
    pub open spec fn settled<T>(self, pending: Map<Seq<char>, T>, outcome: Outcome) -> (
        ConnectionView,
        ConnectionActionView,
        Map<Seq<char>, T>,
    ) {
        match self.waiting {
            None => (self, ConnectionActionView::Ignore, pending),
            Some(id) => (
                ConnectionView::idle(),
                ConnectionActionView::Write(concluded(pending, id, outcome).0.line()),
                concluded(pending, id, outcome).1,
            ),
        }
    }
}

impl Connection {
    /// A connection that has just been accepted.
    pub fn new() -> (r: Connection)
        ensures
            r@ == ConnectionView::idle(),
    {
        Connection { waiting: None }
    }

    /// Takes up a frame that has come in.
    pub fn receive(&mut self, line: &str) -> (r: ConnectionAction)
        ensures
            final(self)@ == old(self)@.received(line@).0,
            r@ == old(self)@.received(line@).1,
    {
        if self.waiting.is_some() {
            return ConnectionAction::Ignore;
        }
        match handle_frame(line) {
            FrameOutcome::Respond(answer) => ConnectionAction::Write(answer.to_line()),
            FrameOutcome::Forward { id, event, payload } => {
                self.waiting = Some(id.clone());
                ConnectionAction::Relay { id, event, payload }
            },
        }
    }

    /// Closes the wait for the outstanding answer.
    pub fn settle<T>(&mut self, pending: &mut PendingMap<T>, outcome: Outcome) -> (r:
        ConnectionAction)
        ensures
            final(self)@ == old(self)@.settled(old(pending)@, outcome).0,
            r@ == old(self)@.settled(old(pending)@, outcome).1,
            final(pending)@ == old(self)@.settled(old(pending)@, outcome).2,
    {
        let id = match &self.waiting {
            None => {
                return ConnectionAction::Ignore;
            },
            Some(id) => id.clone(),
        };
        let answer = conclude(pending, id.as_str(), outcome);
        self.waiting = None;
        ConnectionAction::Write(answer.to_line())
    }
}

/// Each frame is answered exactly once, and in turn. A frame taken up by
/// a connection with nothing outstanding is either answered at once or
/// relayed; a relayed one is answered when its wait ends, under its own
/// identifier and with what the wait came to; a second end of wait writes
/// nothing; and until the answer is written, no further frame is taken up.
pub proof fn lemma_one_answer_per_frame<T>(
    line: Seq<char>,
    next: Seq<char>,
    pending: Map<Seq<char>, T>,
    outcome: Outcome,
    again: Outcome,
)
    ensures
        ({
            let (after, action) = ConnectionView::idle().received(line);
            let (done, answer, registry) = after.settled(pending, outcome);
            &&& !(action is Ignore)
            &&& action is Write ==> after == ConnectionView::idle()
            &&& action matches ConnectionActionView::Relay { id, .. } ==> {
                &&& after.received(next) == (after, ConnectionActionView::Ignore)
                &&& answer == ConnectionActionView::Write(
                    (ResponseView { id, reply: outcome.reply() }).line(),
                )
                &&& done == ConnectionView::idle()
                &&& done.settled(registry, again) == (done, ConnectionActionView::Ignore, registry)
            }
        }),
{
}

/// What can happen on a connection: a frame comes in, or a wait ends.
pub enum ConnectionEvent {
    Frame(Seq<char>),
    WaitEnded(Outcome),
}

impl ConnectionView {
    /// The connection, the action asked for and the registry after one
    /// event.
    pub open spec fn stepped<T>(self, pending: Map<Seq<char>, T>, event: ConnectionEvent) -> (
        ConnectionView,
        ConnectionActionView,
        Map<Seq<char>, T>,
    ) {
        match event {
            ConnectionEvent::Frame(line) => (self.received(line).0, self.received(line).1, pending),
            ConnectionEvent::WaitEnded(outcome) => self.settled(pending, outcome),
        }
    }

    /// The connection and the registry after a run of events. The entries
    /// that relayed requests are to have in the registry are left to
    /// whoever drives the connection, so the registry changes only where a
    /// wait ends.
    pub open spec fn after_all<T>(self, pending: Map<Seq<char>, T>, events: Seq<ConnectionEvent>) -> (
        ConnectionView,
        Map<Seq<char>, T>,
    )
        decreases events.len(),
    {
        if events.len() == 0 {
            (self, pending)
        } else {
            let (before, registry) = self.after_all(pending, events.drop_last());
            let step = before.stepped(registry, events.last());
            (step.0, step.2)
        }
    }

    /// How many frames of a run are taken up.
    pub open spec fn frames_taken<T>(self, pending: Map<Seq<char>, T>, events: Seq<ConnectionEvent>) -> nat
        decreases events.len(),
    {
        if events.len() == 0 {
            0
        } else {
            let (before, registry) = self.after_all(pending, events.drop_last());
            let taken: nat = if events.last() is Frame && !(before.stepped(
                registry,
                events.last(),
            ).1 is Ignore) {
                1
            } else {
                0
            };
            self.frames_taken(pending, events.drop_last()) + taken
        }
    }

    /// How many answers a run writes.
    pub open spec fn answers_written<T>(
        self,
        pending: Map<Seq<char>, T>,
        events: Seq<ConnectionEvent>,
    ) -> nat
        decreases events.len(),
    {
        if events.len() == 0 {
            0
        } else {
            let (before, registry) = self.after_all(pending, events.drop_last());
            let written: nat = if before.stepped(registry, events.last()).1 is Write {
                1
            } else {
                0
            };
            self.answers_written(pending, events.drop_last()) + written
        }
    }
}

/// Whatever happens on a connection, and in whatever order, every frame
/// taken up is answered once and no answer is written for anything else:
/// at any time the answers written are as many as the frames taken up,
/// less the one whose answer is outstanding.
pub proof fn lemma_answers_match_frames<T>(pending: Map<Seq<char>, T>, events: Seq<ConnectionEvent>)
    ensures
        ConnectionView::idle().frames_taken(pending, events) == ConnectionView::idle().answers_written(
            pending,
            events,
        ) + (if ConnectionView::idle().after_all(pending, events).0.waiting is Some {
            1nat
        } else {
            0nat
        }),
    decreases events.len(),
{
    if events.len() > 0 {
        lemma_answers_match_frames(pending, events.drop_last());
    }
}

} // verus!
