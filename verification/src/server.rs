//! The transports: what a line of the standard input, a request over HTTP
//! and a message for a stream of server-sent events each lead to.
//!
//! The functions here decide; they neither read nor write. A caller reads
//! the line or the request, asks what is due, and writes the line, sends
//! the response or pushes the event that it is told to.

use vstd::prelude::*;
use vstd::string::*;
use crate::cli::opt_text;
use crate::config::{Settings, SettingsView};
use crate::json::{json_parse, json_text, Json, JsonView};
use crate::mcp::{
    answer_view,
    dispatch,
    format_json_rpc_response,
    opt_json,
    process_mcp_request,
    response,
    JsonRpcRequest,
    JsonRpcRequestView,
    McpStep,
    McpStepView,
    ToolPlan,
    ToolPlanView,
};

verus! {

/// The status of a response that carries an answer.
pub const OK: u16 = 200;

/// The status of the response to a message for a stream.
pub const ACCEPTED: u16 = 202;

/// The status of the response to a notification.
pub const NO_CONTENT: u16 = 204;

/// The status of the response to a caller without the token.
pub const UNAUTHORIZED: u16 = 401;

/// The text of the JSON-RPC response to a request with an id, and `None`
/// for a notification, which is never answered.
pub open spec fn reply_text(id: Option<JsonView>, result: Result<JsonView, JsonView>) -> Option<
    Seq<char>,
> {
    match id {
        Some(id) => Some(json_text(response(id, result))),
        None => None,
    }
}

/// The text of the JSON-RPC response that is due, if one is due.
pub fn reply(id: Option<Json>, result: Result<Json, Json>) -> (r: Option<String>)
    ensures
        opt_text(r) == reply_text(opt_json(id), answer_view(result)),
{
    match id {
        Some(id) => {
            let output = format_json_rpc_response(id, result);
            Some(output.render())
        },
        None => None,
    }
}

/// What a line of the standard input leads to.
#[derive(Debug)]
pub enum LineStep {
    /// Nothing but a warning: the line holds no request.
    Malformed,
    /// Nothing: the request was a notification, which is never answered.
    Silent,
    /// This line is written to the standard output, which is then flushed.
    Write(String),
    /// A tool has to run; `reply` makes the line of its answer.
    Run { id: Option<Json>, name: String, plan: ToolPlan },
}

/// What a `LineStep` stands for in contracts: its texts are sequences of
/// characters, its JSON documents their values.
pub enum LineStepView {
    Malformed,
    Silent,
    Write(Seq<char>),
    Run { id: Option<JsonView>, name: Seq<char>, plan: ToolPlanView },
}

impl View for LineStep {
    type V = LineStepView;

    open spec fn view(&self) -> LineStepView {
        match *self {
            LineStep::Malformed => LineStepView::Malformed,
            LineStep::Silent => LineStepView::Silent,
            LineStep::Write(line) => LineStepView::Write(line@),
            LineStep::Run { id, name, plan } => LineStepView::Run {
                id: opt_json(id),
                name: name@,
                plan: plan@,
            },
        }
    }
}

/// The request that a text holds, if it holds one.
pub open spec fn request_in(parsed: Option<JsonView>) -> Option<JsonRpcRequestView> {
    match parsed {
        Some(value) => JsonRpcRequestView::decode(value),
        None => None,
    }
}

/// What a request that arrived on the standard input leads to: the line of
/// its answer, nothing for a notification, or a tool to run.
pub open spec fn line_step_of(step: McpStepView) -> LineStepView {
    match step {
        McpStepView::Reply { id, result } => match reply_text(id, result) {
            Some(line) => LineStepView::Write(line),
            None => LineStepView::Silent,
        },
        McpStepView::Run { id, name, plan } => LineStepView::Run { id, name, plan },
    }
}

/// What a line leads to, given the JSON document that it holds. A line
/// that holds no request is malformed: it is skipped.
pub open spec fn line_step(parsed: Option<JsonView>, settings: SettingsView) -> LineStepView {
    match request_in(parsed) {
        Some(request) => line_step_of(dispatch(request, settings)),
        None => LineStepView::Malformed,
    }
}

/// Says what a request that arrived on the standard input leads to.
pub fn handle_request(request: JsonRpcRequest, settings: &Settings) -> (r: LineStep)
    ensures
        r@ == line_step_of(dispatch(request@, settings@)),
{
    match process_mcp_request(request, settings) {
        McpStep::Reply { id, result } => match reply(id, result) {
            Some(line) => LineStep::Write(line),
            None => LineStep::Silent,
        },
        McpStep::Run { id, name, plan } => LineStep::Run { id, name, plan },
    }
}

/// Says what the JSON document of a line leads to.
pub fn handle_document(parsed: Option<Json>, settings: &Settings) -> (r: LineStep)
    ensures
        r@ == line_step(opt_json(parsed), settings@),
{
    let request = match parsed {
        Some(value) => JsonRpcRequest::from_json(&value),
        None => None,
    };
    match request {
        Some(request) => handle_request(request, settings),
        None => LineStep::Malformed,
    }
}

/// Says what a line of the standard input leads to.
pub fn handle_line(line: &str, settings: &Settings) -> (r: LineStep)
    ensures
        r@ == line_step(json_parse(line@), settings@),
{
    handle_document(Json::parse(line), settings)
}

/// Whether a caller may use the request endpoint: always where no token is
/// set, and else only with the header `Authorization: Bearer <token>`.
pub open spec fn authorized(auth_token: Option<Seq<char>>, authorization: Option<Seq<char>>) -> bool {
    match auth_token {
        Some(token) => match authorization {
            Some(header) => header == "Bearer "@ + token,
            None => false,
        },
        None => true,
    }
}

/// Whether a caller may use the request endpoint.
pub fn is_authorized(auth_token: &Option<String>, authorization: Option<&str>) -> (r: bool)
    ensures
        r == authorized(
            opt_text(*auth_token),
            match authorization {
                Some(header) => Some(header@),
                None => None,
            },
        ),
{
    match auth_token {
        Some(token) => match authorization {
            Some(header) => {
                let mut expected = String::from_str("Bearer ");
                expected.append(token.as_str());
                header.eq(expected.as_str())
            },
            None => false,
        },
        None => true,
    }
}

/// A response over HTTP: its status, and its body if it has one.
#[derive(Debug)]
pub struct HttpReply {
    pub status: u16,
    pub body: Option<String>,
}

/// What a `HttpReply` stands for in contracts: its texts are sequences of
/// characters, its JSON documents their values.
pub struct HttpReplyView {
    pub status: u16,
    pub body: Option<Seq<char>>,
}

impl View for HttpReply {
    type V = HttpReplyView;

    open spec fn view(&self) -> HttpReplyView {
        HttpReplyView { status: self.status, body: opt_text(self.body) }
    }
}

/// The response to a request over HTTP: the JSON-RPC response with status
/// 200, or status 204 without a body for a notification.
pub open spec fn http_reply_of(id: Option<JsonView>, result: Result<JsonView, JsonView>) -> HttpReplyView {
    match reply_text(id, result) {
        Some(body) => HttpReplyView { status: OK, body: Some(body) },
        None => HttpReplyView { status: NO_CONTENT, body: None },
    }
}

/// Builds the response to a request over HTTP.
pub fn http_reply(id: Option<Json>, result: Result<Json, Json>) -> (r: HttpReply)
    ensures
        r@ == http_reply_of(opt_json(id), answer_view(result)),
{
    match reply(id, result) {
        Some(body) => HttpReply { status: OK, body: Some(body) },
        None => HttpReply { status: NO_CONTENT, body: None },
    }
}

/// What a request over HTTP leads to.
#[derive(Debug)]
pub enum HttpStep {
    /// This response is sent.
    Respond(HttpReply),
    /// A tool has to run; `http_reply` makes the response of its answer.
    Run { id: Option<Json>, name: String, plan: ToolPlan },
}

/// What a `HttpStep` stands for in contracts: its texts are sequences of
/// characters, its JSON documents their values.
pub enum HttpStepView {
    Respond(HttpReplyView),
    Run { id: Option<JsonView>, name: Seq<char>, plan: ToolPlanView },
}

impl View for HttpStep {
    type V = HttpStepView;

    open spec fn view(&self) -> HttpStepView {
        match *self {
            HttpStep::Respond(r) => HttpStepView::Respond(r@),
            HttpStep::Run { id, name, plan } => HttpStepView::Run {
                id: opt_json(id),
                name: name@,
                plan: plan@,
            },
        }
    }
}

/// What a request to the request endpoint leads to. A caller without the
/// token gets status 401, and the request is not looked at.
pub open spec fn http_step(
    auth_token: Option<Seq<char>>,
    authorization: Option<Seq<char>>,
    request: JsonRpcRequestView,
    settings: SettingsView,
) -> HttpStepView {
    if !authorized(auth_token, authorization) {
        HttpStepView::Respond(HttpReplyView { status: UNAUTHORIZED, body: Some("Unauthorized"@) })
    } else {
        match dispatch(request, settings) {
            McpStepView::Reply { id, result } => HttpStepView::Respond(http_reply_of(id, result)),
            McpStepView::Run { id, name, plan } => HttpStepView::Run { id, name, plan },
        }
    }
}

/// Says what a request to the request endpoint leads to.
pub fn http_handler(
    auth_token: &Option<String>,
    authorization: Option<&str>,
    request: JsonRpcRequest,
    settings: &Settings,
) -> (r: HttpStep)
    ensures
        r@ == http_step(
            opt_text(*auth_token),
            match authorization {
                Some(header) => Some(header@),
                None => None,
            },
            request@,
            settings@,
        ),
{
    if !is_authorized(auth_token, authorization) {
        return HttpStep::Respond(
            HttpReply { status: UNAUTHORIZED, body: Some(String::from_str("Unauthorized")) },
        );
    }
    match process_mcp_request(request, settings) {
        McpStep::Reply { id, result } => HttpStep::Respond(http_reply(id, result)),
        McpStep::Run { id, name, plan } => HttpStep::Run { id, name, plan },
    }
}

/// One server-sent event.
#[derive(Debug)]
pub struct SseEvent {
    pub event: String,
    pub data: String,
}

/// What a `SseEvent` stands for in contracts: its texts are sequences of
/// characters, its JSON documents their values.
pub struct SseEventView {
    pub event: Seq<char>,
    pub data: Seq<char>,
}

impl View for SseEvent {
    type V = SseEventView;

    open spec fn view(&self) -> SseEventView {
        SseEventView { event: self.event@, data: self.data@ }
    }
}

/// The first event of a stream: the path to which the client posts its
/// messages, with the id of the session in it.
pub open spec fn endpoint_event(session_id: Seq<char>) -> SseEventView {
    SseEventView { event: "endpoint"@, data: "/message?session_id="@ + session_id }
}

/// The event that carries a JSON-RPC response.
pub open spec fn message_event(text: Seq<char>) -> SseEventView {
    SseEventView { event: "message"@, data: text }
}

/// The query of a message for a stream.
#[derive(Debug)]
pub struct MessageParams {
    pub session_id: String,
}

/// One open stream: its id, and the sending end of its queue of events.
#[derive(Debug)]
pub struct Session<T> {
    pub id: String,
    pub sender: T,
}

/// The open streams by their ids. A later session replaces an earlier one
/// of the same id.
#[derive(Debug)]
pub struct SessionTable<T> {
    pub sessions: Vec<Session<T>>,
}

/// The map that a list of sessions stands for.
pub open spec fn sessions_view<T>(sessions: Seq<Session<T>>) -> Map<Seq<char>, T>
    decreases sessions.len(),
{
    if sessions.len() == 0 {
        Map::empty()
    } else {
        sessions_view(sessions.drop_last()).insert(sessions.last().id@, sessions.last().sender)
    }
}

/// The sessions of a list whose id is not the given one, in their order.
pub open spec fn without<T>(sessions: Seq<Session<T>>, id: Seq<char>) -> Seq<Session<T>>
    decreases sessions.len(),
{
    if sessions.len() == 0 {
        Seq::empty()
    } else if sessions.last().id@ == id {
        without(sessions.drop_last(), id)
    } else {
        without(sessions.drop_last(), id).push(sessions.last())
    }
}

impl<T> View for SessionTable<T> {
    type V = Map<Seq<char>, T>;

    open spec fn view(&self) -> Map<Seq<char>, T> {
        sessions_view(self.sessions@)
    }
}

/// An id that no session has is not in the map.
pub proof fn lemma_session_absent<T>(sessions: Seq<Session<T>>, id: Seq<char>)
    requires
        forall|j: int| 0 <= j < sessions.len() ==> sessions[j].id@ != id,
    ensures
        !sessions_view(sessions).contains_key(id),
    decreases sessions.len(),
{
    if sessions.len() > 0 {
        let rest = sessions.drop_last();
        assert forall|j: int| 0 <= j < rest.len() implies rest[j].id@ != id by {
            assert(rest[j] == sessions[j]);
        }
        lemma_session_absent(rest, id);
    }
}

/// The last session that has an id is the one that the map holds for it.
pub proof fn lemma_session_found<T>(sessions: Seq<Session<T>>, id: Seq<char>, i: int)
    requires
        0 <= i < sessions.len(),
        sessions[i].id@ == id,
        forall|j: int| i < j < sessions.len() ==> sessions[j].id@ != id,
    ensures
        sessions_view(sessions).contains_key(id),
        sessions_view(sessions)[id] == sessions[i].sender,
    decreases sessions.len(),
{
    let rest = sessions.drop_last();
    if i < sessions.len() - 1 {
        assert(rest[i] == sessions[i]);
        assert forall|j: int| i < j < rest.len() implies rest[j].id@ != id by {
            assert(rest[j] == sessions[j]);
        }
        lemma_session_found(rest, id, i);
    }
}

/// Leaving out the sessions of an id takes the id out of the map and
/// nothing else.
pub proof fn lemma_without<T>(sessions: Seq<Session<T>>, id: Seq<char>)
    ensures
        sessions_view(without(sessions, id)) == sessions_view(sessions).remove(id),
    decreases sessions.len(),
{
    if sessions.len() > 0 {
        let rest = sessions.drop_last();
        lemma_without(rest, id);
        let last = sessions.last();
        if last.id@ == id {
            assert(sessions_view(sessions).remove(id) =~= sessions_view(rest).remove(id));
        } else {
            assert(without(sessions, id).drop_last() == without(rest, id));
            assert(sessions_view(without(sessions, id)) =~= sessions_view(sessions).remove(id));
        }
    } else {
        assert(sessions_view(sessions).remove(id) =~= sessions_view(without(sessions, id)));
    }
}

impl<T> SessionTable<T> {
    /// The table without sessions.
    pub fn new() -> (r: SessionTable<T>)
        ensures
            r@ == Map::<Seq<char>, T>::empty(),
            r.sessions@.len() == 0,
    {
        SessionTable { sessions: Vec::new() }
    }

    /// How many sessions have been put in and not taken out.
    pub fn len(&self) -> (r: usize)
        ensures
            r == self.sessions@.len(),
    {
        self.sessions.len()
    }

    /// Puts a session in, in place of one of the same id.
    pub fn insert(&mut self, id: String, sender: T)
        ensures
            final(self)@ == old(self)@.insert(id@, sender),
            final(self).sessions@ == old(self).sessions@.push(Session { id, sender }),
    {
        let session = Session { id, sender };
        assert(self.sessions@.push(session).drop_last() == self.sessions@);
        self.sessions.push(session);
    }

    /// The sending end of the session of the given id.
    pub fn get(&self, id: &str) -> (r: Option<&T>)
        ensures
            match r {
                Some(sender) => self@.contains_key(id@) && self@[id@] == *sender,
                None => !self@.contains_key(id@),
            },
    {
        let mut i: usize = self.sessions.len();
        while i > 0
            invariant
                i <= self.sessions.len(),
                forall|j: int| i <= j < self.sessions.len() ==> self.sessions@[j].id@ != id@,
            decreases i,
        {
            i = i - 1;
            if self.sessions[i].id.as_str().eq(id) {
                proof {
                    lemma_session_found(self.sessions@, id@, i as int);
                }
                return Some(&self.sessions[i].sender);
            }
        }
        proof {
            lemma_session_absent(self.sessions@, id@);
        }
        None
    }

    /// Takes the session of the given id out.
    pub fn remove(&mut self, id: &str)
        ensures
            final(self)@ == old(self)@.remove(id@),
            final(self).sessions@ == without(old(self).sessions@, id@),
    {
        let ghost start = self.sessions@;
        let mut kept: Vec<Session<T>> = Vec::new();
        assert(start + kept@.reverse() == start);
        assert(without(start, id@) == without(self.sessions@, id@) + kept@.reverse());
        // `kept` holds, reversed, the sessions of other ids
        while self.sessions.len() > 0
            invariant
                without(start, id@) == without(self.sessions@, id@) + kept@.reverse(),
            decreases self.sessions.len(),
        {
            let ghost before = self.sessions@;
            let ghost kept_before = kept@;
            let session = self.sessions.pop().unwrap();
            assert(before.drop_last() == self.sessions@);
            assert(before.last() == session);
            if !session.id.as_str().eq(id) {
                kept.push(session);
                assert(kept@.reverse() == seq![session] + kept_before.reverse());
                assert(without(before, id@) == without(self.sessions@, id@).push(session));
                assert(without(self.sessions@, id@).push(session) + kept_before.reverse()
                    == without(self.sessions@, id@) + kept@.reverse());
            }
        }
        assert(without(self.sessions@, id@) == Seq::<Session<T>>::empty());
        assert(Seq::<Session<T>>::empty() + kept@.reverse() == kept@.reverse());
        assert(self.sessions@ + kept@.reverse() == without(start, id@));
        while kept.len() > 0
            invariant
                self.sessions@ + kept@.reverse() == without(start, id@),
            decreases kept.len(),
        {
            let ghost sessions_before = self.sessions@;
            let ghost kept_before = kept@;
            let session = kept.pop().unwrap();
            self.sessions.push(session);
            assert(kept_before.reverse() == seq![session] + kept@.reverse());
            assert(self.sessions@ + kept@.reverse() == sessions_before + kept_before.reverse());
        }
        assert(kept@.reverse() == Seq::<Session<T>>::empty());
        assert(self.sessions@ + Seq::<Session<T>>::empty() == self.sessions@);
        proof {
            lemma_without(start, id@);
        }
    }
}

/// `uuid::Uuid::new_v4` and its `to_string`: a fresh random id, as text.
/// Nothing is claimed of it: it differs from call to call.
#[verifier::external_body]
fn new_session_id() -> (r: String) {
    uuid::Uuid::new_v4().to_string()
}

/// Registers the stream of a client under the given id and builds the first
/// event of the stream, which tells the client where to post its messages.
pub fn open_session<T>(table: &mut SessionTable<T>, session_id: String, sender: T) -> (r: SseEvent)
    ensures
        final(table)@ == old(table)@.insert(session_id@, sender),
        final(table).sessions@.len() == old(table).sessions@.len() + 1,
        r@ == endpoint_event(session_id@),
{
    let mut data = String::from_str("/message?session_id=");
    data.append(session_id.as_str());
    table.insert(session_id, sender);
    SseEvent { event: String::from_str("endpoint"), data }
}

/// Opens a stream: registers it under a fresh random id and builds its
/// first event. The id is the first part of the result.
pub fn sse_handler<T>(table: &mut SessionTable<T>, sender: T) -> (r: (String, SseEvent))
    ensures
        final(table)@ == old(table)@.insert(r.0@, sender),
        final(table).sessions@.len() == old(table).sessions@.len() + 1,
        r.1@ == endpoint_event(r.0@),
{
    let session_id = new_session_id();
    let id = session_id.clone();
    let event = open_session(table, session_id, sender);
    (id, event)
}

/// Closes a stream: its session leaves the table.
pub fn close_session<T>(table: &mut SessionTable<T>, session_id: &str)
    ensures
        final(table)@ == old(table)@.remove(session_id@),
{
    table.remove(session_id);
}

/// Where the answer to a message goes: to the stream of the session, as a
/// `message` event, where an answer is due and the session is open. An
/// answer for a session that is not open is dropped.
pub open spec fn delivery<T>(
    table: Map<Seq<char>, T>,
    session_id: Seq<char>,
    id: Option<JsonView>,
    result: Result<JsonView, JsonView>,
) -> Option<(T, SseEventView)> {
    match reply_text(id, result) {
        Some(text) => if table.contains_key(session_id) {
            Some((table[session_id], message_event(text)))
        } else {
            None
        },
        None => None,
    }
}

/// Says where the answer to a message goes.
pub fn deliver<'a, T>(
    table: &'a SessionTable<T>,
    session_id: &str,
    id: Option<Json>,
    result: Result<Json, Json>,
) -> (r: Option<(&'a T, SseEvent)>)
    ensures
        match r {
            Some((sender, event)) => delivery(
                table@,
                session_id@,
                opt_json(id),
                answer_view(result),
            ) == Some((*sender, event@)),
            None => delivery(table@, session_id@, opt_json(id), answer_view(result)) is None,
        },
{
    let text = match reply(id, result) {
        Some(text) => text,
        None => {
            return None;
        },
    };
    match table.get(session_id) {
        Some(sender) => Some((sender, SseEvent { event: String::from_str("message"), data: text })),
        None => None,
    }
}

/// What a message for a stream leads to.
#[derive(Debug)]
pub enum MessageStep<'a, T> {
    /// The event, if there is one, is pushed to the sender.
    Deliver(Option<(&'a T, SseEvent)>),
    /// A tool has to run; `deliver` says where its answer goes.
    Run { id: Option<Json>, name: String, plan: ToolPlan },
}

/// Says what a message for the stream of a session leads to, and the
/// status of the response to the message itself, which is 202 whatever the
/// message leads to: the response does not wait for a tool, and does not
/// tell whether the session is open.
pub fn message_handler<'a, T>(
    table: &'a SessionTable<T>,
    params: &MessageParams,
    request: JsonRpcRequest,
    settings: &Settings,
) -> (r: (u16, MessageStep<'a, T>))
    ensures
        r.0 == ACCEPTED,
        match dispatch(request@, settings@) {
            McpStepView::Reply { id, result } => r.1 is Deliver && match r.1->Deliver_0 {
                Some((sender, event)) => delivery(table@, params.session_id@, id, result) == Some(
                    (*sender, event@),
                ),
                None => delivery(table@, params.session_id@, id, result) is None,
            },
            McpStepView::Run { id, name, plan } => r.1 is Run && opt_json(r.1->Run_id) == id
                && r.1->Run_name@ == name && r.1->Run_plan@ == plan,
        },
{
    let step = match process_mcp_request(request, settings) {
        McpStep::Reply { id, result } => MessageStep::Deliver(
            deliver(table, params.session_id.as_str(), id, result),
        ),
        McpStep::Run { id, name, plan } => MessageStep::Run { id, name, plan },
    };
    (ACCEPTED, step)
}

} // verus!
