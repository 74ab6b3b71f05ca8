//! Conversations with managers over HTTP: what is to be done next, and what
//! came of it.
use vstd::prelude::*;

use crate::json::{takes_members, with_member, Json, JsonView};
use crate::manager::{base_url, manager_url, ManagerEntry, ManagerView};
use crate::reply::{answer_view, ApiError, ApiErrorView};

verus! {

#[derive(Debug, Clone, Copy, PartialEq, Eq, Structural)]
pub enum Method {
    Get,
    Post,
    Delete,
}

/// A request to a manager.
#[derive(Debug, PartialEq, Eq)]
pub struct HttpCall {
    pub method: Method,
    pub url: String,
    /// The JSON document to send, if any.
    pub body: Option<Json>,
    pub timeout_secs: u64,
}

/// What is to be done next.
#[derive(Debug, PartialEq, Eq)]
pub enum Action {
    /// Send this request.
    Send(HttpCall),
    /// Read the body of the response as JSON.
    ReadJson,
    /// Read the body of the response as text.
    ReadText,
    /// Nothing is left to do: answer the caller.
    Respond(Result<Json, ApiError>),
}

/// What came of it.
#[derive(Debug, PartialEq, Eq)]
pub enum Event {
    /// The request got no response, for this reason.
    Unreachable(String),
    /// A response came, with this status.
    Status(u16),
    /// The body, or the reason why it is no JSON document.
    Body(Result<Json, String>),
    /// The body as text, unless it could not be read.
    Text(Option<String>),
}

/// What a conversation waits for.
#[derive(Debug, Clone, Copy, PartialEq, Eq, Structural)]
pub enum Phase {
    /// A response to the request that was sent.
    Asking,
    /// The body as JSON.
    ReadingJson,
    /// The body as text, of a response with this status.
    ReadingText(u16),
    /// Nothing.
    Answered,
}

pub struct HttpCallView {
    pub method: Method,
    pub url: Seq<char>,
    pub body: Option<JsonView>,
    pub timeout_secs: u64,
}

pub enum ActionView {
    Send(HttpCallView),
    ReadJson,
    ReadText,
    Respond(Result<JsonView, ApiErrorView>),
}

pub enum EventView {
    Unreachable(Seq<char>),
    Status(u16),
    Body(Result<JsonView, Seq<char>>),
    Text(Option<Seq<char>>),
}

impl View for HttpCall {
    type V = HttpCallView;

    open spec fn view(&self) -> HttpCallView {
        HttpCallView {
            method: self.method,
            url: self.url@,
            body: match self.body {
                Some(doc) => Some(doc@),
                None => None,
            },
            timeout_secs: self.timeout_secs,
        }
    }
}

impl View for Action {
    type V = ActionView;

    open spec fn view(&self) -> ActionView {
        match self {
            Action::Send(call) => ActionView::Send(call@),
            Action::ReadJson => ActionView::ReadJson,
            Action::ReadText => ActionView::ReadText,
            Action::Respond(answer) => ActionView::Respond(answer_view(*answer)),
        }
    }
}

impl View for Event {
    type V = EventView;

    open spec fn view(&self) -> EventView {
        match self {
            Event::Unreachable(e) => EventView::Unreachable(e@),
            Event::Status(status) => EventView::Status(*status),
            Event::Body(Ok(doc)) => EventView::Body(Ok(doc@)),
            Event::Body(Err(e)) => EventView::Body(Err(e@)),
            Event::Text(Some(s)) => EventView::Text(Some(s@)),
            Event::Text(None) => EventView::Text(None),
        }
    }
}

/// Whether a status reports success.
pub open spec fn is_success(status: u16) -> bool {
    200 <= status < 300
}

/// Whether the event is of the kind that the conversation waits for.
pub open spec fn fits_phase(phase: Phase, event: EventView) -> bool {
    match phase {
        Phase::Asking => event is Unreachable || event is Status,
        Phase::ReadingJson => event is Body,
        Phase::ReadingText(_) => event is Text,
        Phase::Answered => false,
    }
}

/// Whether the event is of the kind that the conversation waits for.
pub fn event_fits(phase: Phase, event: &Event) -> (r: bool)
    ensures
        r == fits_phase(phase, event@),
{
    match (phase, event) {
        (Phase::Asking, Event::Unreachable(_)) => true,
        (Phase::Asking, Event::Status(_)) => true,
        (Phase::ReadingJson, Event::Body(_)) => true,
        (Phase::ReadingText(_), Event::Text(_)) => true,
        (_, _) => false,
    }
}

/// Whether a status reports success.
pub fn success(status: u16) -> (r: bool)
    ensures
        r == is_success(status),
{
    200 <= status && status < 300
}

/// Where a manager lists its instances.
pub open spec fn instances_url_of(manager: ManagerView) -> Seq<char> {
    base_url(manager.ip, manager.manager_port) + "/instances"@
}

/// Where a manager keeps one instance.
pub open spec fn instance_url_of(manager: ManagerView, db_id: Seq<char>) -> Seq<char> {
    base_url(manager.ip, manager.manager_port) + "/instances/"@ + db_id
}

/// Where a manager takes orders for new instances.
pub open spec fn provision_url_of(manager: ManagerView) -> Seq<char> {
    base_url(manager.ip, manager.manager_port) + "/provision"@
}

/// A document with the routing metadata of a manager: on which server the
/// instance lives, in which region and at which address.
pub open spec fn annotated(doc: JsonView, manager: ManagerView) -> JsonView {
    with_member(
        with_member(
            with_member(doc, "server_id"@, JsonView::Str(manager.server_id)),
            "region"@,
            JsonView::Str(manager.region),
        ),
        "host"@,
        JsonView::Str(manager.ip),
    )
}

pub fn instances_url(manager: &ManagerEntry) -> (r: String)
    ensures
        r@ == instances_url_of(manager@),
{
    let mut url = manager_url(manager.ip.as_str(), manager.manager_port);
    url.append("/instances");
    url
}

pub fn instance_url(manager: &ManagerEntry, db_id: &str) -> (r: String)
    ensures
        r@ == instance_url_of(manager@, db_id@),
{
    let mut url = manager_url(manager.ip.as_str(), manager.manager_port);
    url.append("/instances/");
    url.append(db_id);
    url
}

pub fn provision_url(manager: &ManagerEntry) -> (r: String)
    ensures
        r@ == provision_url_of(manager@),
{
    let mut url = manager_url(manager.ip.as_str(), manager.manager_port);
    url.append("/provision");
    url
}

/// Adds the routing metadata of a manager to a document.
pub fn annotate(doc: &mut Json, manager: &ManagerEntry)
    requires
        takes_members(old(doc)@),
    ensures
        final(doc)@ == annotated(old(doc)@, manager@),
{
    doc.set("server_id", Json::text(manager.server_id.as_str()));
    doc.set("region", Json::text(manager.region.as_str()));
    doc.set("host", Json::text(manager.ip.as_str()));
}

/// What a manager would answer to a request.
pub enum ManagerAnswer {
    /// No response comes, for this reason.
    Unreachable(Seq<char>),
    /// A response comes, with this status and a body that reads like this as
    /// JSON and like this as text.
    Replied(u16, Result<JsonView, Seq<char>>, Option<Seq<char>>),
}

/// What comes to a conversation from a manager.
pub open spec fn event_from(phase: Phase, answer: ManagerAnswer) -> EventView {
    match answer {
        ManagerAnswer::Unreachable(e) => EventView::Unreachable(e),
        ManagerAnswer::Replied(status, json, text) => match phase {
            Phase::ReadingJson => EventView::Body(json),
            Phase::ReadingText(_) => EventView::Text(text),
            _ => EventView::Status(status),
        },
    }
}

/// The manager answers with a status that reports success.
pub open spec fn succeeds(answer: ManagerAnswer) -> bool {
    answer matches ManagerAnswer::Replied(status, _, _) && is_success(status)
}

/// The requests among the actions of a conversation, in order.
pub open spec fn calls(actions: Seq<ActionView>) -> Seq<HttpCallView>
    decreases actions.len(),
{
    if actions.len() == 0 {
        Seq::empty()
    } else {
        let first = match actions[0] {
            ActionView::Send(call) => seq![call],
            _ => Seq::empty(),
        };
        first + calls(actions.skip(1))
    }
}

} // verus!
