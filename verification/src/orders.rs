//! Ordering a new database instance from a manager.
use vstd::prelude::*;

use crate::http::{
    annotate, annotated, calls, event_fits, event_from, fits_phase, is_success, provision_url,
    provision_url_of, success, Action, ActionView, Event, EventView, HttpCall, HttpCallView,
    ManagerAnswer, Method, Phase,
};
use crate::json::{takes_members, Json, JsonView};
use crate::lookup::body_takes_members;
use crate::manager::{is_online, ManagerEntry, ManagerView};
use crate::outside::{fresh_uuid, is_uuid_v4};
use crate::registry::MasterState;
use crate::reply::{api_err, not_found, refusal, refuse, ApiError, ApiErrorView};
use crate::text::text_of;

verus! {

/// A request for a new instance.
#[derive(Debug, PartialEq, Eq)]
pub struct ProvisionDbRequest {
    /// Which managed server to provision on.
    pub server_id: String,
    /// Optional name of the database (auto-generated if omitted).
    pub db_name: Option<String>,
}

/// The manager that an order for a server goes to, or why there is none: the
/// server must be registered and its manager online.
pub open spec fn orderable(
    managers: Map<Seq<char>, ManagerView>,
    server_id: Seq<char>,
) -> Result<ManagerView, ApiErrorView> {
    if !managers.contains_key(server_id) {
        Err(refusal(404, "No manager for server_id '"@ + server_id + "'"@))
    } else if !is_online(managers[server_id]) {
        Err(
            refusal(
                400,
                "Manager '"@ + server_id + "' is not online (status: "@
                    + managers[server_id].status + ")"@,
            ),
        )
    } else {
        Ok(managers[server_id])
    }
}

/// The name that a UUID gives to a database.
pub open spec fn generated_name(uuid: Seq<char>) -> Seq<char> {
    "db_"@ + uuid.take(8)
}

/// A name that a database can get: the one that was asked for, or else one
/// that a random UUID gives.
pub open spec fn can_be_named(asked: Option<Seq<char>>, name: Seq<char>) -> bool {
    match asked {
        Some(s) => name == s,
        None => exists|uuid: Seq<char>| #[trigger]
            is_uuid_v4(uuid) && name == generated_name(uuid),
    }
}

/// The request for a new instance of that name.
pub open spec fn order_call(manager: ManagerView, db_name: Seq<char>) -> HttpCallView {
    HttpCallView {
        method: Method::Post,
        url: provision_url_of(manager),
        body: Some(JsonView::Object(map!["db_name"@ => JsonView::Str(db_name)])),
        timeout_secs: 30,
    }
}

/// Where an order stands.
pub struct OrderView {
    pub manager: ManagerView,
    pub phase: Phase,
}

/// An order that has just been placed.
pub open spec fn order_start(manager: ManagerView, db_name: Seq<char>) -> (OrderView, ActionView) {
    (
        OrderView { manager, phase: Phase::Asking },
        ActionView::Send(order_call(manager, db_name)),
    )
}

/// The text of a body, empty where it could not be read.
pub open spec fn text_or_empty(text: Option<Seq<char>>) -> Seq<char> {
    match text {
        Some(s) => s,
        None => ""@,
    }
}

/// The answer to an order that a manager has carried out: what it returned,
/// with its routing metadata.
pub open spec fn ordered(
    body: Result<JsonView, Seq<char>>,
    manager: ManagerView,
) -> Result<JsonView, ApiErrorView> {
    match body {
        Ok(doc) => Ok(annotated(doc, manager)),
        Err(e) => Err(refusal(400, "Bad response from manager: "@ + e)),
    }
}

/// What an event makes of an order, and what is to be done next. What a manager
/// refuses is refused with its status and its words.
pub open spec fn order_next(order: OrderView, event: EventView) -> (OrderView, ActionView) {
    let over = OrderView { phase: Phase::Answered, ..order };
    match event {
        EventView::Unreachable(e) => (
            over,
            ActionView::Respond(Err(refusal(400, "Could not reach manager: "@ + e))),
        ),
        EventView::Status(status) => if is_success(status) {
            (OrderView { phase: Phase::ReadingJson, ..order }, ActionView::ReadJson)
        } else {
            (OrderView { phase: Phase::ReadingText(status), ..order }, ActionView::ReadText)
        },
        EventView::Body(body) => (over, ActionView::Respond(ordered(body, order.manager))),
        EventView::Text(text) => (
            over,
            ActionView::Respond(
                Err(refusal(order.phase->ReadingText_0, text_or_empty(text))),
            ),
        ),
    }
}

/// Whether an order can take an event: it waits for one of this kind, and
/// routing metadata can be added to the body.
pub open spec fn order_fits(order: OrderView, event: EventView) -> bool {
    fits_phase(order.phase, event) && (event matches EventView::Body(body) ==> body_takes_members(
        body,
    ))
}

/// An order under way.
#[derive(Debug, PartialEq, Eq)]
pub struct ProvisionDatabase {
    pub manager: ManagerEntry,
    pub phase: Phase,
}

impl View for ProvisionDatabase {
    type V = OrderView;

    open spec fn view(&self) -> OrderView {
        OrderView { manager: self.manager@, phase: self.phase }
    }
}

/// Finds the manager that an order for a server goes to.
pub fn manager_for_order(state: &MasterState, server_id: &String) -> (r: Result<
    ManagerEntry,
    ApiError,
>)
    ensures
        match orderable(state@, server_id@) {
            Ok(manager) => r matches Ok(entry) && entry@ == manager,
            Err(error) => r matches Err(e) && e@ == error,
        },
{
    match state.get(server_id) {
        None => {
            let mut msg = "No manager for server_id '".to_string();
            msg.append(server_id.as_str());
            msg.append("'");
            Err(not_found(msg.as_str()))
        },
        Some(entry) => if !entry.is_online() {
            let mut msg = "Manager '".to_string();
            msg.append(server_id.as_str());
            msg.append("' is not online (status: ");
            msg.append(entry.status.as_str());
            msg.append(")");
            Err(api_err(msg.as_str()))
        } else {
            Ok(entry.clone())
        },
    }
}

/// The name that a UUID gives to a database.
pub fn generated_db_name(uuid: &str) -> (r: String)
    requires
        uuid@.len() >= 8,
    ensures
        r@ == generated_name(uuid@),
{
    let mut name = "db_".to_string();
    name.append(uuid.substring_char(0, 8));
    name
}

/// Places an order for an instance of that name with a manager.
pub fn place_order(manager: ManagerEntry, db_name: &str) -> (r: (ProvisionDatabase, Action))
    ensures
        (r.0@, r.1@) == order_start(manager@, db_name@),
{
    let mut body = Json::empty_object();
    body.set("db_name", Json::text(db_name));
    let call = HttpCall {
        method: Method::Post,
        url: provision_url(&manager),
        body: Some(body),
        timeout_secs: 30,
    };
    (ProvisionDatabase { manager, phase: Phase::Asking }, Action::Send(call))
}

/// Begins to order a new instance from the manager of a server.
pub fn provision_database(state: &MasterState, req: ProvisionDbRequest) -> (r: Result<
    (ProvisionDatabase, Action),
    ApiError,
>)
    ensures
        match orderable(state@, req.server_id@) {
            Ok(manager) => r matches Ok((order, action)) && exists|name: Seq<char>| #[trigger]
                can_be_named(text_of(req.db_name), name) && (order@, action@) == order_start(
                    manager,
                    name,
                ),
            Err(error) => r matches Err(e) && e@ == error,
        },
{
    match manager_for_order(state, &req.server_id) {
        Ok(manager) => {
            let db_name = match req.db_name {
                Some(name) => name,
                None => {
                    let uuid = fresh_uuid();
                    generated_db_name(uuid.as_str())
                },
            };
            assert(can_be_named(text_of(req.db_name), db_name@));
            Ok(place_order(manager, db_name.as_str()))
        },
        Err(e) => Err(e),
    }
}

impl ProvisionDatabase {
    fn answer(self, answer: Result<Json, ApiError>) -> (r: (ProvisionDatabase, Action))
        ensures
            r.0@ == (OrderView { phase: Phase::Answered, ..self@ }),
            r.1 == Action::Respond(answer),
    {
        (
            ProvisionDatabase { manager: self.manager, phase: Phase::Answered },
            Action::Respond(answer),
        )
    }

    /// Whether `advance` may be called with the event.
    pub fn fits(&self, event: &Event) -> (r: bool)
        ensures
            r == order_fits(self@, event@),
    {
        event_fits(self.phase, event) && match event {
            Event::Body(Ok(doc)) => doc.takes_members(),
            _ => true,
        }
    }

    /// Takes what came of the last action, and says what is to be done next.
    pub fn advance(self, event: Event) -> (r: (ProvisionDatabase, Action))
        requires
            order_fits(self@, event@),
        ensures
            (r.0@, r.1@) == order_next(self@, event@),
    {
        match event {
            Event::Unreachable(e) => {
                let mut msg = "Could not reach manager: ".to_string();
                msg.append(e.as_str());
                self.answer(Err(api_err(msg.as_str())))
            },
            Event::Status(status) => if success(status) {
                (
                    ProvisionDatabase { manager: self.manager, phase: Phase::ReadingJson },
                    Action::ReadJson,
                )
            } else {
                (
                    ProvisionDatabase { manager: self.manager, phase: Phase::ReadingText(status) },
                    Action::ReadText,
                )
            },
            Event::Body(Ok(mut doc)) => {
                annotate(&mut doc, &self.manager);
                self.answer(Ok(doc))
            },
            Event::Body(Err(e)) => {
                let mut msg = "Bad response from manager: ".to_string();
                msg.append(e.as_str());
                self.answer(Err(api_err(msg.as_str())))
            },
            Event::Text(text) => {
                let status: u16 = match self.phase {
                    Phase::ReadingText(status) => status,
                    _ => 0,
                };
                let words = match text {
                    Some(s) => s,
                    None => "".to_string(),
                };
                self.answer(Err(refuse(status, words.as_str())))
            },
        }
    }
}

/// How much of an order is left.
pub open spec fn order_measure(order: OrderView) -> int {
    match order.phase {
        Phase::Asking => 2,
        Phase::Answered => 0,
        _ => 1,
    }
}

/// The actions of a whole order from a point on, where the manager would answer
/// as given. The last one carries the answer.
pub open spec fn order_actions(
    order: OrderView,
    action: ActionView,
    answer: ManagerAnswer,
) -> Seq<ActionView>
    decreases order_measure(order),
{
    if order.phase is Answered {
        seq![action]
    } else {
        let (after, next) = order_next(order, event_from(order.phase, answer));
        seq![action] + order_actions(after, next, answer)
    }
}

/// What an order is answered.
pub open spec fn order_answer(manager: ManagerView, answer: ManagerAnswer) -> Result<
    JsonView,
    ApiErrorView,
> {
    match answer {
        ManagerAnswer::Unreachable(e) => Err(refusal(400, "Could not reach manager: "@ + e)),
        ManagerAnswer::Replied(status, json, text) => if is_success(status) {
            ordered(json, manager)
        } else {
            Err(refusal(status, text_or_empty(text)))
        },
    }
}

/// An order asks its manager once. It is answered with what the manager
/// returned and its routing metadata, or with the status and the words of the
/// manager where that refused.
pub proof fn law_provision_database(
    manager: ManagerView,
    db_name: Seq<char>,
    answer: ManagerAnswer,
)
    requires
        answer matches ManagerAnswer::Replied(status, json, _) ==> is_success(status)
            ==> body_takes_members(json),
    ensures
        ({
            let (start, first) = order_start(manager, db_name);
            let actions = order_actions(start, first, answer);
            &&& actions.last() == ActionView::Respond(order_answer(manager, answer))
            &&& calls(actions) == seq![order_call(manager, db_name)]
        }),
{
    reveal_with_fuel(order_actions, 4);
    reveal_with_fuel(calls, 4);
    let (start, first) = order_start(manager, db_name);
    let actions = order_actions(start, first, answer);
    if actions.len() == 2 {
        assert(actions.skip(1).skip(1) =~= Seq::empty());
    } else {
        assert(actions.len() == 3);
        assert(actions.skip(1).skip(1).skip(1) =~= Seq::empty());
    }
    assert(calls(actions) =~= seq![order_call(manager, db_name)]);
}

/// Every event of a whole order from a point on is one that it can take.
pub open spec fn order_events_fit(order: OrderView, answer: ManagerAnswer) -> bool
    decreases order_measure(order),
{
    order.phase is Answered || {
        let event = event_from(order.phase, answer);
        order_fits(order, event) && order_events_fit(order_next(order, event).0, answer)
    }
}

/// An order never gets an event that it cannot take, where routing metadata can
/// be added to what the manager returns on success.
pub proof fn law_order_events_fit(
    manager: ManagerView,
    db_name: Seq<char>,
    answer: ManagerAnswer,
)
    requires
        answer matches ManagerAnswer::Replied(status, json, _) ==> is_success(status)
            ==> body_takes_members(json),
    ensures
        order_events_fit(order_start(manager, db_name).0, answer),
{
    reveal_with_fuel(order_events_fit, 3);
}

} // verus!
