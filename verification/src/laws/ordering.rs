//! Orders for new database instances.
use vstd::prelude::*;

use crate::http::{Action, Event, Method, Phase};
use crate::json::{Json, JsonView};
use crate::laws::documents::{lemma_annotated_is_routed, member, only_members, routed};
use crate::laws::launching::hexadecimal;
use crate::laws::registrations::same_entry;
use crate::laws::requests::{home, refuses, says};
use crate::manager::ManagerEntry;
use crate::orders::{
    generated_db_name, manager_for_order, place_order, provision_database, ProvisionDatabase,
    ProvisionDbRequest,
};
use crate::registry::MasterState;
use crate::reply::ApiError;

verus! {

/// An order for a server goes to the manager that is found under its id, if
/// that is online. It is refused where there is none, and where its manager is
/// not online, with its status.
pub proof fn law_manager_for_order(
    state: MasterState,
    id: String,
    found: Option<&ManagerEntry>,
    r: Result<ManagerEntry, ApiError>,
)
    requires
        call_ensures(MasterState::get, (&state, &id), found),
        call_ensures(manager_for_order, (&state, &id), r),
    ensures
        match found {
            None => r matches Err(refused) && says(
                refused,
                404,
                "No manager for server_id '"@ + id@ + "'"@,
            ),
            Some(entry) => if entry.status@ == "online"@ {
                r matches Ok(manager) && same_entry(manager, *entry)
            } else {
                r matches Err(refused) && says(
                    refused,
                    400,
                    "Manager '"@ + id@ + "' is not online (status: "@ + entry.status@ + ")"@,
                )
            },
        },
{
    assert(seq!["error"@][0] == "error"@);
}

/// The name that a UUID gives is its first eight characters behind a prefix.
pub proof fn law_generated_db_name(uuid: &str, r: String)
    requires
        uuid@.len() >= 8,
        call_ensures(generated_db_name, (uuid,), r),
    ensures
        r@ == "db_"@ + uuid@.subrange(0, 8),
{
    assert(uuid@.take(8) =~= uuid@.subrange(0, 8));
}

/// The action orders an instance of that name from the manager.
pub open spec fn orders(action: Action, manager: ManagerEntry, name: Seq<char>) -> bool {
    action matches Action::Send(call) && {
        &&& call.method == Method::Post
        &&& call.url@ == home(manager.ip@, manager.manager_port) + "/provision"@
        &&& call.timeout_secs == 30
        &&& call.body matches Some(doc) && member(doc@, "db_name"@) == Some(JsonView::Str(name))
            && only_members(doc@, seq!["db_name"@])
    }
}

/// An order asks the manager that it is placed with, for the name that is
/// asked for.
pub proof fn law_place_order(manager: ManagerEntry, name: &str, r: (ProvisionDatabase, Action))
    requires
        call_ensures(place_order, (manager, name), r),
    ensures
        same_entry(r.0.manager, manager),
        r.0.phase == Phase::Asking,
        orders(r.1, manager, name@),
{
    assert(seq!["db_name"@][0] == "db_name"@);
}

/// The name is one that was made up: eight hexadecimal digits behind a prefix.
pub open spec fn made_up(name: Seq<char>) -> bool {
    &&& name.len() == 11
    &&& name.take(3) == "db_"@
    &&& forall|i: int| 3 <= i < 11 ==> hexadecimal(#[trigger] name[i])
}

/// A request for an instance is refused like the order for its server, and
/// otherwise placed with the manager of that server, under the name that it
/// asks for, or under one that is made up.
pub proof fn law_provision_request(
    state: MasterState,
    req: ProvisionDbRequest,
    found: Result<ManagerEntry, ApiError>,
    r: Result<(ProvisionDatabase, Action), ApiError>,
)
    requires
        call_ensures(manager_for_order, (&state, &req.server_id), found),
        call_ensures(provision_database, (&state, req), r),
    ensures
        match found {
            Err(reason) => r matches Err(refused) && refused.status == reason.status
                && refused.body@ == reason.body@,
            Ok(manager) => r matches Ok((order, action)) && {
                &&& same_entry(order.manager, manager)
                &&& order.phase == Phase::Asking
                &&& req.db_name matches Some(name) ==> orders(action, manager, name@)
                &&& req.db_name is None ==> exists|name: Seq<char>| #[trigger]
                    made_up(name) && orders(action, manager, name)
            },
        },
{
    assert(seq!["db_name"@][0] == "db_name"@);
    reveal_strlit("db_");
    if let Ok(manager) = found {
        let name = choose|name: Seq<char>| #[trigger]
            crate::orders::can_be_named(crate::text::text_of(req.db_name), name) && (
            r->Ok_0.0@,
            r->Ok_0.1@,
        ) == crate::orders::order_start(manager@, name);
        if req.db_name is None {
            let uuid = choose|uuid: Seq<char>| #[trigger]
                crate::outside::is_uuid_v4(uuid) && name == crate::orders::generated_name(uuid);
            assert(name.take(3) =~= "db_"@);
            assert forall|i: int| 3 <= i < 11 implies hexadecimal(#[trigger] name[i]) by {
                assert(name[i] == uuid[i - 3]);
                assert(crate::outside::is_hex(uuid[i - 3]));
            }
            assert(made_up(name));
        }
    }
}

/// An order goes on like this: a manager that is not reached refuses it with
/// the reason; success has its body read, and everything else its words. A
/// body that was read is the answer, with the manager's server, region and
/// address whatever the body said of these, and with every other member of the
/// body; one that is no JSON document is refused. The words of a manager that
/// refused are passed on with its status.
pub proof fn law_order_goes_on(
    order: ProvisionDatabase,
    event: Event,
    r: (ProvisionDatabase, Action),
)
    requires
        call_ensures(ProvisionDatabase::advance, (order, event), r),
        event matches Event::Body(Ok(doc)) ==> doc@ is Null || doc@ is Object,
    ensures
        same_entry(r.0.manager, order.manager),
        match event {
            Event::Unreachable(reason) => r.0.phase == Phase::Answered && refuses(
                r.1,
                400,
                "Could not reach manager: "@ + reason@,
            ),
            Event::Status(status) => if 200 <= status <= 299 {
                r.0.phase == Phase::ReadingJson && r.1 is ReadJson
            } else {
                r.0.phase == Phase::ReadingText(status) && r.1 is ReadText
            },
            Event::Body(Ok(doc)) => r.0.phase == Phase::Answered && (
            r.1 matches Action::Respond(Ok(answer)) && routed(
                doc@,
                answer@,
                order.manager.server_id@,
                order.manager.region@,
                order.manager.ip@,
            )),
            Event::Body(Err(reason)) => r.0.phase == Phase::Answered && refuses(
                r.1,
                400,
                "Bad response from manager: "@ + reason@,
            ),
            Event::Text(text) => r.0.phase == Phase::Answered && (
            order.phase matches Phase::ReadingText(status) ==> refuses(
                r.1,
                status,
                match text {
                    Some(words) => words@,
                    None => ""@,
                },
            )),
        },
{
    assert(seq!["error"@][0] == "error"@);
    if let Event::Body(Ok(doc)) = event {
        lemma_annotated_is_routed(doc@, order.manager@);
    }
}

/// A manager that reports success and returns a document has its order answered
/// with that document, and with the server, the region and the address of the
/// manager that the order was placed with.
pub proof fn law_order_succeeds(
    manager: ManagerEntry,
    name: &str,
    status: u16,
    doc: Json,
    placed: (ProvisionDatabase, Action),
    reported: (ProvisionDatabase, Action),
    ended: (ProvisionDatabase, Action),
)
    requires
        200 <= status <= 299,
        doc@ is Null || doc@ is Object,
        call_ensures(place_order, (manager, name), placed),
        call_ensures(ProvisionDatabase::advance, (placed.0, Event::Status(status)), reported),
        call_ensures(ProvisionDatabase::advance, (reported.0, Event::Body(Ok(doc))), ended),
    ensures
        reported.1 is ReadJson,
        ended.1 matches Action::Respond(Ok(answer)) && routed(
            doc@,
            answer@,
            manager.server_id@,
            manager.region@,
            manager.ip@,
        ),
{
    law_place_order(manager, name, placed);
    law_order_goes_on(placed.0, Event::Status(status), reported);
    law_order_goes_on(reported.0, Event::Body(Ok(doc)), ended);
}

/// A manager that reports anything but success has its status and its words
/// passed on.
pub proof fn law_order_refused(
    manager: ManagerEntry,
    name: &str,
    status: u16,
    words: String,
    placed: (ProvisionDatabase, Action),
    reported: (ProvisionDatabase, Action),
    ended: (ProvisionDatabase, Action),
)
    requires
        !(200 <= status <= 299),
        call_ensures(place_order, (manager, name), placed),
        call_ensures(ProvisionDatabase::advance, (placed.0, Event::Status(status)), reported),
        call_ensures(ProvisionDatabase::advance, (reported.0, Event::Text(Some(words))), ended),
    ensures
        reported.1 is ReadText,
        refuses(ended.1, status, words@),
{
    law_order_goes_on(placed.0, Event::Status(status), reported);
    law_order_goes_on(reported.0, Event::Text(Some(words)), ended);
}

/// An order takes what it waits for; a body only where it is null or an object.
pub proof fn law_order_fits(order: ProvisionDatabase, event: Event, r: bool)
    requires
        call_ensures(ProvisionDatabase::fits, (&order, &event), r),
    ensures
        order.phase is Asking ==> (r <==> event is Unreachable || event is Status),
        order.phase is ReadingJson ==> (r <==> (event matches Event::Body(body) && (body
            matches Ok(doc) ==> doc@ is Null || doc@ is Object))),
        order.phase is ReadingText ==> (r <==> event is Text),
        order.phase is Answered ==> !r,
{
}

} // verus!
