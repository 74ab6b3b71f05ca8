//! Lookups of one database instance, to show or to delete it.
use vstd::prelude::*;

use crate::http::{Action, Event, Method, Phase};
use crate::json::{Json, JsonView};
use crate::laws::documents::{lemma_annotated_is_routed, member, only_members, routed};
use crate::laws::registrations::lemma_names;
use crate::laws::requests::{home, lemma_same_rest, refuses, sends};
use crate::lookup::{delete_database, get_database, Lookup, LookupView, Purpose};
use crate::manager::{ManagerEntry, ManagerView};
use crate::registry::MasterState;

verus! {

/// The action asks a manager for the instance of that id: to show it or to
/// delete it, at one and the same address.
pub open spec fn asks_for(
    action: Action,
    purpose: Purpose,
    manager: ManagerView,
    db_id: Seq<char>,
) -> bool {
    let url = home(manager.ip, manager.manager_port) + "/instances/"@ + db_id;
    match purpose {
        Purpose::Show => sends(action, Method::Get, url, 5),
        Purpose::Delete => sends(action, Method::Delete, url, 10),
    }
}

/// The lookup asks the manager that it has come to, and behind the last one
/// says that there is no such database.
pub open spec fn goes_on(lookup: LookupView, action: Action) -> bool {
    if lookup.at < lookup.managers.len() {
        lookup.phase == Phase::Asking && asks_for(
            action,
            lookup.purpose,
            lookup.managers[lookup.at as int],
            lookup.db_id,
        )
    } else {
        lookup.phase == Phase::Answered && refuses(
            action,
            404,
            "Database '"@ + lookup.db_id + "' not found"@,
        )
    }
}

/// A lookup begins with the first of its managers.
pub proof fn law_lookup_begins(
    purpose: Purpose,
    managers: Vec<ManagerEntry>,
    db_id: String,
    r: (Lookup, Action),
)
    requires
        call_ensures(Lookup::over, (purpose, managers, db_id), r),
    ensures
        r.0@.purpose == purpose,
        r.0@.db_id == db_id@,
        r.0@.managers.len() == managers@.len(),
        forall|i: int|
            0 <= i < managers@.len() ==> #[trigger] r.0@.managers[i] == managers@[i]@,
        r.0@.at == 0,
        goes_on(r.0@, r.1),
{
    assert(seq!["error"@][0] == "error"@);
}

/// The lookup goes on for the same instance, the same purpose and with the same
/// managers.
pub open spec fn same_lookup(a: LookupView, b: LookupView) -> bool {
    a.purpose == b.purpose && a.db_id == b.db_id && a.managers == b.managers
}

/// The answer says that the instance was deleted, and which one.
pub open spec fn tells_deleted(action: Action, db_id: Seq<char>) -> bool {
    action matches Action::Respond(Ok(doc)) && {
        &&& member(doc@, "status"@) == Some(JsonView::Str("deleted"@))
        &&& member(doc@, "id"@) == Some(JsonView::Str(db_id))
        &&& only_members(doc@, seq!["status"@, "id"@])
    }
}

/// A manager that is unreachable or reports no success is passed over for the
/// next one. Success ends a deletion, and has the body read of what is to be
/// shown. That body is the answer, with the manager's server, region and
/// address whatever the body said of these, and with every other member of the
/// body; one that is no JSON document is refused.
pub proof fn law_lookup_goes_on(lookup: Lookup, event: Event, r: (Lookup, Action))
    requires
        call_ensures(Lookup::advance, (lookup, event), r),
        event matches Event::Body(Ok(doc)) ==> doc@ is Null || doc@ is Object,
    ensures
        same_lookup(r.0@, lookup@),
        match event {
            Event::Status(status) => if 200 <= status <= 299 {
                r.0@.at == lookup@.at && match lookup@.purpose {
                    Purpose::Show => r.0@.phase == Phase::ReadingJson && r.1 is ReadJson,
                    Purpose::Delete => r.0@.phase == Phase::Answered && tells_deleted(
                        r.1,
                        lookup@.db_id,
                    ),
                }
            } else {
                r.0@.at == lookup@.at + 1 && goes_on(r.0@, r.1)
            },
            Event::Body(Ok(doc)) => r.0@.phase == Phase::Answered && ({
                let manager = lookup@.managers[lookup@.at as int];
                r.1 matches Action::Respond(Ok(answer)) && routed(
                    doc@,
                    answer@,
                    manager.server_id,
                    manager.region,
                    manager.ip,
                )
            }),
            Event::Body(Err(reason)) => r.0@.phase == Phase::Answered && refuses(
                r.1,
                400,
                "Bad response: "@ + reason@,
            ),
            _ => r.0@.at == lookup@.at + 1 && goes_on(r.0@, r.1),
        },
{
    lemma_names();
    assert(seq!["error"@][0] == "error"@);
    let names = seq!["status"@, "id"@];
    assert(names[0] == "status"@ && names[1] == "id"@);
    if let Event::Body(Ok(doc)) = event {
        lemma_annotated_is_routed(doc@, lookup@.managers[lookup@.at as int]);
    }
}

/// Two lookups that ask one manager ask at the same address if and only if they
/// look for the same id, whatever for.
pub proof fn law_lookup_addresses(
    a: (Purpose, String, (Lookup, Action)),
    b: (Purpose, String, (Lookup, Action)),
    managers: Vec<ManagerEntry>,
)
    requires
        managers@.len() > 0,
        call_ensures(Lookup::over, (a.0, managers, a.1), a.2),
        call_ensures(Lookup::over, (b.0, managers, b.1), b.2),
    ensures
        a.2.1 matches Action::Send(_),
        b.2.1 matches Action::Send(_),
        a.2.1->Send_0.url@ == b.2.1->Send_0.url@ <==> a.1@ == b.1@,
{
    law_lookup_begins(a.0, managers, a.1, a.2);
    law_lookup_begins(b.0, managers, b.1, b.2);
    lemma_same_rest(
        home(managers@[0].ip@, managers@[0].manager_port) + "/instances/"@,
        a.1@,
        b.1@,
    );
}

/// The same holds of the managers that are asked behind the first.
pub proof fn law_later_lookup_addresses(
    a: Lookup,
    b: Lookup,
    event: Event,
    ra: (Lookup, Action),
    rb: (Lookup, Action),
)
    requires
        a@.managers == b@.managers,
        a@.at == b@.at,
        a@.at + 1 < a@.managers.len(),
        event is Unreachable || (event matches Event::Status(status) && !(200 <= status <= 299)),
        call_ensures(Lookup::advance, (a, event), ra),
        call_ensures(Lookup::advance, (b, event), rb),
    ensures
        ra.1 matches Action::Send(_),
        rb.1 matches Action::Send(_),
        ra.1->Send_0.url@ == rb.1->Send_0.url@ <==> a@.db_id == b@.db_id,
{
    law_lookup_goes_on(a, event, ra);
    law_lookup_goes_on(b, event, rb);
    let manager = a@.managers[(a@.at + 1) as int];
    lemma_same_rest(
        home(manager.ip, manager.manager_port) + "/instances/"@,
        a@.db_id,
        b@.db_id,
    );
}

/// An instance that the first manager shows is answered with what it shows, and
/// with its server, region and address.
pub proof fn law_lookup_shows(
    managers: Vec<ManagerEntry>,
    db_id: String,
    status: u16,
    doc: Json,
    begun: (Lookup, Action),
    reported: (Lookup, Action),
    ended: (Lookup, Action),
)
    requires
        managers@.len() > 0,
        200 <= status <= 299,
        doc@ is Null || doc@ is Object,
        call_ensures(Lookup::over, (Purpose::Show, managers, db_id), begun),
        call_ensures(Lookup::advance, (begun.0, Event::Status(status)), reported),
        call_ensures(Lookup::advance, (reported.0, Event::Body(Ok(doc))), ended),
    ensures
        reported.1 is ReadJson,
        ended.1 matches Action::Respond(Ok(answer)) && routed(
            doc@,
            answer@,
            managers@[0].server_id@,
            managers@[0].region@,
            managers@[0].ip@,
        ),
{
    law_lookup_begins(Purpose::Show, managers, db_id, begun);
    law_lookup_goes_on(begun.0, Event::Status(status), reported);
    law_lookup_goes_on(reported.0, Event::Body(Ok(doc)), ended);
}

/// A lookup takes what it waits for; a body only where it is null or an object.
pub proof fn law_lookup_fits(lookup: Lookup, event: Event, r: bool)
    requires
        call_ensures(Lookup::fits, (&lookup, &event), r),
    ensures
        lookup@.phase is Asking ==> (r <==> event is Unreachable || event is Status),
        lookup@.phase is ReadingJson ==> (r <==> (event matches Event::Body(body) && (body
            matches Ok(doc) ==> doc@ is Null || doc@ is Object))),
        lookup@.phase is Answered ==> !r,
{
}

/// The lookup asks these managers, each of them once, and no other.
pub open spec fn asks_all(lookup: LookupView, all: Seq<ManagerEntry>) -> bool {
    &&& lookup.managers.len() == all.len()
    &&& forall|i: int| 0 <= i < all.len() ==> lookup.managers.contains((#[trigger] all[i])@)
    &&& lookup.managers.no_duplicates()
}

proof fn lemma_asks_all(lookup: LookupView, all: Seq<ManagerEntry>, state: MasterState)
    requires
        crate::registry::enumerates(lookup.managers, state@),
        crate::registry::enumerates(crate::registry::entry_views(all), state@),
    ensures
        asks_all(lookup, all),
{
    let av = crate::registry::entry_views(all);
    let managers = lookup.managers;
    assert forall|i: int| 0 <= i < all.len() implies managers.contains((#[trigger] all[i])@) by {
        assert(av[i] == all[i]@);
        assert(state@.contains_key(av[i].server_id));
    }
    assert forall|i: int, j: int|
        0 <= i < managers.len() && 0 <= j < managers.len() && i != j implies managers[i]
        != managers[j] by {
        if i < j {
            assert(managers[i].server_id != managers[j].server_id);
        } else {
            assert(managers[j].server_id != managers[i].server_id);
        }
    }
}

/// To show an instance and to delete it, every manager of the registry is
/// asked, from the first one on, whether it is online or not.
pub proof fn law_lookups_ask_every_manager(
    state: MasterState,
    all: Vec<ManagerEntry>,
    db_id: String,
    show: (Lookup, Action),
    delete: (Lookup, Action),
)
    requires
        call_ensures(MasterState::managers, (&state,), all),
        call_ensures(get_database, (&state, db_id), show),
        call_ensures(delete_database, (&state, db_id), delete),
    ensures
        show.0@.purpose == Purpose::Show,
        delete.0@.purpose == Purpose::Delete,
        show.0@.db_id == db_id@,
        delete.0@.db_id == db_id@,
        show.0@.at == 0,
        delete.0@.at == 0,
        asks_all(show.0@, all@),
        asks_all(delete.0@, all@),
        goes_on(show.0@, show.1),
        goes_on(delete.0@, delete.1),
{
    assert(seq!["error"@][0] == "error"@);
    lemma_asks_all(show.0@, all@, state);
    lemma_asks_all(delete.0@, all@, state);
}

} // verus!
