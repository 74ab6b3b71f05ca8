//! Listings of the instances of every manager that is online.
use vstd::prelude::*;

use crate::http::{Action, Event, ManagerAnswer, Method, Phase};
use crate::json::{Json, JsonView, Number};
use crate::laws::documents::{lemma_annotated_is_routed, member, only_members, routed};
use crate::laws::registrations::lemma_names;
use crate::laws::requests::{home, sends};
use crate::listing::{
    body_annotatable, contribution, contributions, list_databases, ListDatabases, ListingView,
};
use crate::manager::{ManagerEntry, ManagerView};
use crate::registry::MasterState;

verus! {

/// The documents that a manager lists: the elements of the array `instances`.
pub open spec fn listed(doc: JsonView) -> Seq<JsonView> {
    match member(doc, "instances"@) {
        Some(JsonView::Array(items)) => items,
        _ => seq![],
    }
}

/// Behind what was found before stand as many more as the items are, each one
/// its item with the manager's server, region and address.
pub open spec fn found_more(
    before: Seq<JsonView>,
    after: Seq<JsonView>,
    items: Seq<JsonView>,
    manager: ManagerView,
) -> bool {
    &&& after.len() == before.len() + items.len()
    &&& forall|i: int| 0 <= i < before.len() ==> #[trigger] after[i] == before[i]
    &&& forall|i: int|
        0 <= i < items.len() ==> routed(
            #[trigger] items[i],
            after[before.len() + i],
            manager.server_id,
            manager.region,
            manager.ip,
        )
}

/// The caller is given these documents, and how many they are.
pub open spec fn gives(action: Action, found: Seq<JsonView>) -> bool {
    action matches Action::Respond(Ok(doc)) && {
        &&& member(doc@, "databases"@) == Some(JsonView::Array(found))
        &&& member(doc@, "count"@) == Some(
            JsonView::Number(Number::Unsigned(found.len() as u64)),
        )
        &&& only_members(doc@, seq!["databases"@, "count"@])
    }
}

/// The listing asks the manager that it has come to for its instances, and
/// behind the last one gives what was found.
pub open spec fn goes_on(listing: ListingView, action: Action) -> bool {
    if listing.at < listing.managers.len() {
        let manager = listing.managers[listing.at as int];
        listing.phase == Phase::Asking && sends(
            action,
            Method::Get,
            home(manager.ip, manager.manager_port) + "/instances"@,
            5,
        )
    } else {
        listing.phase == Phase::Answered && gives(action, listing.found)
    }
}

/// A listing begins with the first of its managers, and with nothing found.
pub proof fn law_listing_begins(managers: Vec<ManagerEntry>, r: (ListDatabases, Action))
    requires
        call_ensures(ListDatabases::over, (managers,), r),
    ensures
        r.0@.managers.len() == managers@.len(),
        forall|i: int|
            0 <= i < managers@.len() ==> #[trigger] r.0@.managers[i] == managers@[i]@,
        r.0@.at == 0,
        r.0@.found.len() == 0,
        goes_on(r.0@, r.1),
{
    lemma_names();
    let names = seq!["databases"@, "count"@];
    assert(names[0] == "databases"@ && names[1] == "count"@);
}

/// A response has its body read, whatever its status is. A body adds the
/// documents that it lists, all of them and in their order, and a manager that
/// is unreachable or sends no JSON document adds nothing; then the next manager
/// is asked.
pub proof fn law_listing_goes_on(listing: ListDatabases, event: Event, r: (ListDatabases, Action))
    requires
        call_ensures(ListDatabases::advance, (listing, event), r),
    ensures
        r.0@.managers == listing@.managers,
        match event {
            Event::Status(_) => {
                &&& r.0@.at == listing@.at
                &&& r.0@.found == listing@.found
                &&& r.0@.phase == Phase::ReadingJson
                &&& r.1 is ReadJson
            },
            Event::Body(Ok(doc)) => {
                &&& r.0@.at == listing@.at + 1
                &&& found_more(
                    listing@.found,
                    r.0@.found,
                    listed(doc@),
                    listing@.managers[listing@.at as int],
                )
                &&& goes_on(r.0@, r.1)
            },
            _ => {
                &&& r.0@.at == listing@.at + 1
                &&& r.0@.found == listing@.found
                &&& goes_on(r.0@, r.1)
            },
        },
{
    lemma_names();
    let names = seq!["databases"@, "count"@];
    assert(names[0] == "databases"@ && names[1] == "count"@);
    if let Event::Body(Ok(doc)) = event {
        lemma_found_more(listing@.found, doc@, listing@.managers[listing@.at as int]);
    }
}

proof fn lemma_found_more(before: Seq<JsonView>, doc: JsonView, manager: ManagerView)
    ensures
        found_more(
            before,
            before + crate::listing::annotated_instances(Ok(doc), manager),
            listed(doc),
            manager,
        ),
{
    let items = listed(doc);
    assert(crate::listing::instances_in(Ok(doc)) =~= items);
    assert forall|i: int| 0 <= i < items.len() implies routed(
        #[trigger] items[i],
        (before + crate::listing::annotated_instances(Ok(doc), manager))[before.len() + i],
        manager.server_id,
        manager.region,
        manager.ip,
    ) by {
        lemma_annotated_is_routed(items[i], manager);
    }
}

/// A listing of one manager that answers gives the documents that it lists: as
/// many, in their order, each with the manager's server, region and address.
pub proof fn law_listing_of_one_manager(
    managers: Vec<ManagerEntry>,
    status: u16,
    doc: Json,
    begun: (ListDatabases, Action),
    answered: (ListDatabases, Action),
    ended: (ListDatabases, Action),
)
    requires
        managers@.len() == 1,
        call_ensures(ListDatabases::over, (managers,), begun),
        call_ensures(ListDatabases::advance, (begun.0, Event::Status(status)), answered),
        call_ensures(ListDatabases::advance, (answered.0, Event::Body(Ok(doc))), ended),
    ensures
        answered.1 is ReadJson,
        exists|found: Seq<JsonView>| #[trigger]
            gives(ended.1, found) && found_more(seq![], found, listed(doc@), managers@[0]@),
{
    law_listing_begins(managers, begun);
    law_listing_goes_on(begun.0, Event::Status(status), answered);
    law_listing_goes_on(answered.0, Event::Body(Ok(doc)), ended);
    assert(begun.0@.found =~= seq![]);
    assert(gives(ended.1, ended.0@.found));
}

/// A body can be taken if everything that it lists is null or an object.
pub proof fn law_body_annotatable(doc: Json, r: bool)
    requires
        call_ensures(body_annotatable, (&doc,), r),
    ensures
        r <==> forall|i: int|
            0 <= i < listed(doc@).len() ==> #[trigger] listed(doc@)[i] is Null || listed(
                doc@,
            )[i] is Object,
{
    assert(crate::listing::instances_in(Ok(doc@)) =~= listed(doc@));
}

/// A listing takes what it waits for; a body only where everything that it
/// lists is null or an object.
pub proof fn law_listing_fits(listing: ListDatabases, event: Event, r: bool)
    requires
        call_ensures(ListDatabases::fits, (&listing, &event), r),
    ensures
        listing@.phase is Asking ==> (r <==> event is Unreachable || event is Status),
        listing@.phase is ReadingJson && !(event is Body) ==> !r,
        listing@.phase is ReadingJson && (event matches Event::Body(Err(_))) ==> r,
        event matches Event::Body(Ok(doc)) ==> listing@.phase is ReadingJson ==> forall|
            open: bool,
        | #[trigger]
            call_ensures(body_annotatable, (&doc,), open) ==> r == open,
        listing@.phase is Answered ==> !r,
{
}

/// A listing of databases asks the managers that are online, each of them once,
/// and no other.
pub proof fn law_listing_asks_who_is_online(
    state: MasterState,
    online: Vec<ManagerEntry>,
    r: (ListDatabases, Action),
)
    requires
        call_ensures(MasterState::online_managers, (&state,), online),
        call_ensures(list_databases, (&state,), r),
    ensures
        r.0@.managers.len() == online@.len(),
        forall|i: int|
            0 <= i < online@.len() ==> r.0@.managers.contains(#[trigger] online@[i]@),
        forall|j: int|
            0 <= j < r.0@.managers.len() ==> (#[trigger] r.0@.managers[j]).status == "online"@,
        r.0@.managers.no_duplicates(),
        r.0@.at == 0,
        r.0@.found.len() == 0,
        goes_on(r.0@, r.1),
{
    lemma_names();
    let names = seq!["databases"@, "count"@];
    assert(names[0] == "databases"@ && names[1] == "count"@);
    let ov = crate::registry::entry_views(online@);
    let registry = crate::registry::online_of(state@);
    assert forall|i: int| 0 <= i < online@.len() implies r.0@.managers.contains(
        #[trigger] online@[i]@,
    ) by {
        assert(ov[i] == online@[i]@);
        assert(registry.contains_key(ov[i].server_id));
    }
    let managers = r.0@.managers;
    assert forall|i: int, j: int|
        0 <= i < managers.len() && 0 <= j < managers.len() && i != j implies managers[i]
        != managers[j] by {
        if i < j {
            assert(managers[i].server_id != managers[j].server_id);
        } else {
            assert(managers[j].server_id != managers[i].server_id);
        }
    }
}

/// A manager that is unreachable, or sends no JSON document, contributes
/// nothing; every other contributes what it lists, whatever its status is.
pub proof fn law_contribution(
    manager: ManagerView,
    reason: Seq<char>,
    status: u16,
    text: Option<Seq<char>>,
    doc: JsonView,
)
    ensures
        contribution(manager, ManagerAnswer::Unreachable(reason)).len() == 0,
        contribution(manager, ManagerAnswer::Replied(status, Err(reason), text)).len() == 0,
        found_more(
            seq![],
            contribution(manager, ManagerAnswer::Replied(status, Ok(doc), text)),
            listed(doc),
            manager,
        ),
{
    lemma_found_more(seq![], doc, manager);
    let added = crate::listing::annotated_instances(Ok(doc), manager);
    assert(seq![] + added =~= added);
}

proof fn lemma_contributions_of_both(
    m1: Seq<ManagerView>,
    a1: Seq<ManagerAnswer>,
    m2: Seq<ManagerView>,
    a2: Seq<ManagerAnswer>,
    at: nat,
)
    requires
        m1.len() == a1.len(),
        m2.len() == a2.len(),
    ensures
        at <= m1.len() ==> contributions(m1 + m2, a1 + a2, at) == contributions(m1, a1, at)
            + contributions(m2, a2, 0),
        at > m1.len() ==> contributions(m1 + m2, a1 + a2, at) == contributions(
            m2,
            a2,
            (at - m1.len()) as nat,
        ),
    decreases m1.len() + m2.len() - at,
{
    if at < m1.len() + m2.len() {
        lemma_contributions_of_both(m1, a1, m2, a2, at + 1);
    }
    if at < m1.len() {
        assert(contributions(m1 + m2, a1 + a2, at) =~= contributions(m1, a1, at) + contributions(
            m2,
            a2,
            0,
        ));
    } else if at == m1.len() {
        assert(contributions(m1 + m2, a1 + a2, at) =~= contributions(m2, a2, 0));
        assert(contributions(m1, a1, at) + contributions(m2, a2, 0) =~= contributions(m2, a2, 0));
    } else {
        assert(contributions(m1 + m2, a1 + a2, at) =~= contributions(
            m2,
            a2,
            (at - m1.len()) as nat,
        ));
    }
}

/// What a list of managers contributes is what its parts contribute, one behind
/// the other; one manager contributes its own.
pub proof fn law_contributions_add_up(
    m1: Seq<ManagerView>,
    a1: Seq<ManagerAnswer>,
    m2: Seq<ManagerView>,
    a2: Seq<ManagerAnswer>,
    manager: ManagerView,
    answer: ManagerAnswer,
)
    requires
        m1.len() == a1.len(),
        m2.len() == a2.len(),
    ensures
        contributions(m1 + m2, a1 + a2, 0) == contributions(m1, a1, 0) + contributions(m2, a2, 0),
        contributions(seq![manager], seq![answer], 0) == contribution(manager, answer),
{
    lemma_contributions_of_both(m1, a1, m2, a2, 0);
    reveal_with_fuel(contributions, 2);
    assert(contributions(seq![manager], seq![answer], 0) =~= contribution(manager, answer));
}

} // verus!
