//! Listing the database instances of every manager that is online.
use vstd::prelude::*;
use vstd::seq_lib::lemma_multiset_commutative;

use crate::http::{
    annotate, annotated, calls, event_fits, event_from, fits_phase, instances_url, instances_url_of, Action,
    ActionView, Event, EventView, HttpCall, HttpCallView, ManagerAnswer, Method, Phase,
};
use crate::json::{members_of, takes_members, views, Json, JsonView, Number};
use crate::manager::{ManagerEntry, ManagerView};
use crate::registry::{consistent, entry_views, enumerates, online_of, MasterState};

verus! {

/// The instances that a manager lists: the elements of the array `instances`;
/// none where there is no such array.
pub open spec fn instances_in(body: Result<JsonView, Seq<char>>) -> Seq<JsonView> {
    match body {
        Ok(doc) => if members_of(doc).contains_key("instances"@) {
            match members_of(doc)["instances"@] {
                JsonView::Array(items) => items,
                _ => Seq::empty(),
            }
        } else {
            Seq::empty()
        },
        Err(_) => Seq::empty(),
    }
}

/// Routing metadata can be added to every instance that a manager lists.
pub open spec fn instances_annotatable(body: Result<JsonView, Seq<char>>) -> bool {
    forall|i: int|
        0 <= i < instances_in(body).len() ==> takes_members(#[trigger] instances_in(body)[i])
}

/// The instances that a manager lists, each with the routing metadata of the
/// manager.
pub open spec fn annotated_instances(
    body: Result<JsonView, Seq<char>>,
    manager: ManagerView,
) -> Seq<JsonView> {
    instances_in(body).map_values(|inst: JsonView| annotated(inst, manager))
}

/// The answer: the instances, and how many they are.
pub open spec fn database_list(found: Seq<JsonView>) -> JsonView {
    JsonView::Object(
        map![
            "databases"@ => JsonView::Array(found),
            "count"@ => JsonView::Number(Number::Unsigned(found.len() as u64)),
        ],
    )
}

/// The request for the instances of a manager.
pub open spec fn instances_call(manager: ManagerView) -> HttpCallView {
    HttpCallView {
        method: Method::Get,
        url: instances_url_of(manager),
        body: None,
        timeout_secs: 5,
    }
}

/// Where a listing stands: the manager that is being asked, and the instances
/// found before it.
pub struct ListingView {
    pub managers: Seq<ManagerView>,
    pub at: nat,
    pub phase: Phase,
    pub found: Seq<JsonView>,
}

/// A listing that asks the manager at a position, or answers behind the last.
pub open spec fn listing_at(
    managers: Seq<ManagerView>,
    at: nat,
    found: Seq<JsonView>,
) -> ListingView {
    ListingView {
        managers,
        at,
        phase: if at < managers.len() {
            Phase::Asking
        } else {
            Phase::Answered
        },
        found,
    }
}

/// What a listing does.
pub open spec fn listing_asks(listing: ListingView) -> ActionView {
    match listing.phase {
        Phase::Asking => ActionView::Send(instances_call(listing.managers[listing.at as int])),
        Phase::Answered => ActionView::Respond(Ok(database_list(listing.found))),
        _ => ActionView::ReadJson,
    }
}

/// What an event makes of a listing. A response is read whatever its status
/// is. A manager that is unreachable, or whose body is no JSON document,
/// contributes nothing.
pub open spec fn listing_next(listing: ListingView, event: EventView) -> ListingView {
    match event {
        EventView::Status(_) => ListingView { phase: Phase::ReadingJson, ..listing },
        EventView::Body(body) => listing_at(
            listing.managers,
            listing.at + 1,
            listing.found + annotated_instances(body, listing.managers[listing.at as int]),
        ),
        _ => listing_at(listing.managers, listing.at + 1, listing.found),
    }
}

/// Whether a listing can take an event: it waits for one of this kind, and
/// routing metadata can be added to what the body lists.
pub open spec fn listing_fits(listing: ListingView, event: EventView) -> bool {
    fits_phase(listing.phase, event) && (event matches EventView::Body(body)
        ==> instances_annotatable(body))
}

/// A listing under way.
pub struct ListDatabases {
    managers: Vec<ManagerEntry>,
    at: usize,
    phase: Phase,
    found: Vec<Json>,
}

impl View for ListDatabases {
    type V = ListingView;

    closed spec fn view(&self) -> ListingView {
        ListingView {
            managers: entry_views(self.managers@),
            at: self.at as nat,
            phase: self.phase,
            found: views(self.found@),
        }
    }
}

/// Whether routing metadata can be added to every instance that the body of a
/// response lists.
pub fn body_annotatable(body: &Json) -> (r: bool)
    ensures
        r == instances_annotatable(Ok(body@)),
{
    let ghost listed = instances_in(Ok(body@));
    match body.get("instances") {
        Some(member) => match member.as_array() {
            Some(items) => {
                assert(listed == views(items@));
                for i in 0..items.len()
                    invariant
                        listed == instances_in(Ok(body@)),
                        listed == views(items@),
                        forall|j: int| 0 <= j < i ==> takes_members(#[trigger] listed[j]),
                {
                    assert(listed[i as int] == items@[i as int]@);
                    if !items[i].takes_members() {
                        assert(!takes_members(listed[i as int]));
                        return false;
                    }
                }
                true
            },
            None => true,
        },
        None => true,
    }
}

/// Adds the instances that a manager lists to those found before.
fn collect(found: &mut Vec<Json>, body: &Json, manager: &ManagerEntry)
    requires
        instances_annotatable(Ok(body@)),
    ensures
        views(final(found)@) == views(old(found)@) + annotated_instances(Ok(body@), manager@),
{
    let ghost before = views(found@);
    let ghost listed = instances_in(Ok(body@));
    let ghost wanted = annotated_instances(Ok(body@), manager@);
    if let Some(member) = body.get("instances") {
        if let Some(items) = member.as_array() {
            for i in 0..items.len()
                invariant
                    listed == views(items@),
                    wanted == listed.map_values(|inst: JsonView| annotated(inst, manager@)),
                    forall|j: int| 0 <= j < listed.len() ==> takes_members(#[trigger] listed[j]),
                    views(found@) == before + wanted.take(i as int),
            {
                assert(listed[i as int] == items@[i as int]@);
                let ghost sofar = found@;
                let mut inst = items[i].clone();
                annotate(&mut inst, manager);
                assert(wanted[i as int] == inst@);
                found.push(inst);
                assert(views(found@) =~= views(sofar).push(inst@));
                assert(wanted.take(i + 1) =~= wanted.take(i as int).push(inst@));
            }
            assert(wanted.take(items@.len() as int) =~= wanted);
            return;
        }
    }
    assert(wanted =~= Seq::empty());
    assert(before + wanted =~= before);
}

impl ListDatabases {
    #[verifier::type_invariant]
    closed spec fn well_formed(self) -> bool {
        match self.phase {
            Phase::Asking | Phase::ReadingJson => self.at < self.managers@.len(),
            Phase::Answered => self.at == self.managers@.len(),
            _ => false,
        }
    }

    fn resume(managers: Vec<ManagerEntry>, at: usize, found: Vec<Json>) -> (r: (
        ListDatabases,
        Action,
    ))
        requires
            at <= managers@.len(),
        ensures
            r.0@ == listing_at(entry_views(managers@), at as nat, views(found@)),
            r.1@ == listing_asks(r.0@),
    {
        if at < managers.len() {
            let call = HttpCall {
                method: Method::Get,
                url: instances_url(&managers[at]),
                body: None,
                timeout_secs: 5,
            };
            assert(entry_views(managers@)[at as int] == managers@[at as int]@);
            (ListDatabases { managers, at, phase: Phase::Asking, found }, Action::Send(call))
        } else {
            let databases = found.clone();
            assert(views(databases@) =~= views(found@));
            let mut body = Json::empty_object();
            body.set("databases", Json::Array(databases));
            body.set("count", Json::Number(Number::Unsigned(found.len() as u64)));
            (
                ListDatabases { managers, at, phase: Phase::Answered, found },
                Action::Respond(Ok(body)),
            )
        }
    }

    /// Begins a listing that asks these managers, in this order.
    pub fn over(managers: Vec<ManagerEntry>) -> (r: (ListDatabases, Action))
        ensures
            r.0@ == listing_at(entry_views(managers@), 0, Seq::empty()),
            r.1@ == listing_asks(r.0@),
    {
        let found: Vec<Json> = Vec::new();
        assert(views(found@) =~= Seq::empty());
        ListDatabases::resume(managers, 0, found)
    }

    /// Whether `advance` may be called with the event.
    pub fn fits(&self, event: &Event) -> (r: bool)
        ensures
            r == listing_fits(self@, event@),
    {
        event_fits(self.phase, event) && match event {
            Event::Body(Ok(body)) => body_annotatable(body),
            _ => true,
        }
    }

    /// Takes what came of the last action, and says what is to be done next.
    pub fn advance(self, event: Event) -> (r: (ListDatabases, Action))
        requires
            listing_fits(self@, event@),
        ensures
            r.0@ == listing_next(self@, event@),
            r.1@ == listing_asks(r.0@),
    {
        proof {
            use_type_invariant(&self);
        }
        let ListDatabases { managers, at, phase, mut found } = self;
        assert(phase != Phase::Answered ==> at < managers.len());
        match event {
            Event::Status(_) => (
                ListDatabases { managers, at, phase: Phase::ReadingJson, found },
                Action::ReadJson,
            ),
            Event::Body(Ok(body)) => {
                assert(entry_views(managers@)[at as int] == managers@[at as int]@);
                collect(&mut found, &body, &managers[at]);
                ListDatabases::resume(managers, at + 1, found)
            },
            _ => ListDatabases::resume(managers, at + 1, found),
        }
    }
}

/// Begins a listing of the instances of every manager that is online.
pub fn list_databases(state: &MasterState) -> (r: (ListDatabases, Action))
    ensures
        consistent(state@),
        exists|managers: Seq<ManagerView>| #[trigger]
            enumerates(managers, online_of(state@)) && r.0@ == listing_at(
                managers,
                0,
                Seq::empty(),
            ),
        r.1@ == listing_asks(r.0@),
{
    let managers = state.online_managers();
    assert(enumerates(entry_views(managers@), online_of(state@)));
    ListDatabases::over(managers)
}

/// How much of a listing is left.
pub open spec fn listing_measure(listing: ListingView) -> int {
    let asking: int = if listing.phase is Asking {
        1
    } else {
        0
    };
    if listing.phase is Answered {
        0
    } else if listing.at < listing.managers.len() {
        2 + 2 * (listing.managers.len() - listing.at) + asking
    } else {
        1 + asking
    }
}

/// The actions of a whole listing from a point on, where the manager at each
/// position would answer as given. The last one carries the answer.
pub open spec fn listing_actions(listing: ListingView, answers: Seq<ManagerAnswer>) -> Seq<
    ActionView,
>
    decreases listing_measure(listing),
{
    if listing.phase is Answered {
        seq![listing_asks(listing)]
    } else {
        let event = event_from(listing.phase, answers[listing.at as int]);
        seq![listing_asks(listing)] + listing_actions(listing_next(listing, event), answers)
    }
}

/// What one manager contributes to a listing.
pub open spec fn contribution(manager: ManagerView, answer: ManagerAnswer) -> Seq<JsonView> {
    match answer {
        ManagerAnswer::Unreachable(_) => Seq::empty(),
        ManagerAnswer::Replied(_, json, _) => annotated_instances(json, manager),
    }
}

/// What the managers from a position on contribute, in their order.
pub open spec fn contributions(
    managers: Seq<ManagerView>,
    answers: Seq<ManagerAnswer>,
    at: nat,
) -> Seq<JsonView>
    decreases managers.len() - at,
{
    if at < managers.len() {
        contribution(managers[at as int], answers[at as int]) + contributions(
            managers,
            answers,
            at + 1,
        )
    } else {
        Seq::empty()
    }
}

/// Routing metadata can be added to whatever the manager lists.
pub open spec fn answer_annotatable(answer: ManagerAnswer) -> bool {
    answer matches ManagerAnswer::Replied(_, json, _) ==> instances_annotatable(json)
}

proof fn lemma_listing_from(
    managers: Seq<ManagerView>,
    answers: Seq<ManagerAnswer>,
    at: nat,
    found: Seq<JsonView>,
)
    requires
        at <= managers.len(),
        answers.len() == managers.len(),
    ensures
        ({
            let actions = listing_actions(listing_at(managers, at, found), answers);
            &&& actions.len() > 0
            &&& actions.last() == ActionView::Respond(
                Ok(database_list(found + contributions(managers, answers, at))),
            )
            &&& calls(actions) == managers.skip(at as int).map_values(
                |m: ManagerView| instances_call(m),
            )
        }),
    decreases managers.len() - at,
{
    reveal_with_fuel(listing_actions, 3);
    reveal_with_fuel(calls, 3);
    let listing = listing_at(managers, at, found);
    let actions = listing_actions(listing, answers);
    let requests = managers.skip(at as int).map_values(|m: ManagerView| instances_call(m));
    if at == managers.len() {
        assert(found + contributions(managers, answers, at) =~= found);
        assert(actions.skip(1) =~= Seq::empty());
        assert(calls(actions) =~= requests);
    } else {
        let manager = managers[at as int];
        let answer = answers[at as int];
        let more = found + contribution(manager, answer);
        lemma_listing_from(managers, answers, at + 1, more);
        let rest = listing_actions(listing_at(managers, at + 1, more), answers);
        assert(more + contributions(managers, answers, at + 1) =~= found + contributions(
            managers,
            answers,
            at,
        ));
        assert(managers.skip(at as int).map_values(|m: ManagerView| instances_call(m))
            =~= seq![instances_call(manager)] + managers.skip((at + 1) as int).map_values(
            |m: ManagerView| instances_call(m),
        ));
        match answer {
            ManagerAnswer::Unreachable(_) => {
                assert(more =~= found);
                assert(actions =~= seq![listing_asks(listing)] + rest);
                assert(actions.skip(1) =~= rest);
                assert(calls(actions) =~= requests);
            },
            ManagerAnswer::Replied(_, _, _) => {
                assert(actions =~= seq![listing_asks(listing), ActionView::ReadJson] + rest);
                assert(actions.skip(1) =~= seq![ActionView::ReadJson] + rest);
                assert(actions.skip(1).skip(1) =~= rest);
                assert(calls(actions.skip(1)) =~= calls(rest));
                assert(calls(actions) =~= requests);
            },
        }
    }
}

/// A listing asks every manager once, in order, and always succeeds. Its answer
/// holds what each manager contributes, in that order; one that is unreachable
/// contributes nothing and spoils nothing.
pub proof fn law_list_databases(managers: Seq<ManagerView>, answers: Seq<ManagerAnswer>)
    requires
        answers.len() == managers.len(),
        forall|i: int| 0 <= i < answers.len() ==> answer_annotatable(#[trigger] answers[i]),
    ensures
        ({
            let actions = listing_actions(listing_at(managers, 0, Seq::empty()), answers);
            &&& actions.last() == ActionView::Respond(
                Ok(database_list(contributions(managers, answers, 0))),
            )
            &&& calls(actions) == managers.map_values(|m: ManagerView| instances_call(m))
        }),
{
    lemma_listing_from(managers, answers, 0, Seq::empty());
    assert(Seq::<JsonView>::empty() + contributions(managers, answers, 0) =~= contributions(
        managers,
        answers,
        0,
    ));
    assert(managers.skip(0) =~= managers);
}

proof fn lemma_contributions_hold(
    managers: Seq<ManagerView>,
    answers: Seq<ManagerAnswer>,
    at: nat,
    inst: JsonView,
)
    requires
        answers.len() == managers.len(),
    ensures
        contributions(managers, answers, at).contains(inst) <==> exists|i: int|
            at <= i < managers.len() && #[trigger] contribution(managers[i], answers[i]).contains(
                inst,
            ),
    decreases managers.len() - at,
{
    if at < managers.len() {
        lemma_contributions_hold(managers, answers, at + 1, inst);
        let first = contribution(managers[at as int], answers[at as int]);
        let rest = contributions(managers, answers, at + 1);
        let all = contributions(managers, answers, at);
        if first.contains(inst) {
            let k = choose|k: int| 0 <= k < first.len() && first[k] == inst;
            assert(all[k] == inst);
        }
        if rest.contains(inst) {
            let k = choose|k: int| 0 <= k < rest.len() && rest[k] == inst;
            assert(all[first.len() + k] == inst);
        }
        if all.contains(inst) {
            let k = choose|k: int| 0 <= k < all.len() && all[k] == inst;
            if k < first.len() {
                assert(first[k] == inst);
            } else {
                assert(rest[k - first.len()] == inst);
            }
        }
    }
}

/// An instance is in the answer if and only if some manager that is online and
/// answers lists it, and it carries the routing metadata of that manager.
pub proof fn law_list_databases_complete(
    registry: Map<Seq<char>, ManagerView>,
    managers: Seq<ManagerView>,
    answer_of: spec_fn(ManagerView) -> ManagerAnswer,
    inst: JsonView,
)
    requires
        enumerates(managers, online_of(registry)),
    ensures
        contributions(managers, managers.map_values(answer_of), 0).contains(inst) <==> exists|
            id: Seq<char>,
        | #[trigger]
            online_of(registry).contains_key(id) && contribution(
                registry[id],
                answer_of(registry[id]),
            ).contains(inst),
{
    let online = online_of(registry);
    let answers = managers.map_values(answer_of);
    lemma_contributions_hold(managers, answers, 0, inst);
    if exists|id: Seq<char>| #[trigger]
        online.contains_key(id) && contribution(registry[id], answer_of(registry[id])).contains(
            inst,
        ) {
        let id = choose|id: Seq<char>| #[trigger]
            online.contains_key(id) && contribution(
                registry[id],
                answer_of(registry[id]),
            ).contains(inst);
        let i = choose|i: int| 0 <= i < managers.len() && #[trigger] managers[i] == online[id];
        assert(contribution(managers[i], answers[i]).contains(inst));
    }
    if exists|i: int|
        0 <= i < managers.len() && #[trigger] contribution(managers[i], answers[i]).contains(
            inst,
        ) {
        let i = choose|i: int|
            0 <= i < managers.len() && #[trigger] contribution(managers[i], answers[i]).contains(
                inst,
            );
        assert(online.contains_key(managers[i].server_id));
    }
}

proof fn lemma_contributions_shift(
    managers: Seq<ManagerView>,
    answers: Seq<ManagerAnswer>,
    at: nat,
)
    requires
        answers.len() == managers.len(),
        managers.len() > 0,
    ensures
        contributions(managers.skip(1), answers.skip(1), at) == contributions(
            managers,
            answers,
            at + 1,
        ),
    decreases managers.len() - at,
{
    if at + 1 < managers.len() {
        lemma_contributions_shift(managers, answers, at + 1);
    }
}

/// What managers contribute that answer as given.
pub open spec fn listed_by(
    managers: Seq<ManagerView>,
    answer_of: spec_fn(ManagerView) -> ManagerAnswer,
) -> Seq<JsonView> {
    contributions(managers, managers.map_values(answer_of), 0)
}

proof fn lemma_listed_first(
    managers: Seq<ManagerView>,
    answer_of: spec_fn(ManagerView) -> ManagerAnswer,
)
    requires
        managers.len() > 0,
    ensures
        listed_by(managers, answer_of) == contribution(managers[0], answer_of(managers[0]))
            + listed_by(managers.skip(1), answer_of),
{
    let answers = managers.map_values(answer_of);
    lemma_contributions_shift(managers, answers, 0);
    assert(managers.skip(1).map_values(answer_of) =~= answers.skip(1));
}

/// Taking one manager away takes away what it contributes.
proof fn lemma_listed_without(
    managers: Seq<ManagerView>,
    answer_of: spec_fn(ManagerView) -> ManagerAnswer,
    i: int,
)
    requires
        0 <= i < managers.len(),
    ensures
        listed_by(managers, answer_of).to_multiset() == contribution(
            managers[i],
            answer_of(managers[i]),
        ).to_multiset().add(listed_by(managers.remove(i), answer_of).to_multiset()),
    decreases managers.len(),
{
    lemma_listed_first(managers, answer_of);
    let first = contribution(managers[0], answer_of(managers[0]));
    let rest = managers.skip(1);
    lemma_multiset_commutative(first, listed_by(rest, answer_of));
    if i == 0 {
        assert(managers.remove(0) =~= rest);
    } else {
        let fewer = managers.remove(i);
        lemma_listed_without(rest, answer_of, i - 1);
        lemma_listed_first(fewer, answer_of);
        assert(fewer.skip(1) =~= rest.remove(i - 1));
        lemma_multiset_commutative(first, listed_by(fewer.skip(1), answer_of));
        assert(listed_by(managers, answer_of).to_multiset() =~= contribution(
            managers[i],
            answer_of(managers[i]),
        ).to_multiset().add(listed_by(fewer, answer_of).to_multiset()));
    }
}

proof fn lemma_listed_permuted(
    m1: Seq<ManagerView>,
    m2: Seq<ManagerView>,
    answer_of: spec_fn(ManagerView) -> ManagerAnswer,
)
    requires
        m1.to_multiset() == m2.to_multiset(),
    ensures
        listed_by(m1, answer_of).to_multiset() == listed_by(m2, answer_of).to_multiset(),
    decreases m1.len(),
{
    m1.to_multiset_ensures();
    m2.to_multiset_ensures();
    if m1.len() == 0 {
        assert(m1 =~= m2);
    } else {
        assert(m1.contains(m1[0]));
        assert(m2.to_multiset().count(m1[0]) > 0);
        let i = choose|i: int| 0 <= i < m2.len() && m2[i] == m1[0];
        lemma_listed_without(m1, answer_of, 0);
        lemma_listed_without(m2, answer_of, i);
        assert(m1.remove(0).to_multiset() =~= m2.remove(i).to_multiset());
        lemma_listed_permuted(m1.remove(0), m2.remove(i), answer_of);
    }
}

/// Each manager of a registry occurs once in an enumeration, and no other does.
proof fn lemma_enumeration_counts(
    managers: Seq<ManagerView>,
    registry: Map<Seq<char>, ManagerView>,
    manager: ManagerView,
)
    requires
        enumerates(managers, registry),
    ensures
        managers.to_multiset().count(manager) == if registry.contains_key(manager.server_id)
            && registry[manager.server_id] == manager {
            1nat
        } else {
            0nat
        },
{
    managers.to_multiset_ensures();
    assert forall|i: int, j: int| 0 <= i < managers.len() && 0 <= j < managers.len() && i != j
        implies managers[i] != managers[j] by {
        if i < j {
            assert(managers[i].server_id != managers[j].server_id);
        } else {
            assert(managers[j].server_id != managers[i].server_id);
        }
    }
    managers.lemma_multiset_has_no_duplicates();
    if registry.contains_key(manager.server_id) && registry[manager.server_id] == manager {
        let i = choose|i: int|
            0 <= i < managers.len() && #[trigger] managers[i] == registry[manager.server_id];
        assert(managers.contains(manager));
        assert(managers.to_multiset().contains(manager));
    } else if managers.contains(manager) {
        let i = choose|i: int| 0 <= i < managers.len() && managers[i] == manager;
        assert(registry[managers[i].server_id] == managers[i]);
    }
}

/// The order in which managers are asked does not decide what is found: every
/// instance occurs as often, and the count is the same.
pub proof fn law_listing_order_is_irrelevant(
    registry: Map<Seq<char>, ManagerView>,
    m1: Seq<ManagerView>,
    m2: Seq<ManagerView>,
    answer_of: spec_fn(ManagerView) -> ManagerAnswer,
)
    requires
        enumerates(m1, registry),
        enumerates(m2, registry),
    ensures
        contributions(m1, m1.map_values(answer_of), 0).to_multiset() == contributions(
            m2,
            m2.map_values(answer_of),
            0,
        ).to_multiset(),
        contributions(m1, m1.map_values(answer_of), 0).len() == contributions(
            m2,
            m2.map_values(answer_of),
            0,
        ).len(),
{
    assert forall|m: ManagerView| m1.to_multiset().count(m) == m2.to_multiset().count(m) by {
        lemma_enumeration_counts(m1, registry, m);
        lemma_enumeration_counts(m2, registry, m);
    }
    assert(m1.to_multiset() =~= m2.to_multiset());
    lemma_listed_permuted(m1, m2, answer_of);
    listed_by(m1, answer_of).to_multiset_ensures();
    listed_by(m2, answer_of).to_multiset_ensures();
}

/// One more manager that is unreachable changes neither what is found nor the
/// count.
pub proof fn law_unreachable_manager_changes_nothing(
    registry: Map<Seq<char>, ManagerView>,
    added: ManagerView,
    before: Seq<ManagerView>,
    after: Seq<ManagerView>,
    answer_of: spec_fn(ManagerView) -> ManagerAnswer,
)
    requires
        !registry.contains_key(added.server_id),
        answer_of(added) is Unreachable,
        enumerates(before, registry),
        enumerates(after, registry.insert(added.server_id, added)),
    ensures
        contributions(after, after.map_values(answer_of), 0).to_multiset() == contributions(
            before,
            before.map_values(answer_of),
            0,
        ).to_multiset(),
        contributions(after, after.map_values(answer_of), 0).len() == contributions(
            before,
            before.map_values(answer_of),
            0,
        ).len(),
{
    let larger = registry.insert(added.server_id, added);
    assert(larger.contains_key(added.server_id));
    let i = choose|i: int|
        0 <= i < after.len() && #[trigger] after[i] == larger[added.server_id];
    let rest = after.remove(i);
    after.to_multiset_ensures();
    assert forall|m: ManagerView| rest.to_multiset().count(m) == before.to_multiset().count(m) by {
        lemma_enumeration_counts(after, larger, m);
        lemma_enumeration_counts(before, registry, m);
    }
    assert(rest.to_multiset() =~= before.to_multiset());
    lemma_listed_without(after, answer_of, i);
    lemma_listed_permuted(rest, before, answer_of);
    let nothing = contribution(added, answer_of(added));
    nothing.to_multiset_ensures();
    assert(nothing.to_multiset().len() == 0);
    assert(listed_by(after, answer_of).to_multiset() =~= listed_by(
        before,
        answer_of,
    ).to_multiset());
    listed_by(after, answer_of).to_multiset_ensures();
    listed_by(before, answer_of).to_multiset_ensures();
}

/// Every event of a whole listing from a point on is one that it can take.
pub open spec fn listing_events_fit(listing: ListingView, answers: Seq<ManagerAnswer>) -> bool
    decreases listing_measure(listing),
{
    listing.phase is Answered || {
        let event = event_from(listing.phase, answers[listing.at as int]);
        listing_fits(listing, event) && listing_events_fit(listing_next(listing, event), answers)
    }
}

proof fn lemma_listing_events_fit(
    managers: Seq<ManagerView>,
    answers: Seq<ManagerAnswer>,
    at: nat,
    found: Seq<JsonView>,
)
    requires
        at <= managers.len(),
        answers.len() == managers.len(),
        forall|i: int| 0 <= i < answers.len() ==> answer_annotatable(#[trigger] answers[i]),
    ensures
        listing_events_fit(listing_at(managers, at, found), answers),
    decreases managers.len() - at,
{
    reveal_with_fuel(listing_events_fit, 3);
    if at < managers.len() {
        let answer = answers[at as int];
        assert(answer_annotatable(answer));
        lemma_listing_events_fit(managers, answers, at + 1, found);
        lemma_listing_events_fit(
            managers,
            answers,
            at + 1,
            found + contribution(managers[at as int], answer),
        );
    }
}

/// A listing never gets an event that it cannot take, where routing metadata
/// can be added to whatever the managers list.
pub proof fn law_listing_events_fit(managers: Seq<ManagerView>, answers: Seq<ManagerAnswer>)
    requires
        answers.len() == managers.len(),
        forall|i: int| 0 <= i < answers.len() ==> answer_annotatable(#[trigger] answers[i]),
    ensures
        listing_events_fit(listing_at(managers, 0, Seq::empty()), answers),
{
    lemma_listing_events_fit(managers, answers, 0, Seq::empty());
}

} // verus!
