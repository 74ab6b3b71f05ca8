//! Finding one database instance across all managers, to show or to delete it.
use vstd::prelude::*;

use crate::http::{
    annotate, annotated, calls, event_fits, event_from, fits_phase, instance_url, instance_url_of, is_success,
    succeeds, success, Action, ActionView, Event, EventView, HttpCall, HttpCallView, ManagerAnswer,
    Method, Phase,
};
use crate::json::{takes_members, Json, JsonView};
use crate::manager::{ManagerEntry, ManagerView};
use crate::registry::{consistent, entry_views, enumerates, MasterState};
use crate::reply::{api_err, not_found, refusal, ApiErrorView};

verus! {

/// What an instance is looked for.
#[derive(Debug, Clone, Copy, PartialEq, Eq, Structural)]
pub enum Purpose {
    /// To show it.
    Show,
    /// To stop and remove it.
    Delete,
}

/// Where a lookup stands: the manager that is being asked.
pub struct LookupView {
    pub purpose: Purpose,
    pub managers: Seq<ManagerView>,
    pub db_id: Seq<char>,
    pub at: nat,
    pub phase: Phase,
}

/// The request for an instance of a manager.
pub open spec fn instance_call(
    purpose: Purpose,
    manager: ManagerView,
    db_id: Seq<char>,
) -> HttpCallView {
    HttpCallView {
        method: match purpose {
            Purpose::Show => Method::Get,
            Purpose::Delete => Method::Delete,
        },
        url: instance_url_of(manager, db_id),
        body: None,
        timeout_secs: match purpose {
            Purpose::Show => 5,
            Purpose::Delete => 10,
        },
    }
}

/// The answer when no manager has the instance.
pub open spec fn database_not_found(db_id: Seq<char>) -> ApiErrorView {
    refusal(404, "Database '"@ + db_id + "' not found"@)
}

/// The answer when the instance was deleted.
pub open spec fn deleted(db_id: Seq<char>) -> JsonView {
    JsonView::Object(
        map!["status"@ => JsonView::Str("deleted"@), "id"@ => JsonView::Str(db_id)],
    )
}

/// The answer when a manager shows the instance: what it shows, with its
/// routing metadata.
pub open spec fn shown(
    body: Result<JsonView, Seq<char>>,
    manager: ManagerView,
) -> Result<JsonView, ApiErrorView> {
    match body {
        Ok(doc) => Ok(annotated(doc, manager)),
        Err(e) => Err(refusal(400, "Bad response: "@ + e)),
    }
}

/// A lookup that asks the manager at a position, or gives up behind the last.
pub open spec fn lookup_at(lookup: LookupView, at: nat) -> (LookupView, ActionView) {
    if at < lookup.managers.len() {
        (
            LookupView { at, phase: Phase::Asking, ..lookup },
            ActionView::Send(
                instance_call(lookup.purpose, lookup.managers[at as int], lookup.db_id),
            ),
        )
    } else {
        (
            LookupView { at, phase: Phase::Answered, ..lookup },
            ActionView::Respond(Err(database_not_found(lookup.db_id))),
        )
    }
}

/// A lookup that has not asked anyone yet.
pub open spec fn lookup_start(
    purpose: Purpose,
    managers: Seq<ManagerView>,
    db_id: Seq<char>,
) -> (LookupView, ActionView) {
    lookup_at(LookupView { purpose, managers, db_id, at: 0, phase: Phase::Asking }, 0)
}

/// What an event makes of a lookup, and what is to be done next. The first
/// manager that reports success decides; one that is unreachable, or that
/// reports anything else, is passed over.
pub open spec fn lookup_next(lookup: LookupView, event: EventView) -> (LookupView, ActionView) {
    let over = LookupView { phase: Phase::Answered, ..lookup };
    match event {
        EventView::Status(status) => if !is_success(status) {
            lookup_at(lookup, lookup.at + 1)
        } else {
            match lookup.purpose {
                Purpose::Show => (
                    LookupView { phase: Phase::ReadingJson, ..lookup },
                    ActionView::ReadJson,
                ),
                Purpose::Delete => (over, ActionView::Respond(Ok(deleted(lookup.db_id)))),
            }
        },
        EventView::Body(body) => (
            over,
            ActionView::Respond(shown(body, lookup.managers[lookup.at as int])),
        ),
        _ => lookup_at(lookup, lookup.at + 1),
    }
}

/// Routing metadata can be added to the body, if it is a JSON document.
pub open spec fn body_takes_members(body: Result<JsonView, Seq<char>>) -> bool {
    body matches Ok(doc) ==> takes_members(doc)
}

/// Whether a lookup can take an event: it waits for one of this kind, and
/// routing metadata can be added to the body.
pub open spec fn lookup_fits(lookup: LookupView, event: EventView) -> bool {
    fits_phase(lookup.phase, event) && (event matches EventView::Body(body) ==> body_takes_members(
        body,
    ))
}

/// A lookup under way.
pub struct Lookup {
    purpose: Purpose,
    managers: Vec<ManagerEntry>,
    db_id: String,
    at: usize,
    phase: Phase,
}

impl View for Lookup {
    type V = LookupView;

    closed spec fn view(&self) -> LookupView {
        LookupView {
            purpose: self.purpose,
            managers: entry_views(self.managers@),
            db_id: self.db_id@,
            at: self.at as nat,
            phase: self.phase,
        }
    }
}

impl Lookup {
    #[verifier::type_invariant]
    closed spec fn well_formed(self) -> bool {
        match self.phase {
            Phase::Asking | Phase::ReadingJson => self.at < self.managers@.len(),
            Phase::Answered => self.at <= self.managers@.len(),
            _ => false,
        }
    }

    fn resume(purpose: Purpose, managers: Vec<ManagerEntry>, db_id: String, at: usize) -> (r: (
        Lookup,
        Action,
    ))
        requires
            at <= managers@.len(),
        ensures
            (r.0@, r.1@) == lookup_at(
                LookupView {
                    purpose,
                    managers: entry_views(managers@),
                    db_id: db_id@,
                    at: 0,
                    phase: Phase::Asking,
                },
                at as nat,
            ),
    {
        if at < managers.len() {
            assert(entry_views(managers@)[at as int] == managers@[at as int]@);
            let url = instance_url(&managers[at], db_id.as_str());
            let call = match purpose {
                Purpose::Show => HttpCall {
                    method: Method::Get,
                    url,
                    body: None,
                    timeout_secs: 5,
                },
                Purpose::Delete => HttpCall {
                    method: Method::Delete,
                    url,
                    body: None,
                    timeout_secs: 10,
                },
            };
            (Lookup { purpose, managers, db_id, at, phase: Phase::Asking }, Action::Send(call))
        } else {
            let mut msg = "Database '".to_string();
            msg.append(db_id.as_str());
            msg.append("' not found");
            let answer = Action::Respond(Err(not_found(msg.as_str())));
            (Lookup { purpose, managers, db_id, at, phase: Phase::Answered }, answer)
        }
    }

    /// Begins a lookup that asks these managers, in this order.
    pub fn over(purpose: Purpose, managers: Vec<ManagerEntry>, db_id: String) -> (r: (
        Lookup,
        Action,
    ))
        ensures
            (r.0@, r.1@) == lookup_start(purpose, entry_views(managers@), db_id@),
    {
        Lookup::resume(purpose, managers, db_id, 0)
    }

    /// Whether `advance` may be called with the event.
    pub fn fits(&self, event: &Event) -> (r: bool)
        ensures
            r == lookup_fits(self@, event@),
    {
        event_fits(self.phase, event) && match event {
            Event::Body(Ok(doc)) => doc.takes_members(),
            _ => true,
        }
    }

    /// Takes what came of the last action, and says what is to be done next.
    pub fn advance(self, event: Event) -> (r: (Lookup, Action))
        requires
            lookup_fits(self@, event@),
        ensures
            (r.0@, r.1@) == lookup_next(self@, event@),
    {
        proof {
            use_type_invariant(&self);
        }
        let Lookup { purpose, managers, db_id, at, phase } = self;
        assert(phase != Phase::Answered ==> at < managers.len());
        match event {
            Event::Status(status) => if !success(status) {
                Lookup::resume(purpose, managers, db_id, at + 1)
            } else {
                match purpose {
                    Purpose::Show => (
                        Lookup { purpose, managers, db_id, at, phase: Phase::ReadingJson },
                        Action::ReadJson,
                    ),
                    Purpose::Delete => {
                        let mut body = Json::empty_object();
                        body.set("status", Json::text("deleted"));
                        body.set("id", Json::text(db_id.as_str()));
                        (
                            Lookup { purpose, managers, db_id, at, phase: Phase::Answered },
                            Action::Respond(Ok(body)),
                        )
                    },
                }
            },
            Event::Body(body) => {
                assert(entry_views(managers@)[at as int] == managers@[at as int]@);
                let answer = match body {
                    Ok(mut doc) => {
                        annotate(&mut doc, &managers[at]);
                        Ok(doc)
                    },
                    Err(e) => {
                        let mut msg = "Bad response: ".to_string();
                        msg.append(e.as_str());
                        Err(api_err(msg.as_str()))
                    },
                };
                (
                    Lookup { purpose, managers, db_id, at, phase: Phase::Answered },
                    Action::Respond(answer),
                )
            },
            _ => Lookup::resume(purpose, managers, db_id, at + 1),
        }
    }
}

/// Begins to look for an instance across all registered managers, to show it.
pub fn get_database(state: &MasterState, db_id: String) -> (r: (Lookup, Action))
    ensures
        consistent(state@),
        exists|managers: Seq<ManagerView>| #[trigger]
            enumerates(managers, state@) && (r.0@, r.1@) == lookup_start(
                Purpose::Show,
                managers,
                db_id@,
            ),
{
    let managers = state.managers();
    assert(enumerates(entry_views(managers@), state@));
    Lookup::over(Purpose::Show, managers, db_id)
}

/// Begins to look for an instance across all registered managers, to stop and
/// remove it.
pub fn delete_database(state: &MasterState, db_id: String) -> (r: (Lookup, Action))
    ensures
        consistent(state@),
        exists|managers: Seq<ManagerView>| #[trigger]
            enumerates(managers, state@) && (r.0@, r.1@) == lookup_start(
                Purpose::Delete,
                managers,
                db_id@,
            ),
{
    let managers = state.managers();
    assert(enumerates(entry_views(managers@), state@));
    Lookup::over(Purpose::Delete, managers, db_id)
}

/// How much of a lookup is left.
pub open spec fn lookup_measure(lookup: LookupView) -> int {
    let asking: int = if lookup.phase is Asking {
        1
    } else {
        0
    };
    if lookup.phase is Answered {
        0
    } else if lookup.at < lookup.managers.len() {
        2 + 2 * (lookup.managers.len() - lookup.at) + asking
    } else {
        1 + asking
    }
}

/// The actions of a whole lookup from a point on, where the manager at each
/// position would answer as given. The last one carries the answer.
pub open spec fn lookup_actions(
    lookup: LookupView,
    action: ActionView,
    answers: Seq<ManagerAnswer>,
) -> Seq<ActionView>
    decreases lookup_measure(lookup),
{
    if lookup.phase is Answered {
        seq![action]
    } else {
        let event = event_from(lookup.phase, answers[lookup.at as int]);
        let (after, next) = lookup_next(lookup, event);
        seq![action] + lookup_actions(after, next, answers)
    }
}

/// The position is that of the first manager that reports success.
pub open spec fn first_success(answers: Seq<ManagerAnswer>, at: int) -> bool {
    &&& 0 <= at < answers.len()
    &&& succeeds(answers[at])
    &&& forall|i: int| 0 <= i < at ==> !succeeds(#[trigger] answers[i])
}

/// What the lookup answers when a manager reports success.
pub open spec fn success_answer(
    purpose: Purpose,
    manager: ManagerView,
    db_id: Seq<char>,
    answer: ManagerAnswer,
) -> Result<JsonView, ApiErrorView>
    recommends
        succeeds(answer),
{
    match purpose {
        Purpose::Show => shown(answer->Replied_1, manager),
        Purpose::Delete => Ok(deleted(db_id)),
    }
}

/// The requests to the managers between two positions.
pub open spec fn lookup_calls(
    purpose: Purpose,
    managers: Seq<ManagerView>,
    db_id: Seq<char>,
    from: int,
    to: int,
) -> Seq<HttpCallView> {
    Seq::new((to - from) as nat, |i: int| instance_call(purpose, managers[from + i], db_id))
}

proof fn lemma_lookup_hit(lookup: LookupView, answers: Seq<ManagerAnswer>, at: nat, hit: int)
    requires
        answers.len() == lookup.managers.len(),
        at <= hit < answers.len(),
        succeeds(answers[hit]),
        forall|i: int| at <= i < hit ==> !succeeds(#[trigger] answers[i]),
    ensures
        ({
            let (start, first) = lookup_at(lookup, at);
            let actions = lookup_actions(start, first, answers);
            &&& actions.len() > 0
            &&& actions.last() == ActionView::Respond(
                success_answer(
                    lookup.purpose,
                    lookup.managers[hit],
                    lookup.db_id,
                    answers[hit],
                ),
            )
            &&& calls(actions) == lookup_calls(
                lookup.purpose,
                lookup.managers,
                lookup.db_id,
                at as int,
                hit + 1,
            )
        }),
    decreases hit - at,
{
    reveal_with_fuel(lookup_actions, 4);
    reveal_with_fuel(calls, 4);
    let (start, first) = lookup_at(lookup, at);
    let actions = lookup_actions(start, first, answers);
    let wanted = lookup_calls(lookup.purpose, lookup.managers, lookup.db_id, at as int, hit + 1);
    if at == hit {
        match lookup.purpose {
            Purpose::Show => {
                assert(actions.len() == 3);
                assert(actions.skip(1).skip(1).skip(1) =~= Seq::empty());
            },
            Purpose::Delete => {
                assert(actions.len() == 2);
                assert(actions.skip(1).skip(1) =~= Seq::empty());
            },
        }
        assert(calls(actions) =~= wanted);
    } else {
        assert(!succeeds(answers[at as int]));
        lemma_lookup_hit(lookup, answers, at + 1, hit);
        let (after, next) = lookup_at(lookup, at + 1);
        let rest = lookup_actions(after, next, answers);
        assert(lookup_next(start, event_from(start.phase, answers[at as int])) == (after, next));
        assert(actions =~= seq![first] + rest);
        assert(actions.skip(1) =~= rest);
        assert(calls(actions) =~= wanted);
    }
}

proof fn lemma_lookup_miss(lookup: LookupView, answers: Seq<ManagerAnswer>, at: nat)
    requires
        answers.len() == lookup.managers.len(),
        at <= answers.len(),
        forall|i: int| at <= i < answers.len() ==> !succeeds(#[trigger] answers[i]),
    ensures
        ({
            let (start, first) = lookup_at(lookup, at);
            let actions = lookup_actions(start, first, answers);
            &&& actions.len() > 0
            &&& actions.last() == ActionView::Respond(Err(database_not_found(lookup.db_id)))
            &&& calls(actions) == lookup_calls(
                lookup.purpose,
                lookup.managers,
                lookup.db_id,
                at as int,
                lookup.managers.len() as int,
            )
        }),
    decreases answers.len() - at,
{
    reveal_with_fuel(lookup_actions, 2);
    reveal_with_fuel(calls, 2);
    let (start, first) = lookup_at(lookup, at);
    let actions = lookup_actions(start, first, answers);
    let wanted = lookup_calls(
        lookup.purpose,
        lookup.managers,
        lookup.db_id,
        at as int,
        lookup.managers.len() as int,
    );
    if at == answers.len() {
        assert(actions.skip(1) =~= Seq::empty());
        assert(calls(actions) =~= wanted);
    } else {
        assert(!succeeds(answers[at as int]));
        lemma_lookup_miss(lookup, answers, at + 1);
        let (after, next) = lookup_at(lookup, at + 1);
        let rest = lookup_actions(after, next, answers);
        assert(lookup_next(start, event_from(start.phase, answers[at as int])) == (after, next));
        assert(actions =~= seq![first] + rest);
        assert(actions.skip(1) =~= rest);
        assert(calls(actions) =~= wanted);
    }
}

/// The first manager that reports success decides the answer, and no manager
/// behind it is asked.
pub proof fn law_lookup_first_success(
    purpose: Purpose,
    managers: Seq<ManagerView>,
    db_id: Seq<char>,
    answers: Seq<ManagerAnswer>,
    at: int,
)
    requires
        answers.len() == managers.len(),
        first_success(answers, at),
        purpose is Show ==> body_takes_members(answers[at]->Replied_1),
    ensures
        ({
            let (start, first) = lookup_start(purpose, managers, db_id);
            let actions = lookup_actions(start, first, answers);
            &&& actions.last() == ActionView::Respond(
                success_answer(purpose, managers[at], db_id, answers[at]),
            )
            &&& calls(actions) == lookup_calls(purpose, managers, db_id, 0, at + 1)
        }),
{
    let lookup = LookupView { purpose, managers, db_id, at: 0, phase: Phase::Asking };
    lemma_lookup_hit(lookup, answers, 0, at);
}

/// Where no manager reports success, every one was asked once, in order, and
/// the answer is that there is no such database.
pub proof fn law_lookup_not_found(
    purpose: Purpose,
    managers: Seq<ManagerView>,
    db_id: Seq<char>,
    answers: Seq<ManagerAnswer>,
)
    requires
        answers.len() == managers.len(),
        forall|i: int| 0 <= i < answers.len() ==> !succeeds(#[trigger] answers[i]),
    ensures
        ({
            let (start, first) = lookup_start(purpose, managers, db_id);
            let actions = lookup_actions(start, first, answers);
            &&& actions.last() == ActionView::Respond(Err(database_not_found(db_id)))
            &&& calls(actions) == lookup_calls(
                purpose,
                managers,
                db_id,
                0,
                managers.len() as int,
            )
        }),
{
    let lookup = LookupView { purpose, managers, db_id, at: 0, phase: Phase::Asking };
    lemma_lookup_miss(lookup, answers, 0);
}

/// Every event of a whole lookup from a point on is one that it can take.
pub open spec fn lookup_events_fit(lookup: LookupView, answers: Seq<ManagerAnswer>) -> bool
    decreases lookup_measure(lookup),
{
    lookup.phase is Answered || {
        let event = event_from(lookup.phase, answers[lookup.at as int]);
        lookup_fits(lookup, event) && lookup_events_fit(lookup_next(lookup, event).0, answers)
    }
}

proof fn lemma_lookup_events_fit(lookup: LookupView, answers: Seq<ManagerAnswer>, at: nat)
    requires
        answers.len() == lookup.managers.len(),
        at <= answers.len(),
        forall|i: int| 0 <= i < at ==> !succeeds(#[trigger] answers[i]),
        lookup.purpose is Show ==> forall|i: int| #[trigger]
            first_success(answers, i) ==> body_takes_members(answers[i]->Replied_1),
    ensures
        lookup_events_fit(lookup_at(lookup, at).0, answers),
    decreases answers.len() - at,
{
    reveal_with_fuel(lookup_events_fit, 3);
    if at < answers.len() {
        if succeeds(answers[at as int]) {
            assert(first_success(answers, at as int));
        } else {
            lemma_lookup_events_fit(lookup, answers, at + 1);
            let start = lookup_at(lookup, at).0;
            assert(lookup_next(start, event_from(start.phase, answers[at as int]))
                == lookup_at(lookup, at + 1));
        }
    }
}

/// A lookup never gets an event that it cannot take, where routing metadata can
/// be added to what the first manager shows that reports success.
pub proof fn law_lookup_events_fit(
    purpose: Purpose,
    managers: Seq<ManagerView>,
    db_id: Seq<char>,
    answers: Seq<ManagerAnswer>,
)
    requires
        answers.len() == managers.len(),
        purpose is Show ==> forall|i: int| #[trigger]
            first_success(answers, i) ==> body_takes_members(answers[i]->Replied_1),
    ensures
        lookup_events_fit(lookup_start(purpose, managers, db_id).0, answers),
{
    let lookup = LookupView { purpose, managers, db_id, at: 0, phase: Phase::Asking };
    lemma_lookup_events_fit(lookup, answers, 0);
}

} // verus!
