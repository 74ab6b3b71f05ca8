//! What the registry holds after each operation, and how it is listed.
use vstd::prelude::*;

use crate::json::{Json, JsonView, Number};
use crate::laws::documents::{member, only_members};
use crate::laws::requests::says;
use crate::manager::{manager_url, ManagerEntry, ManagerView};
use crate::orders::manager_for_order;
use crate::registry::MasterState;
use crate::reply::ApiError;
use crate::servers::{
    finish_provision, list_managers, list_servers, manager_register, plan_server,
    record_provisioned, record_registered, LaunchOutcome, ManagerRegisterRequest, ProvisionPlan,
    ProvisionServerRequest,
};
use crate::ssh::{SshAction, SshLaunch};
use crate::text::{decimal, decimal_text};

verus! {

/// Two entries say the same, field by field.
pub open spec fn same_entry(a: ManagerEntry, b: ManagerEntry) -> bool {
    &&& a.server_id@ == b.server_id@
    &&& a.ip@ == b.ip@
    &&& a.region@ == b.region@
    &&& a.manager_port == b.manager_port
    &&& a.registered_at@ == b.registered_at@
    &&& a.status@ == b.status@
}

/// Two lookups of the registry find the same.
pub open spec fn same_found(a: Option<&ManagerEntry>, b: Option<&ManagerEntry>) -> bool {
    match (a, b) {
        (Some(x), Some(y)) => same_entry(*x, *y),
        (None, None) => true,
        _ => false,
    }
}

/// What an entry says is what its fields hold.
pub proof fn law_entries_say_what_they_hold(entry: ManagerEntry)
    ensures
        entry@.server_id == entry.server_id@,
        entry@.ip == entry.ip@,
        entry@.region == entry.region@,
        entry@.manager_port == entry.manager_port,
        entry@.registered_at == entry.registered_at@,
        entry@.status == entry.status@,
{
}

/// A copy of an entry says the same; an entry is online if and only if that is
/// its status; and the address of a manager is made of its address and port.
pub proof fn law_reading_entries(
    entry: ManagerEntry,
    copy: ManagerEntry,
    online: bool,
    ip: &str,
    port: u16,
    url: String,
)
    requires
        call_ensures(ManagerEntry::clone, (&entry,), copy),
        call_ensures(ManagerEntry::is_online, (&entry,), online),
        call_ensures(manager_url, (ip, port), url),
    ensures
        same_entry(copy, entry),
        online <==> entry.status@ == "online"@,
        url@ == "http://"@ + ip@ + ":"@ + decimal(port as nat),
{
}

/// A new registry knows nobody.
pub proof fn law_new_registry(
    state: MasterState,
    id: String,
    found: Option<&ManagerEntry>,
    all: Vec<ManagerEntry>,
)
    requires
        call_ensures(MasterState::default, (), state),
        call_ensures(MasterState::get, (&state, &id), found),
        call_ensures(MasterState::managers, (&state,), all),
    ensures
        found is None,
        all@.len() == 0,
{
    assert(crate::registry::entry_views(all@).len() == all@.len());
}

/// A manager that registers is found under its id as it registered, whatever
/// stood there before, and every other server is found as before. The answer
/// repeats the id.
pub proof fn law_registering(
    state: &mut MasterState,
    req: &ManagerRegisterRequest,
    at: String,
    r: Json,
    id: String,
    before: Option<&ManagerEntry>,
    after: Option<&ManagerEntry>,
)
    requires
        call_ensures(record_registered, (state, req, at), r),
        call_ensures(MasterState::get, (&*old(state), &id), before),
        call_ensures(MasterState::get, (&*final(state), &id), after),
    ensures
        id@ != req.server_id@ ==> same_found(before, after),
        id@ == req.server_id@ ==> (after matches Some(entry) && {
            &&& entry.server_id@ == req.server_id@
            &&& entry.ip@ == req.ip@
            &&& entry.region@ == req.region@
            &&& entry.manager_port == req.manager_port
            &&& entry.registered_at@ == at@
            &&& entry.status@ == "online"@
        }),
        member(r@, "status"@) == Some(JsonView::Str("registered"@)),
        member(r@, "server_id"@) == Some(JsonView::Str(req.server_id@)),
        only_members(r@, seq!["status"@, "server_id"@]),
{
    lemma_names();
    let names = seq!["status"@, "server_id"@];
    assert(names[0] == "status"@ && names[1] == "server_id"@);
}

/// The text ends like a time in UTC.
pub open spec fn ends_in_utc(s: Seq<char>) -> bool {
    s.len() >= 25 && s.skip(s.len() - 6) == "+00:00"@
}

/// A manager that registers now is found as it registered, with the time; every
/// other server is found as before.
pub proof fn law_registering_now(
    state: &mut MasterState,
    req: &ManagerRegisterRequest,
    r: Json,
    id: String,
    before: Option<&ManagerEntry>,
    after: Option<&ManagerEntry>,
)
    requires
        call_ensures(manager_register, (state, req), r),
        call_ensures(MasterState::get, (&*old(state), &id), before),
        call_ensures(MasterState::get, (&*final(state), &id), after),
    ensures
        id@ != req.server_id@ ==> same_found(before, after),
        id@ == req.server_id@ ==> (after matches Some(entry) && {
            &&& entry.server_id@ == req.server_id@
            &&& entry.ip@ == req.ip@
            &&& entry.region@ == req.region@
            &&& entry.manager_port == req.manager_port
            &&& ends_in_utc(entry.registered_at@)
            &&& entry.status@ == "online"@
        }),
        member(r@, "status"@) == Some(JsonView::Str("registered"@)),
        member(r@, "server_id"@) == Some(JsonView::Str(req.server_id@)),
{
    lemma_names();
}

/// The answer to a request that started a manager: the id and the address of
/// the manager that was started.
pub open spec fn announces(answer: JsonView, plan: ProvisionPlan) -> bool {
    &&& member(answer, "server_id"@) == Some(JsonView::Str(plan.server_id@))
    &&& member(answer, "status"@) == Some(JsonView::Str("provisioning"@))
    &&& member(answer, "message"@) == Some(
        JsonView::Str("Manager process started via SSH; it will register shortly."@),
    )
    &&& member(answer, "manager_url"@) == Some(
        JsonView::Str("http://"@ + plan.ip@ + ":"@ + decimal(plan.manager_port as nat)),
    )
    &&& only_members(answer, seq!["server_id"@, "status"@, "message"@, "manager_url"@])
}

/// The entry of a manager that was started with a plan and has not called back.
pub open spec fn awaited(entry: ManagerEntry, plan: ProvisionPlan) -> bool {
    &&& entry.server_id@ == plan.server_id@
    &&& entry.ip@ == plan.ip@
    &&& entry.region@ == plan.region@
    &&& entry.manager_port == plan.manager_port
    &&& entry.status@ == "provisioning"@
}

/// A manager that was started is found under its id, at the address, the port
/// and in the region that it was started with, and the caller is told that
/// address. Only a manager that is online under that id stays as it was. Every
/// other server is found as before.
pub proof fn law_provisioning(
    state: &mut MasterState,
    plan: &ProvisionPlan,
    at: String,
    r: Json,
    id: String,
    before: Option<&ManagerEntry>,
    after: Option<&ManagerEntry>,
)
    requires
        call_ensures(record_provisioned, (state, plan, at), r),
        call_ensures(MasterState::get, (&*old(state), &id), before),
        call_ensures(MasterState::get, (&*final(state), &id), after),
    ensures
        id@ != plan.server_id@ ==> same_found(before, after),
        id@ == plan.server_id@ ==> if before is Some && before->0.status@ == "online"@ {
            same_found(before, after)
        } else {
            after matches Some(entry) && awaited(*entry, *plan) && entry.registered_at@ == at@
        },
        announces(r@, *plan),
{
    lemma_names();
    let names = seq!["server_id"@, "status"@, "message"@, "manager_url"@];
    assert(names[0] == "server_id"@ && names[1] == "status"@ && names[2] == "message"@ && names[3]
        == "manager_url"@);
}

/// The port that the caller is told, that the registry holds and that the
/// command starts the manager with is one: that of the request, if it names
/// one.
pub proof fn law_one_port(
    req: &ProvisionServerRequest,
    master_url: String,
    server_id: String,
    plan: ProvisionPlan,
    launch: (SshLaunch, SshAction),
    digits: String,
    state: &mut MasterState,
    at: String,
    r: Json,
    entry: ManagerEntry,
    port: u16,
)
    requires
        req.manager_port == Some(port),
        call_ensures(decimal_text, (port as u64,), digits),
        call_ensures(plan_server, (req, master_url, server_id), plan),
        call_ensures(ProvisionPlan::launch, (&plan,), launch),
        call_ensures(record_provisioned, (state, &plan, at), r),
        call_ensures(MasterState::get, (&*final(state), &plan.server_id), Some(&entry)),
        entry.status@ != "online"@,
    ensures
        entry.manager_port == port,
        exists|before: Seq<char>, behind: Seq<char>|
            launch.0.cmd@ == #[trigger] (before + " --port "@ + digits@ + " --region "@ + behind),
        member(r@, "manager_url"@) == Some(
            JsonView::Str("http://"@ + req.ip@ + ":"@ + digits@),
        ),
{
    lemma_names();
    let before = "nohup "@ + plan.binary_path@ + " --server-id "@ + plan.server_id@
        + " --master-url "@ + plan.master_url@;
    let behind = plan.region@ + " > "@ + crate::ssh::log_path_of(plan.server_id@) + " 2>&1 &"@;
    assert(launch.0.cmd@ =~= before + " --port "@ + digits@ + " --region "@ + behind);
}

/// The end of a provisioning: a started manager is found and announced as
/// above, with the time; an attempt that failed is refused with its reason and
/// leaves every server as it was.
pub proof fn law_finishing_provision(
    state: &mut MasterState,
    plan: &ProvisionPlan,
    outcome: LaunchOutcome,
    r: Result<Json, ApiError>,
    id: String,
    before: Option<&ManagerEntry>,
    after: Option<&ManagerEntry>,
)
    requires
        call_ensures(finish_provision, (state, plan, outcome), r),
        call_ensures(MasterState::get, (&*old(state), &id), before),
        call_ensures(MasterState::get, (&*final(state), &id), after),
    ensures
        outcome == LaunchOutcome::Ended(Ok(())) ==> {
            &&& r matches Ok(answer) && announces(answer@, *plan)
            &&& id@ != plan.server_id@ ==> same_found(before, after)
            &&& id@ == plan.server_id@ ==> if before is Some && before->0.status@ == "online"@ {
                same_found(before, after)
            } else {
                after matches Some(entry) && awaited(*entry, *plan) && ends_in_utc(
                    entry.registered_at@,
                )
            }
        },
        outcome matches LaunchOutcome::Lost(e) ==> {
            &&& same_found(before, after)
            &&& r matches Err(refused) && says(refused, 400, "Spawn error: "@ + e@)
        },
        outcome matches LaunchOutcome::Ended(Err(e)) ==> {
            &&& same_found(before, after)
            &&& r matches Err(refused) && says(refused, 400, "SSH provisioning failed: "@ + e@)
        },
{
    assert(seq!["error"@][0] == "error"@);
    lemma_names();
    let names = seq!["server_id"@, "status"@, "message"@, "manager_url"@];
    assert(names[0] == "server_id"@ && names[1] == "status"@ && names[2] == "message"@ && names[3]
        == "manager_url"@);
}

/// Whatever the registry finds under an id has that id, and is online or
/// provisioning.
pub proof fn law_found_under_its_id(state: MasterState, id: String, found: Option<&ManagerEntry>)
    requires
        call_ensures(MasterState::get, (&state, &id), found),
    ensures
        found matches Some(entry) ==> entry.server_id@ == id@ && (entry.status@ == "online"@
            || entry.status@ == "provisioning"@),
{
}

/// The list of all managers holds what is found under each id, once.
pub proof fn law_all_managers(
    state: MasterState,
    all: Vec<ManagerEntry>,
    id: String,
    found: Option<&ManagerEntry>,
)
    requires
        call_ensures(MasterState::managers, (&state,), all),
        call_ensures(MasterState::get, (&state, &id), found),
    ensures
        found matches Some(entry) ==> exists|i: int|
            0 <= i < all@.len() && same_entry(#[trigger] all@[i], *entry),
        forall|i: int|
            0 <= i < all@.len() && (#[trigger] all@[i]).server_id@ == id@ ==> (
            found matches Some(entry) && same_entry(all@[i], *entry)),
        forall|i: int, j: int|
            0 <= i < j < all@.len() ==> (#[trigger] all@[i]).server_id@ != (
            #[trigger] all@[j]).server_id@,
{
    let views = crate::registry::entry_views(all@);
    assert forall|i: int, j: int| 0 <= i < j < all@.len() implies (
    #[trigger] all@[i]).server_id@ != (#[trigger] all@[j]).server_id@ by {
        assert(views[i].server_id != views[j].server_id);
    }
    assert forall|i: int|
        0 <= i < all@.len() && (#[trigger] all@[i]).server_id@ == id@ implies (
    found matches Some(entry) && same_entry(all@[i], *entry)) by {
        assert(views[i] == all@[i]@);
    }
    if let Some(entry) = found {
        let i = choose|i: int| 0 <= i < views.len() && #[trigger] views[i] == state@[id@];
        assert(same_entry(all@[i], *entry));
    }
}

/// The list of managers that are online holds those of all whose status is
/// "online", each once, and no other.
pub proof fn law_online_managers(
    state: MasterState,
    all: Vec<ManagerEntry>,
    online: Vec<ManagerEntry>,
)
    requires
        call_ensures(MasterState::managers, (&state,), all),
        call_ensures(MasterState::online_managers, (&state,), online),
    ensures
        forall|i: int|
            0 <= i < all@.len() && (#[trigger] all@[i]).status@ == "online"@ ==> exists|j: int|
                0 <= j < online@.len() && same_entry(#[trigger] online@[j], all@[i]),
        forall|j: int|
            0 <= j < online@.len() ==> (#[trigger] online@[j]).status@ == "online"@ && exists|
                i: int,
            |
                0 <= i < all@.len() && same_entry(#[trigger] all@[i], online@[j]),
        forall|i: int, j: int|
            0 <= i < j < online@.len() ==> (#[trigger] online@[i]).server_id@ != (
            #[trigger] online@[j]).server_id@,
{
    let av = crate::registry::entry_views(all@);
    let ov = crate::registry::entry_views(online@);
    let registry = crate::registry::online_of(state@);
    assert forall|i: int, j: int| 0 <= i < j < online@.len() implies (
    #[trigger] online@[i]).server_id@ != (#[trigger] online@[j]).server_id@ by {
        assert(ov[i].server_id != ov[j].server_id);
    }
    assert forall|i: int|
        0 <= i < all@.len() && (#[trigger] all@[i]).status@ == "online"@ implies exists|j: int|
        0 <= j < online@.len() && same_entry(#[trigger] online@[j], all@[i]) by {
        assert(av[i] == all@[i]@);
        assert(registry.contains_key(av[i].server_id));
        let j = choose|j: int|
            0 <= j < ov.len() && #[trigger] ov[j] == registry[av[i].server_id];
        assert(same_entry(online@[j], all@[i]));
    }
    assert forall|j: int| 0 <= j < online@.len() implies (#[trigger] online@[j]).status@
        == "online"@ && exists|i: int|
        0 <= i < all@.len() && same_entry(#[trigger] all@[i], online@[j]) by {
        assert(ov[j] == online@[j]@);
        assert(state@.contains_key(ov[j].server_id));
        let i = choose|i: int| 0 <= i < av.len() && #[trigger] av[i] == state@[ov[j].server_id];
        assert(same_entry(all@[i], online@[j]));
    }
}

/// The object lists an entry: exactly its fields, with their values.
pub open spec fn lists(doc: JsonView, entry: ManagerEntry) -> bool {
    &&& member(doc, "server_id"@) == Some(JsonView::Str(entry.server_id@))
    &&& member(doc, "ip"@) == Some(JsonView::Str(entry.ip@))
    &&& member(doc, "region"@) == Some(JsonView::Str(entry.region@))
    &&& member(doc, "manager_port"@) == Some(
        JsonView::Number(Number::Unsigned(entry.manager_port as u64)),
    )
    &&& member(doc, "registered_at"@) == Some(JsonView::Str(entry.registered_at@))
    &&& member(doc, "status"@) == Some(JsonView::Str(entry.status@))
    &&& only_members(
        doc,
        seq!["server_id"@, "ip"@, "region"@, "manager_port"@, "registered_at"@, "status"@],
    )
}

proof fn lemma_lists(entry: ManagerEntry)
    ensures
        lists(crate::manager::entry_json(entry@), entry),
{
    lemma_names();
    let names =
        seq!["server_id"@, "ip"@, "region"@, "manager_port"@, "registered_at"@, "status"@];
    assert(names[0] == "server_id"@ && names[1] == "ip"@ && names[2] == "region"@ && names[3]
        == "manager_port"@ && names[4] == "registered_at"@ && names[5] == "status"@);
}

/// The JSON object of a manager lists its entry.
pub proof fn law_entry_as_json(entry: ManagerEntry, doc: Json)
    requires
        call_ensures(ManagerEntry::to_json, (&entry,), doc),
    ensures
        lists(doc@, entry),
{
    lemma_lists(entry);
}

/// The document is a list of servers: as many as it counts.
pub open spec fn server_listing(doc: JsonView, servers: Seq<JsonView>) -> bool {
    &&& member(doc, "servers"@) == Some(JsonView::Array(servers))
    &&& member(doc, "count"@) == Some(JsonView::Number(Number::Unsigned(servers.len() as u64)))
    &&& only_members(doc, seq!["servers"@, "count"@])
}

/// A list of managers lists each of them in its place, and counts them.
pub proof fn law_listing_managers(managers: Vec<ManagerEntry>, r: Json)
    requires
        call_ensures(list_managers, (&managers,), r),
    ensures
        exists|servers: Seq<JsonView>| #[trigger]
            server_listing(r@, servers) && servers.len() == managers@.len() && forall|i: int|
                0 <= i < servers.len() ==> lists(#[trigger] servers[i], managers@[i]),
{
    lemma_names();
    let names = seq!["servers"@, "count"@];
    assert(names[0] == "servers"@ && names[1] == "count"@);
    let servers = crate::registry::entry_views(managers@).map_values(
        |m: ManagerView| crate::manager::entry_json(m),
    );
    assert forall|i: int| 0 <= i < servers.len() implies lists(
        #[trigger] servers[i],
        managers@[i],
    ) by {
        lemma_lists(managers@[i]);
    }
    assert(server_listing(r@, servers));
}

/// One of the objects lists the entry.
pub open spec fn entry_listed(servers: Seq<JsonView>, entry: ManagerEntry) -> bool {
    exists|j: int| 0 <= j < servers.len() && lists(#[trigger] servers[j], entry)
}

/// The object lists one of the entries.
pub open spec fn lists_one_of(doc: JsonView, entries: Seq<ManagerEntry>) -> bool {
    exists|i: int| 0 <= i < entries.len() && lists(doc, #[trigger] entries[i])
}

/// Each of the objects lists one of the entries, and each entry is listed.
pub open spec fn list_each_other(servers: Seq<JsonView>, entries: Seq<ManagerEntry>) -> bool {
    &&& servers.len() == entries.len()
    &&& forall|i: int| 0 <= i < entries.len() ==> entry_listed(servers, #[trigger] entries[i])
    &&& forall|j: int| 0 <= j < servers.len() ==> lists_one_of(#[trigger] servers[j], entries)
}

/// The list of servers lists every manager of the registry, and nothing else,
/// and counts them.
pub proof fn law_listing_servers(state: MasterState, r: Json, all: Vec<ManagerEntry>)
    requires
        call_ensures(list_servers, (&state,), r),
        call_ensures(MasterState::managers, (&state,), all),
    ensures
        exists|servers: Seq<JsonView>| #[trigger]
            server_listing(r@, servers) && list_each_other(servers, all@),
{
    lemma_names();
    let names = seq!["servers"@, "count"@];
    assert(names[0] == "servers"@ && names[1] == "count"@);
    let managers = choose|managers: Seq<ManagerView>| #[trigger]
        crate::registry::enumerates(managers, state@) && r@ == crate::servers::server_list(
            managers,
        );
    let av = crate::registry::entry_views(all@);
    let servers = managers.map_values(|m: ManagerView| crate::manager::entry_json(m));
    assert(server_listing(r@, servers));
    assert forall|i: int| 0 <= i < all@.len() implies entry_listed(servers, #[trigger] all@[i]) by {
        assert(av[i] == all@[i]@);
        assert(state@.contains_key(av[i].server_id));
        let j = choose|j: int|
            0 <= j < managers.len() && #[trigger] managers[j] == state@[av[i].server_id];
        lemma_lists(all@[i]);
        assert(lists(servers[j], all@[i]));
    }
    assert forall|j: int| 0 <= j < servers.len() implies lists_one_of(
        #[trigger] servers[j],
        all@,
    ) by {
        assert(state@.contains_key(managers[j].server_id));
        let i = choose|i: int|
            0 <= i < av.len() && #[trigger] av[i] == state@[managers[j].server_id];
        lemma_lists(all@[i]);
        assert(lists(servers[j], all@[i]));
    }
}

/// A server is listed as online if and only if an order for it is accepted.
pub proof fn law_listed_online_takes_orders(
    state: MasterState,
    id: String,
    found: Option<&ManagerEntry>,
    doc: Json,
    order: Result<ManagerEntry, ApiError>,
)
    requires
        call_ensures(MasterState::get, (&state, &id), found),
        found is Some,
        call_ensures(ManagerEntry::to_json, (found->0,), doc),
        call_ensures(manager_for_order, (&state, &id), order),
    ensures
        member(doc@, "status"@) == Some(JsonView::Str("online"@)) <==> order is Ok,
{
    lemma_lists(*found->0);
}

/// Names that stand in one document differ.
pub(crate) proof fn lemma_names()
    ensures
        "server_id"@ != "ip"@,
        "server_id"@ != "region"@,
        "server_id"@ != "manager_port"@,
        "server_id"@ != "registered_at"@,
        "server_id"@ != "status"@,
        "server_id"@ != "message"@,
        "server_id"@ != "manager_url"@,
        "ip"@ != "region"@,
        "ip"@ != "manager_port"@,
        "ip"@ != "registered_at"@,
        "ip"@ != "status"@,
        "region"@ != "manager_port"@,
        "region"@ != "registered_at"@,
        "region"@ != "status"@,
        "manager_port"@ != "registered_at"@,
        "manager_port"@ != "status"@,
        "registered_at"@ != "status"@,
        "status"@ != "message"@,
        "status"@ != "manager_url"@,
        "status"@ != "id"@,
        "message"@ != "manager_url"@,
        "servers"@ != "count"@,
        "databases"@ != "count"@,
{
    reveal_strlit("server_id");
    reveal_strlit("ip");
    reveal_strlit("id");
    reveal_strlit("region");
    reveal_strlit("manager_port");
    reveal_strlit("registered_at");
    reveal_strlit("status");
    reveal_strlit("message");
    reveal_strlit("manager_url");
    reveal_strlit("servers");
    reveal_strlit("databases");
    reveal_strlit("count");
    assert("region"@[0] != "status"@[0]);
    assert("server_id"@.len() == 9 && "ip"@.len() == 2 && "id"@.len() == 2 && "region"@.len() == 6
        && "manager_port"@.len() == 12 && "registered_at"@.len() == 13 && "status"@.len() == 6
        && "message"@.len() == 7 && "manager_url"@.len() == 11 && "servers"@.len() == 7
        && "databases"@.len() == 9 && "count"@.len() == 5);
}

} // verus!
