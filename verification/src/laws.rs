//! What holds across the functions of the library.
//!
//! The modules below state what each operation is for, of whatever it returns:
//! `call_ensures(f, args, r)` says that `f` may return `r` for `args`.
pub mod documents;
pub mod launching;
pub mod listings;
pub mod lookups;
pub mod ordering;
pub mod registrations;
pub mod requests;
pub mod settings;
pub mod texts;

use vstd::prelude::*;

use crate::config::{listen_port_of, local_ip_of, master_url_of};
use crate::http::annotated;
use crate::json::{members_of, takes_members, JsonView};
use crate::manager::{base_url, entry_json, ManagerView};
use crate::orders::{generated_name, order_call, orderable};
use crate::outside::{is_hex, is_uuid_v4};
use crate::registry::{consistent, enumerates, online_of};
use crate::reply::{refusal, ApiErrorView};
use crate::servers::{
    after_provisioning, after_registration, has_called_back, provisioned_entry, registered_entry,
    server_list, ManagerRegisterRequest, PlanView,
};
use crate::text::{all_digits, behind_plus, decimal, digits_value, is_digit, port_of};

verus! {

/// The empty registry is consistent, and it stays so when a server is
/// provisioned and when a manager registers.
pub proof fn law_registry_stays_consistent(
    managers: Map<Seq<char>, ManagerView>,
    plan: PlanView,
    req: ManagerRegisterRequest,
    now: Seq<char>,
)
    requires
        consistent(managers),
    ensures
        consistent(Map::empty()),
        consistent(after_provisioning(managers, plan, now)),
        consistent(after_registration(managers, req, now)),
{
}

/// When the manager of a provisioned server registers, nothing is left of the
/// entry made at provisioning: the registry is what it would be without it.
pub proof fn law_registration_replaces_provisioning(
    managers: Map<Seq<char>, ManagerView>,
    plan: PlanView,
    req: ManagerRegisterRequest,
    provisioned_at: Seq<char>,
    registered_at: Seq<char>,
)
    requires
        req.server_id@ == plan.server_id,
    ensures
        after_registration(
            after_provisioning(managers, plan, provisioned_at),
            req,
            registered_at,
        ) == after_registration(managers, req, registered_at),
{
    assert(after_registration(
        after_provisioning(managers, plan, provisioned_at),
        req,
        registered_at,
    ) =~= after_registration(managers, req, registered_at));
}

/// When a manager registers before the provisioning of its server ends, its
/// registration stands: the end of the provisioning changes nothing, and the
/// server is online and takes orders.
pub proof fn law_registration_outlives_provisioning(
    managers: Map<Seq<char>, ManagerView>,
    plan: PlanView,
    req: ManagerRegisterRequest,
    registered_at: Seq<char>,
    provisioned_at: Seq<char>,
)
    requires
        req.server_id@ == plan.server_id,
    ensures
        ({
            let registered = after_registration(managers, req, registered_at);
            let after = after_provisioning(registered, plan, provisioned_at);
            &&& after == registered
            &&& after[plan.server_id].status == "online"@
            &&& orderable(after, plan.server_id) == Ok::<ManagerView, ApiErrorView>(
                registered_entry(req, registered_at),
            )
        }),
{
}

/// It does not matter whether a manager registers before or after the
/// provisioning of its server ends.
pub proof fn law_registration_and_provisioning_commute(
    managers: Map<Seq<char>, ManagerView>,
    plan: PlanView,
    req: ManagerRegisterRequest,
    registered_at: Seq<char>,
    provisioned_at: Seq<char>,
)
    requires
        req.server_id@ == plan.server_id,
    ensures
        after_provisioning(
            after_registration(managers, req, registered_at),
            plan,
            provisioned_at,
        ) == after_registration(
            after_provisioning(managers, plan, provisioned_at),
            req,
            registered_at,
        ),
{
    law_registration_replaces_provisioning(managers, plan, req, provisioned_at, registered_at);
}

/// Provisioning a server and registering a manager leave every other server as
/// it was.
pub proof fn law_other_servers_untouched(
    managers: Map<Seq<char>, ManagerView>,
    plan: PlanView,
    req: ManagerRegisterRequest,
    now: Seq<char>,
    other: Seq<char>,
)
    ensures
        ({
            let provisioned = after_provisioning(managers, plan, now);
            other != plan.server_id ==> provisioned.contains_key(other) == managers.contains_key(
                other,
            ) && provisioned[other] == managers[other]
        }),
        ({
            let registered = after_registration(managers, req, now);
            other != req.server_id@ ==> registered.contains_key(other) == managers.contains_key(
                other,
            ) && registered[other] == managers[other]
        }),
{
}

/// Orders for a server whose manager has just registered are accepted, and go
/// to the address that the manager gave.
pub proof fn law_registered_takes_orders(
    managers: Map<Seq<char>, ManagerView>,
    req: ManagerRegisterRequest,
    now: Seq<char>,
    db_name: Seq<char>,
)
    ensures
        orderable(after_registration(managers, req, now), req.server_id@) == Ok::<
            ManagerView,
            ApiErrorView,
        >(registered_entry(req, now)),
        order_call(registered_entry(req, now), db_name).url == base_url(req.ip@, req.manager_port)
            + "/provision"@,
{
}

proof fn lemma_provisioning_is_not_online()
    ensures
        "provisioning"@ != "online"@,
{
    reveal_strlit("provisioning");
    reveal_strlit("online");
    assert("provisioning"@.len() != "online"@.len());
}

/// Orders for a server that was provisioned and whose manager has not
/// registered are refused.
pub proof fn law_provisioned_takes_no_orders(
    managers: Map<Seq<char>, ManagerView>,
    plan: PlanView,
    now: Seq<char>,
)
    requires
        !has_called_back(managers, plan.server_id),
    ensures
        orderable(after_provisioning(managers, plan, now), plan.server_id) == Err::<
            ManagerView,
            ApiErrorView,
        >(
            refusal(
                400,
                "Manager '"@ + plan.server_id + "' is not online (status: "@ + "provisioning"@
                    + ")"@,
            ),
        ),
{
    lemma_provisioning_is_not_online();
}

/// The end of a provisioning stands over every entry under that id but the
/// registration of the manager itself.
pub proof fn law_only_registration_outlives_provisioning(
    managers: Map<Seq<char>, ManagerView>,
    plan: PlanView,
    now: Seq<char>,
)
    ensures
        ({
            let after = after_provisioning(managers, plan, now);
            &&& after.contains_key(plan.server_id)
            &&& after[plan.server_id] == if has_called_back(managers, plan.server_id) {
                managers[plan.server_id]
            } else {
                provisioned_entry(plan, now)
            }
        }),
{
}

/// Provisioning a server does not change which managers are asked for their
/// instances; the registration of its manager adds that one.
pub proof fn law_only_registered_managers_are_asked(
    managers: Map<Seq<char>, ManagerView>,
    plan: PlanView,
    req: ManagerRegisterRequest,
    now: Seq<char>,
)
    ensures
        online_of(after_provisioning(managers, plan, now)) == online_of(managers),
        online_of(after_registration(managers, req, now)) == online_of(managers).insert(
            req.server_id@,
            registered_entry(req, now),
        ),
{
    lemma_provisioning_is_not_online();
    assert(online_of(after_provisioning(managers, plan, now)) =~= online_of(managers));
    assert(online_of(after_registration(managers, req, now)) =~= online_of(managers).insert(
        req.server_id@,
        registered_entry(req, now),
    ));
}

/// An order is accepted if and only if a manager is registered under the id and
/// online, and then it goes to the manager of that very server.
pub proof fn law_orders_need_an_online_manager(
    managers: Map<Seq<char>, ManagerView>,
    server_id: Seq<char>,
)
    requires
        consistent(managers),
    ensures
        orderable(managers, server_id) is Ok <==> managers.contains_key(server_id)
            && managers[server_id].status == "online"@,
        orderable(managers, server_id) matches Ok(manager) ==> manager.server_id == server_id,
{
}

/// A manager that has registered is in the list of servers, whatever the order
/// of the list.
pub proof fn law_registered_is_listed(
    managers: Map<Seq<char>, ManagerView>,
    req: ManagerRegisterRequest,
    now: Seq<char>,
    listed: Seq<ManagerView>,
)
    requires
        enumerates(listed, after_registration(managers, req, now)),
    ensures
        members_of(server_list(listed))["servers"@] matches JsonView::Array(servers)
            && servers.contains(entry_json(registered_entry(req, now))),
{
    let after = after_registration(managers, req, now);
    assert(after.contains_key(req.server_id@));
    let i = choose|i: int|
        0 <= i < listed.len() && #[trigger] listed[i] == after[req.server_id@];
    let servers = listed.map_values(|m: ManagerView| entry_json(m));
    assert(servers[i] == entry_json(registered_entry(req, now)));
    reveal_strlit("servers");
    reveal_strlit("count");
    assert("servers"@.len() != "count"@.len());
    assert(members_of(server_list(listed))["servers"@] == JsonView::Array(servers));
}

pub(crate) proof fn lemma_routing_names()
    ensures
        "server_id"@ != "region"@,
        "server_id"@ != "host"@,
        "region"@ != "host"@,
{
    reveal_strlit("server_id");
    reveal_strlit("region");
    reveal_strlit("host");
    assert("server_id"@.len() != "region"@.len());
    assert("server_id"@.len() != "host"@.len());
    assert("region"@.len() != "host"@.len());
}

/// An annotated document says on which server the instance lives, in which
/// region and at which address, and says everything else that it said before.
pub proof fn law_annotation(doc: JsonView, manager: ManagerView)
    requires
        takes_members(doc),
    ensures
        ({
            let before = members_of(doc);
            let after = members_of(annotated(doc, manager));
            &&& annotated(doc, manager) is Object
            &&& after.contains_key("server_id"@) && after["server_id"@] == JsonView::Str(
                manager.server_id,
            )
            &&& after.contains_key("region"@) && after["region"@] == JsonView::Str(manager.region)
            &&& after.contains_key("host"@) && after["host"@] == JsonView::Str(manager.ip)
            &&& forall|name: Seq<char>|
                name != "server_id"@ && name != "region"@ && name != "host"@ ==> #[trigger]
                after.contains_key(name) == before.contains_key(name) && after[name]
                    == before[name]
        }),
{
    lemma_routing_names();
}

/// The last annotation counts: what an earlier one said is gone.
pub proof fn law_annotation_overwrites(doc: JsonView, first: ManagerView, second: ManagerView)
    requires
        takes_members(doc),
    ensures
        annotated(annotated(doc, first), second) == annotated(doc, second),
{
    lemma_routing_names();
    assert(members_of(annotated(annotated(doc, first), second)) =~= members_of(
        annotated(doc, second),
    ));
}

pub(crate) proof fn lemma_decimal_value(n: nat)
    ensures
        decimal(n).len() > 0,
        all_digits(decimal(n)),
        digits_value(decimal(n)) == n,
    decreases n,
{
    reveal_with_fuel(digits_value, 2);
    if n >= 10 {
        lemma_decimal_value(n / 10);
        assert(decimal(n).drop_last() =~= decimal(n / 10));
    } else {
        assert(decimal(n).drop_last() =~= Seq::empty());
    }
}

/// `MASTER_PORT` can name every port: the master listens on the port whose
/// decimal text it holds.
pub proof fn law_every_port_can_be_set(port: u16)
    ensures
        port_of(decimal(port as nat)) == Some(port),
        listen_port_of(Some(decimal(port as nat))) == port,
{
    lemma_decimal_value(port as nat);
    let text = decimal(port as nat);
    assert(is_digit(text[0]));
    assert(behind_plus(text) == text);
}

/// Where `MASTER_ADVERTISE_URL` is not set, managers are sent to the port that
/// the master listens on, whatever `MASTER_PORT` holds.
pub proof fn law_default_url_has_the_listen_port(
    master_port: Option<Seq<char>>,
    detected: Option<Seq<char>>,
    port: u16,
)
    ensures
        master_url_of(None, detected, listen_port_of(master_port)) == "http://"@ + local_ip_of(
            detected,
        ) + ":"@ + decimal(listen_port_of(master_port) as nat),
        master_url_of(None, detected, listen_port_of(Some(decimal(port as nat)))) == "http://"@
            + local_ip_of(detected) + ":"@ + decimal(port as nat),
        master_url_of(None, detected, listen_port_of(None)) == "http://"@ + local_ip_of(detected)
            + ":"@ + "7000"@,
{
    law_every_port_can_be_set(port);
    reveal_strlit("7000");
    reveal_with_fuel(decimal, 4);
    assert(decimal(7000) =~= "7000"@);
}

/// A generated database name is `db_` and eight hexadecimal digits.
pub proof fn law_generated_name(uuid: Seq<char>)
    requires
        is_uuid_v4(uuid),
    ensures
        generated_name(uuid).len() == 11,
        generated_name(uuid).take(3) == "db_"@,
        forall|i: int| 3 <= i < 11 ==> is_hex(#[trigger] generated_name(uuid)[i]),
{
    reveal_strlit("db_");
    assert(generated_name(uuid).take(3) =~= "db_"@);
    assert forall|i: int| 3 <= i < 11 implies is_hex(#[trigger] generated_name(uuid)[i]) by {
        assert(generated_name(uuid)[i] == uuid[i - 3]);
        assert(is_hex(uuid[i - 3]));
    }
}

} // verus!
