//! Servers: provisioning a manager, its registration, and the list of all.
use vstd::prelude::*;

use crate::json::{views, Json, JsonView, Number};
use crate::manager::{base_url, entry_json, is_online, manager_url, ManagerEntry, ManagerView};
use crate::outside::{fresh_uuid, is_rfc3339_utc, is_uuid_v4, now_rfc3339};
use crate::registry::{consistent, entry_views, enumerates, MasterState};
use crate::reply::{answer_view, api_err, refusal, ApiError, ApiErrorView};
use crate::ssh::{
    launch_command_of, ssh_address, ssh_asks, ssh_start, ssh_start_manager, SshAction, SshLaunch,
};

verus! {

/// A request to start a manager on a remote server over SSH.
#[derive(Debug, PartialEq, Eq)]
pub struct ProvisionServerRequest {
    /// Address of the remote server (SSH target).
    pub ip: String,
    /// SSH user name.
    pub username: String,
    /// SSH password.
    pub password: String,
    /// Logical region label, e.g. "us-east-1" (default: "default").
    pub region: Option<String>,
    /// Port that the manager should listen on (default: 7001).
    pub manager_port: Option<u16>,
    /// Absolute path of the manager's binary on the remote server (default:
    /// /usr/local/bin/mtpdb_manager).
    pub manager_binary_path: Option<String>,
}

/// The call of a manager that has come up.
#[derive(Debug, PartialEq, Eq)]
pub struct ManagerRegisterRequest {
    pub server_id: String,
    pub ip: String,
    pub region: String,
    pub manager_port: u16,
}

/// What a manager is to be started with: a request in which nothing is left
/// open.
#[derive(Debug, Clone, PartialEq, Eq)]
pub struct ProvisionPlan {
    pub server_id: String,
    pub ip: String,
    pub username: String,
    pub password: String,
    pub manager_port: u16,
    pub region: String,
    pub binary_path: String,
    pub master_url: String,
}

/// What came of an attempt to start a manager.
#[derive(Debug, PartialEq, Eq)]
pub enum LaunchOutcome {
    /// The attempt was lost, for this reason.
    Lost(String),
    /// The SSH conversation ended like this.
    Ended(Result<(), String>),
}

pub struct PlanView {
    pub server_id: Seq<char>,
    pub ip: Seq<char>,
    pub username: Seq<char>,
    pub password: Seq<char>,
    pub manager_port: u16,
    pub region: Seq<char>,
    pub binary_path: Seq<char>,
    pub master_url: Seq<char>,
}

impl View for ProvisionPlan {
    type V = PlanView;

    open spec fn view(&self) -> PlanView {
        PlanView {
            server_id: self.server_id@,
            ip: self.ip@,
            username: self.username@,
            password: self.password@,
            manager_port: self.manager_port,
            region: self.region@,
            binary_path: self.binary_path@,
            master_url: self.master_url@,
        }
    }
}

pub open spec fn text_or(s: Option<String>, default: Seq<char>) -> Seq<char> {
    match s {
        Some(s) => s@,
        None => default,
    }
}

/// The plan of a request, with the defaults for what it leaves open.
pub open spec fn plan_of(
    req: ProvisionServerRequest,
    master_url: Seq<char>,
    server_id: Seq<char>,
) -> PlanView {
    PlanView {
        server_id,
        ip: req.ip@,
        username: req.username@,
        password: req.password@,
        manager_port: match req.manager_port {
            Some(port) => port,
            None => 7001,
        },
        region: text_or(req.region, "default"@),
        binary_path: text_or(req.manager_binary_path, "/usr/local/bin/mtpdb_manager"@),
        master_url,
    }
}

/// The entry of a manager that was started and has not called back.
pub open spec fn provisioned_entry(plan: PlanView, registered_at: Seq<char>) -> ManagerView {
    ManagerView {
        server_id: plan.server_id,
        ip: plan.ip,
        region: plan.region,
        manager_port: plan.manager_port,
        registered_at,
        status: "provisioning"@,
    }
}

/// Whether the manager of a server has called back.
pub open spec fn has_called_back(
    managers: Map<Seq<char>, ManagerView>,
    server_id: Seq<char>,
) -> bool {
    managers.contains_key(server_id) && is_online(managers[server_id])
}

/// The registry once a server is provisioned: its manager is registered in
/// advance, unless it has called back already.
pub open spec fn after_provisioning(
    managers: Map<Seq<char>, ManagerView>,
    plan: PlanView,
    now: Seq<char>,
) -> Map<Seq<char>, ManagerView> {
    if has_called_back(managers, plan.server_id) {
        managers
    } else {
        managers.insert(plan.server_id, provisioned_entry(plan, now))
    }
}

/// The answer when a manager was started.
pub open spec fn provisioned_answer(plan: PlanView) -> JsonView {
    JsonView::Object(
        map![
            "server_id"@ => JsonView::Str(plan.server_id),
            "status"@ => JsonView::Str("provisioning"@),
            "message"@ => JsonView::Str(
                "Manager process started via SSH; it will register shortly."@,
            ),
            "manager_url"@ => JsonView::Str(base_url(plan.ip, plan.manager_port)),
        ],
    )
}

/// The entry of a manager that has called back.
pub open spec fn registered_entry(
    req: ManagerRegisterRequest,
    registered_at: Seq<char>,
) -> ManagerView {
    ManagerView {
        server_id: req.server_id@,
        ip: req.ip@,
        region: req.region@,
        manager_port: req.manager_port,
        registered_at,
        status: "online"@,
    }
}

/// The registry once a manager has called back: its entry stands in place of
/// whatever was registered under its id.
pub open spec fn after_registration(
    managers: Map<Seq<char>, ManagerView>,
    req: ManagerRegisterRequest,
    now: Seq<char>,
) -> Map<Seq<char>, ManagerView> {
    managers.insert(req.server_id@, registered_entry(req, now))
}

/// The answer to a manager that has called back.
pub open spec fn registered_answer(server_id: Seq<char>) -> JsonView {
    JsonView::Object(
        map!["status"@ => JsonView::Str("registered"@), "server_id"@ => JsonView::Str(server_id)],
    )
}

/// The list of managers, and how many they are.
pub open spec fn server_list(managers: Seq<ManagerView>) -> JsonView {
    JsonView::Object(
        map![
            "servers"@ => JsonView::Array(managers.map_values(|m: ManagerView| entry_json(m))),
            "count"@ => JsonView::Number(Number::Unsigned(managers.len() as u64)),
        ],
    )
}

/// Fills in what a request leaves open.
pub fn plan_server(req: &ProvisionServerRequest, master_url: String, server_id: String) -> (r:
    ProvisionPlan)
    ensures
        r@ == plan_of(*req, master_url@, server_id@),
{
    let manager_port: u16 = match req.manager_port {
        Some(port) => port,
        None => 7001,
    };
    let region = match &req.region {
        Some(region) => region.clone(),
        None => "default".to_string(),
    };
    let binary_path = match &req.manager_binary_path {
        Some(path) => path.clone(),
        None => "/usr/local/bin/mtpdb_manager".to_string(),
    };
    ProvisionPlan {
        server_id,
        ip: req.ip.clone(),
        username: req.username.clone(),
        password: req.password.clone(),
        manager_port,
        region,
        binary_path,
        master_url,
    }
}

/// Begins to provision a server: allocates its id and fills in what the request
/// leaves open.
pub fn provision_server(req: &ProvisionServerRequest, master_url: String) -> (r: ProvisionPlan)
    ensures
        is_uuid_v4(r.server_id@),
        r@ == plan_of(*req, master_url@, r.server_id@),
{
    let server_id = fresh_uuid();
    plan_server(req, master_url, server_id)
}

impl ProvisionPlan {
    /// Begins the SSH conversation that starts the manager.
    pub fn launch(&self) -> (r: (SshLaunch, SshAction))
        ensures
            r.0@ == ssh_start(
                ssh_address(self@.ip),
                self@.username,
                self@.password,
                launch_command_of(
                    self@.binary_path,
                    self@.server_id,
                    self@.master_url,
                    self@.manager_port,
                    self@.region,
                ),
            ),
            r.1@ == ssh_asks(r.0@),
    {
        ssh_start_manager(
            self.ip.as_str(),
            self.username.as_str(),
            self.password.as_str(),
            self.server_id.as_str(),
            self.manager_port,
            self.region.as_str(),
            self.master_url.as_str(),
            self.binary_path.as_str(),
        )
    }
}

/// Registers a manager that was started at that time, and answers the caller.
/// One that has called back in the meantime stays as it registered.
pub fn record_provisioned(
    state: &mut MasterState,
    plan: &ProvisionPlan,
    registered_at: String,
) -> (r: Json)
    ensures
        final(state)@ == after_provisioning(old(state)@, plan@, registered_at@),
        r@ == provisioned_answer(plan@),
{
    let called_back = match state.get(&plan.server_id) {
        Some(entry) => entry.is_online(),
        None => false,
    };
    if !called_back {
        state.insert(
            ManagerEntry {
                server_id: plan.server_id.clone(),
                ip: plan.ip.clone(),
                region: plan.region.clone(),
                manager_port: plan.manager_port,
                registered_at,
                status: "provisioning".to_string(),
            },
        );
    }
    let url = manager_url(plan.ip.as_str(), plan.manager_port);
    let mut body = Json::empty_object();
    body.set("server_id", Json::text(plan.server_id.as_str()));
    body.set("status", Json::text("provisioning"));
    body.set(
        "message",
        Json::text("Manager process started via SSH; it will register shortly."),
    );
    body.set("manager_url", Json::text(url.as_str()));
    body
}

/// Ends the provisioning of a server. A manager that was started is registered
/// as of now, unless it has called back in the meantime; an attempt that failed
/// leaves the registry as it was.
pub fn finish_provision(
    state: &mut MasterState,
    plan: &ProvisionPlan,
    outcome: LaunchOutcome,
) -> (r: Result<Json, ApiError>)
    ensures
        match outcome {
            LaunchOutcome::Lost(e) => final(state)@ == old(state)@ && answer_view(r) == Err::<
                JsonView,
                ApiErrorView,
            >(refusal(400, "Spawn error: "@ + e@)),
            LaunchOutcome::Ended(Err(e)) => final(state)@ == old(state)@ && answer_view(r) == Err::<
                JsonView,
                ApiErrorView,
            >(refusal(400, "SSH provisioning failed: "@ + e@)),
            LaunchOutcome::Ended(Ok(_)) => answer_view(r) == Ok::<JsonView, ApiErrorView>(
                provisioned_answer(plan@),
            ) && if has_called_back(old(state)@, plan.server_id@) {
                final(state)@ == old(state)@
            } else {
                exists|now: Seq<char>| #[trigger]
                    is_rfc3339_utc(now) && final(state)@ == old(state)@.insert(
                        plan.server_id@,
                        provisioned_entry(plan@, now),
                    )
            },
        },
{
    match outcome {
        LaunchOutcome::Lost(e) => {
            let mut msg = "Spawn error: ".to_string();
            msg.append(e.as_str());
            Err(api_err(msg.as_str()))
        },
        LaunchOutcome::Ended(Err(e)) => {
            let mut msg = "SSH provisioning failed: ".to_string();
            msg.append(e.as_str());
            Err(api_err(msg.as_str()))
        },
        LaunchOutcome::Ended(Ok(())) => {
            let now = now_rfc3339();
            Ok(record_provisioned(state, plan, now))
        },
    }
}

/// Registers a manager that called back at that time, in place of whatever was
/// registered under its id.
pub fn record_registered(
    state: &mut MasterState,
    req: &ManagerRegisterRequest,
    registered_at: String,
) -> (r: Json)
    ensures
        final(state)@ == after_registration(old(state)@, *req, registered_at@),
        r@ == registered_answer(req.server_id@),
{
    state.insert(
        ManagerEntry {
            server_id: req.server_id.clone(),
            ip: req.ip.clone(),
            region: req.region.clone(),
            manager_port: req.manager_port,
            registered_at,
            status: "online".to_string(),
        },
    );
    let mut body = Json::empty_object();
    body.set("status", Json::text("registered"));
    body.set("server_id", Json::text(req.server_id.as_str()));
    body
}

/// Registers a manager that calls back, as of now.
pub fn manager_register(state: &mut MasterState, req: &ManagerRegisterRequest) -> (r: Json)
    ensures
        exists|now: Seq<char>| #[trigger]
            is_rfc3339_utc(now) && final(state)@ == after_registration(old(state)@, *req, now),
        r@ == registered_answer(req.server_id@),
{
    let now = now_rfc3339();
    record_registered(state, req, now)
}

/// Lists these managers, in this order.
pub fn list_managers(managers: &Vec<ManagerEntry>) -> (r: Json)
    ensures
        r@ == server_list(entry_views(managers@)),
{
    let ghost wanted = entry_views(managers@).map_values(|m: ManagerView| entry_json(m));
    let mut servers: Vec<Json> = Vec::new();
    for i in 0..managers.len()
        invariant
            wanted == entry_views(managers@).map_values(|m: ManagerView| entry_json(m)),
            servers@.len() == i,
            forall|j: int| 0 <= j < i ==> (#[trigger] servers@[j])@ == wanted[j],
    {
        servers.push(managers[i].to_json());
    }
    assert(views(servers@) =~= wanted);
    let mut body = Json::empty_object();
    body.set("servers", Json::Array(servers));
    body.set("count", Json::Number(Number::Unsigned(managers.len() as u64)));
    body
}

/// Lists every registered manager.
pub fn list_servers(state: &MasterState) -> (r: Json)
    ensures
        consistent(state@),
        exists|managers: Seq<ManagerView>| #[trigger]
            enumerates(managers, state@) && r@ == server_list(managers),
{
    let managers = state.managers();
    assert(enumerates(entry_views(managers@), state@));
    list_managers(&managers)
}

} // verus!
