use mtpdb_master::http::{Action, Event, HttpCall, Method, Phase};
use mtpdb_master::json::{Field, Json, Number};
use mtpdb_master::listing::{body_annotatable, list_databases, ListDatabases};
use mtpdb_master::lookup::{delete_database, get_database, Lookup, Purpose};
use mtpdb_master::manager::ManagerEntry;
use mtpdb_master::orders::{
    generated_db_name, place_order, provision_database, ProvisionDatabase, ProvisionDbRequest,
};
use mtpdb_master::registry::MasterState;
use mtpdb_master::reply::ApiError;
use mtpdb_master::servers::{
    plan_server, record_provisioned, record_registered, ManagerRegisterRequest,
    ProvisionServerRequest,
};

fn text(s: &str) -> Json {
    Json::Str(s.to_string())
}

fn object(fields: Vec<(&str, Json)>) -> Json {
    Json::Object(
        fields
            .into_iter()
            .map(|(name, value)| Field { name: name.to_string(), value })
            .collect(),
    )
}

fn manager(server_id: &str, ip: &str, port: u16) -> ManagerEntry {
    ManagerEntry {
        server_id: server_id.to_string(),
        ip: ip.to_string(),
        region: "eu".to_string(),
        manager_port: port,
        registered_at: "2024-01-02T03:04:05+00:00".to_string(),
        status: "online".to_string(),
    }
}

fn two_managers() -> Vec<ManagerEntry> {
    vec![manager("a", "10.0.0.1", 7001), manager("b", "10.0.0.2", 7002)]
}

fn registered() -> MasterState {
    let mut state = MasterState::default();
    let req = ManagerRegisterRequest {
        server_id: "a".to_string(),
        ip: "10.0.0.1".to_string(),
        region: "eu".to_string(),
        manager_port: 7001,
    };
    record_registered(&mut state, &req, "now".to_string());
    state
}

fn unreachable_event() -> Event {
    Event::Unreachable("refused".to_string())
}

fn call(method: Method, url: &str, timeout_secs: u64) -> Action {
    Action::Send(HttpCall { method, url: url.to_string(), body: None, timeout_secs })
}

fn routed(id: &str, server_id: &str, host: &str) -> Json {
    object(vec![
        ("id", text(id)),
        ("server_id", text(server_id)),
        ("region", text("eu")),
        ("host", text(host)),
    ])
}

fn error(status: u16, msg: &str) -> Action {
    Action::Respond(Err(ApiError { status, body: object(vec![("error", text(msg))]) }))
}

fn database_list(databases: Vec<Json>) -> Action {
    let count = Json::Number(Number::Unsigned(databases.len() as u64));
    Action::Respond(Ok(object(vec![
        ("databases", Json::Array(databases)),
        ("count", count),
    ])))
}

#[test]
fn listing_without_managers() {
    let (_, action) = list_databases(&MasterState::default());
    assert_eq!(action, database_list(vec![]));
}

#[test]
fn listing_asks_every_manager() {
    let (listing, action) = ListDatabases::over(two_managers());
    assert_eq!(action, call(Method::Get, "http://10.0.0.1:7001/instances", 5));
    let (listing, action) = listing.advance(Event::Status(200));
    assert_eq!(action, Action::ReadJson);
    let body = object(vec![(
        "instances",
        Json::Array(vec![object(vec![("id", text("x"))]), object(vec![("id", text("y"))])]),
    )]);
    let (listing, action) = listing.advance(Event::Body(Ok(body)));
    assert_eq!(action, call(Method::Get, "http://10.0.0.2:7002/instances", 5));
    let (listing, _) = listing.advance(Event::Status(200));
    let body = object(vec![("instances", Json::Array(vec![object(vec![("id", text("z"))])]))]);
    let (listing, action) = listing.advance(Event::Body(Ok(body)));
    assert_eq!(
        action,
        database_list(vec![
            routed("x", "a", "10.0.0.1"),
            routed("y", "a", "10.0.0.1"),
            routed("z", "b", "10.0.0.2"),
        ])
    );
    assert!(!listing.fits(&Event::Status(200)));
}

#[test]
fn listing_skips_unreachable_managers() {
    let (listing, _) = ListDatabases::over(two_managers());
    let (listing, action) = listing.advance(unreachable_event());
    assert_eq!(action, call(Method::Get, "http://10.0.0.2:7002/instances", 5));
    let (_, action) = listing.advance(unreachable_event());
    assert_eq!(action, database_list(vec![]));
}

#[test]
fn listing_reads_whatever_the_status_is() {
    let (listing, _) = ListDatabases::over(vec![manager("a", "10.0.0.1", 7001)]);
    let (listing, action) = listing.advance(Event::Status(500));
    assert_eq!(action, Action::ReadJson);
    let body = object(vec![("instances", Json::Array(vec![object(vec![("id", text("x"))])]))]);
    let (_, action) = listing.advance(Event::Body(Ok(body)));
    assert_eq!(action, database_list(vec![routed("x", "a", "10.0.0.1")]));
}

#[test]
fn listing_ignores_bodies_without_instances() {
    for body in [
        Ok(Json::Null),
        Ok(object(vec![])),
        Ok(object(vec![("instances", text("none"))])),
        Ok(Json::Array(vec![text("x")])),
        Err("not JSON".to_string()),
    ] {
        let (listing, _) = ListDatabases::over(vec![manager("a", "10.0.0.1", 7001)]);
        let (listing, _) = listing.advance(Event::Status(200));
        let event = Event::Body(body);
        assert!(listing.fits(&event));
        let (_, action) = listing.advance(event);
        assert_eq!(action, database_list(vec![]));
    }
}

#[test]
fn listing_makes_objects_of_null_instances() {
    let (listing, _) = ListDatabases::over(vec![manager("a", "10.0.0.1", 7001)]);
    let (listing, _) = listing.advance(Event::Status(200));
    let body = object(vec![("instances", Json::Array(vec![Json::Null]))]);
    let (_, action) = listing.advance(Event::Body(Ok(body)));
    let routed = object(vec![
        ("server_id", text("a")),
        ("region", text("eu")),
        ("host", text("10.0.0.1")),
    ]);
    assert_eq!(action, database_list(vec![routed]));
}

#[test]
fn listing_takes_no_instances_that_are_not_objects() {
    let bad = object(vec![("instances", Json::Array(vec![Json::Null, text("x")]))]);
    assert!(!body_annotatable(&bad));
    assert!(body_annotatable(&object(vec![("instances", Json::Array(vec![Json::Null]))])));
    assert!(body_annotatable(&text("x")));
    let (listing, _) = ListDatabases::over(vec![manager("a", "10.0.0.1", 7001)]);
    let (listing, _) = listing.advance(Event::Status(200));
    assert!(!listing.fits(&Event::Body(Ok(bad))));
}

#[test]
fn listing_starts_from_the_registry() {
    let (_, action) = list_databases(&registered());
    assert_eq!(action, call(Method::Get, "http://10.0.0.1:7001/instances", 5));
}

fn provision(state: &mut MasterState, server_id: &str) {
    let req = ProvisionServerRequest {
        ip: "10.0.0.9".to_string(),
        username: "root".to_string(),
        password: "pw".to_string(),
        region: None,
        manager_port: None,
        manager_binary_path: None,
    };
    let plan = plan_server(&req, "http://m:7000".to_string(), server_id.to_string());
    record_provisioned(state, &plan, "now".to_string());
}

#[test]
fn listing_asks_no_provisioning_managers() {
    let mut state = MasterState::default();
    provision(&mut state, "p");
    let (listing, action) = list_databases(&state);
    assert_eq!(action, database_list(vec![]));
    assert!(!listing.fits(&Event::Status(200)));
}

#[test]
fn listing_asks_online_managers_only() {
    let mut state = registered();
    provision(&mut state, "p");
    assert_eq!(state.managers().len(), 2);
    assert_eq!(state.online_managers().len(), 1);
    assert_eq!(state.online_managers()[0].server_id, "a");
    let (listing, action) = list_databases(&state);
    assert_eq!(action, call(Method::Get, "http://10.0.0.1:7001/instances", 5));
    let (_, action) = listing.advance(unreachable_event());
    assert_eq!(action, database_list(vec![]));
}

#[test]
fn lookups_ask_provisioning_managers_too() {
    let mut state = MasterState::default();
    provision(&mut state, "p");
    let (_, action) = get_database(&state, "x".to_string());
    assert_eq!(action, call(Method::Get, "http://10.0.0.9:7001/instances/x", 5));
    let (_, action) = delete_database(&state, "x".to_string());
    assert_eq!(action, call(Method::Delete, "http://10.0.0.9:7001/instances/x", 10));
}

/// What a listing answers where each manager lists one instance of its own, but
/// those that are named are unreachable.
fn listed(managers: Vec<ManagerEntry>, unreachable: &[&str]) -> Vec<Json> {
    let ids: Vec<String> = managers.iter().map(|m| m.server_id.clone()).collect();
    let (mut listing, mut action) = ListDatabases::over(managers);
    for id in &ids {
        if unreachable.contains(&id.as_str()) {
            (listing, action) = listing.advance(unreachable_event());
        } else {
            (listing, _) = listing.advance(Event::Status(200));
            let inst = object(vec![("id", text(id))]);
            let body = object(vec![("instances", Json::Array(vec![inst]))]);
            (listing, action) = listing.advance(Event::Body(Ok(body)));
        }
    }
    assert!(!listing.fits(&Event::Status(200)));
    match action {
        Action::Respond(Ok(doc)) => doc.get("databases").unwrap().as_array().unwrap().clone(),
        other => panic!("{:?}", other),
    }
}

#[test]
fn the_order_of_asking_does_not_decide_what_is_found() {
    let forth = listed(two_managers(), &[]);
    let mut turned = two_managers();
    turned.reverse();
    let mut back = listed(turned, &[]);
    back.reverse();
    assert_eq!(forth.len(), 2);
    assert_eq!(forth, back);
}

#[test]
fn one_more_unreachable_manager_changes_nothing() {
    let mut more = two_managers();
    more.insert(1, manager("c", "10.0.0.3", 7003));
    assert_eq!(listed(more, &["c"]), listed(two_managers(), &[]));
}

#[test]
fn the_first_success_is_shown() {
    let (lookup, action) = Lookup::over(Purpose::Show, two_managers(), "x".to_string());
    assert_eq!(action, call(Method::Get, "http://10.0.0.1:7001/instances/x", 5));
    let (lookup, action) = lookup.advance(Event::Status(404));
    assert_eq!(action, call(Method::Get, "http://10.0.0.2:7002/instances/x", 5));
    let (lookup, action) = lookup.advance(Event::Status(200));
    assert_eq!(action, Action::ReadJson);
    let (lookup, action) = lookup.advance(Event::Body(Ok(object(vec![("id", text("x"))]))));
    assert_eq!(action, Action::Respond(Ok(routed("x", "b", "10.0.0.2"))));
    assert!(!lookup.fits(&Event::Status(200)));
}

#[test]
fn nobody_behind_the_first_success_is_asked() {
    let (lookup, _) = Lookup::over(Purpose::Show, two_managers(), "x".to_string());
    let (lookup, _) = lookup.advance(Event::Status(200));
    let (_, action) = lookup.advance(Event::Body(Ok(object(vec![("id", text("x"))]))));
    assert_eq!(action, Action::Respond(Ok(routed("x", "a", "10.0.0.1"))));
}

#[test]
fn a_success_that_is_no_json_is_refused() {
    let (lookup, _) = Lookup::over(Purpose::Show, two_managers(), "x".to_string());
    let (lookup, _) = lookup.advance(Event::Status(200));
    let (_, action) = lookup.advance(Event::Body(Err("no JSON".to_string())));
    assert_eq!(action, error(400, "Bad response: no JSON"));
}

#[test]
fn an_instance_that_nobody_has_is_not_found() {
    for purpose in [Purpose::Show, Purpose::Delete] {
        let (lookup, _) = Lookup::over(purpose, two_managers(), "x".to_string());
        let (lookup, _) = lookup.advance(unreachable_event());
        let (_, action) = lookup.advance(Event::Status(500));
        assert_eq!(action, error(404, "Database 'x' not found"));
    }
    let (_, action) = get_database(&MasterState::default(), "y".to_string());
    assert_eq!(action, error(404, "Database 'y' not found"));
    let (_, action) = delete_database(&MasterState::default(), "y".to_string());
    assert_eq!(action, error(404, "Database 'y' not found"));
}

#[test]
fn the_first_success_deletes() {
    let (lookup, action) = Lookup::over(Purpose::Delete, two_managers(), "x".to_string());
    assert_eq!(action, call(Method::Delete, "http://10.0.0.1:7001/instances/x", 10));
    let (lookup, action) = lookup.advance(unreachable_event());
    assert_eq!(action, call(Method::Delete, "http://10.0.0.2:7002/instances/x", 10));
    let (_, action) = lookup.advance(Event::Status(204));
    let deleted = object(vec![("status", text("deleted")), ("id", text("x"))]);
    assert_eq!(action, Action::Respond(Ok(deleted)));
}

#[test]
fn lookups_start_from_the_registry() {
    let (_, action) = get_database(&registered(), "x".to_string());
    assert_eq!(action, call(Method::Get, "http://10.0.0.1:7001/instances/x", 5));
    let (_, action) = delete_database(&registered(), "x".to_string());
    assert_eq!(action, call(Method::Delete, "http://10.0.0.1:7001/instances/x", 10));
}

#[test]
fn lookups_take_objects_and_null_only() {
    let (lookup, _) = Lookup::over(Purpose::Show, two_managers(), "x".to_string());
    let (lookup, _) = lookup.advance(Event::Status(200));
    assert!(lookup.fits(&Event::Body(Ok(Json::Null))));
    assert!(lookup.fits(&Event::Body(Err("e".to_string()))));
    assert!(!lookup.fits(&Event::Body(Ok(text("x")))));
    assert!(!lookup.fits(&Event::Text(None)));
}

fn order(server_id: &str, db_name: Option<&str>) -> ProvisionDbRequest {
    ProvisionDbRequest {
        server_id: server_id.to_string(),
        db_name: db_name.map(|s| s.to_string()),
    }
}

fn order_action(name: &str) -> Action {
    Action::Send(HttpCall {
        method: Method::Post,
        url: "http://10.0.0.1:7001/provision".to_string(),
        body: Some(object(vec![("db_name", text(name))])),
        timeout_secs: 30,
    })
}

fn placed() -> ProvisionDatabase {
    place_order(manager("a", "10.0.0.1", 7001), "mine").0
}

#[test]
fn orders_go_to_the_manager_of_the_server() {
    let (order, action) = provision_database(&registered(), order("a", Some("mine"))).unwrap();
    assert_eq!(action, order_action("mine"));
    assert_eq!(order.phase, Phase::Asking);
    let (order, action) = order.advance(Event::Status(201));
    assert_eq!(action, Action::ReadJson);
    let (order, action) = order.advance(Event::Body(Ok(object(vec![("id", text("x"))]))));
    assert_eq!(action, Action::Respond(Ok(routed("x", "a", "10.0.0.1"))));
    assert!(!order.fits(&Event::Status(200)));
}

#[test]
fn orders_get_generated_names() {
    let (_, action) = provision_database(&registered(), order("a", None)).unwrap();
    let name = match action {
        Action::Send(HttpCall { body: Some(doc), .. }) => match doc.get("db_name") {
            Some(Json::Str(name)) => name.clone(),
            other => panic!("{:?}", other),
        },
        other => panic!("{:?}", other),
    };
    assert_eq!(name.len(), 11);
    assert!(name.starts_with("db_"));
    assert!(name[3..].chars().all(|c| matches!(c, '0'..='9' | 'a'..='f')));
}

#[test]
fn generated_names() {
    assert_eq!(generated_db_name("936da01f-9abd-4d9d-80c7-02af85c822a8"), "db_936da01f");
}

#[test]
fn orders_for_unknown_servers_are_refused() {
    let refused = provision_database(&registered(), order("zz", None)).unwrap_err();
    assert_eq!(refused.status, 404);
    assert_eq!(
        refused.body,
        object(vec![("error", text("No manager for server_id 'zz'"))])
    );
}

#[test]
fn orders_for_provisioning_servers_are_refused() {
    let mut state = MasterState::default();
    provision(&mut state, "p");
    let refused = provision_database(&state, order("p", None)).unwrap_err();
    assert_eq!(refused.status, 400);
    assert_eq!(
        refused.body,
        object(vec![("error", text("Manager 'p' is not online (status: provisioning)"))])
    );
}

#[test]
fn orders_for_servers_that_registered_early_are_accepted() {
    let mut state = registered();
    provision(&mut state, "a");
    let (_, action) = provision_database(&state, order("a", Some("mine"))).unwrap();
    assert_eq!(action, order_action("mine"));
}

#[test]
fn unreachable_managers_take_no_orders() {
    let (_, action) = placed().advance(unreachable_event());
    assert_eq!(action, error(400, "Could not reach manager: refused"));
}

#[test]
fn what_a_manager_refuses_is_passed_on() {
    let (order, action) = placed().advance(Event::Status(507));
    assert_eq!(action, Action::ReadText);
    assert_eq!(order.phase, Phase::ReadingText(507));
    let (_, action) = order.advance(Event::Text(Some("disk full".to_string())));
    assert_eq!(action, error(507, "disk full"));
    let (order, _) = placed().advance(Event::Status(503));
    let (_, action) = order.advance(Event::Text(None));
    assert_eq!(action, error(503, ""));
}

#[test]
fn replies_to_orders_must_be_json() {
    let (order, _) = placed().advance(Event::Status(200));
    assert!(!order.fits(&Event::Body(Ok(text("x")))));
    let (_, action) = order.advance(Event::Body(Err("no JSON".to_string())));
    assert_eq!(action, error(400, "Bad response from manager: no JSON"));
}
