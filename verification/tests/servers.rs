use mtpdb_master::json::{Field, Json, Number};
use mtpdb_master::registry::MasterState;
use mtpdb_master::servers::{
    finish_provision, list_managers, list_servers, manager_register, plan_server,
    provision_server, record_provisioned, record_registered, LaunchOutcome,
    ManagerRegisterRequest, ProvisionPlan, ProvisionServerRequest,
};
use mtpdb_master::ssh::SshAction;

fn text(s: &str) -> Json {
    Json::Str(s.to_string())
}

fn object(fields: Vec<(&str, Json)>) -> Json {
    Json::Object(
        fields
            .into_iter()
            .map(|(name, value)| Field { name: name.to_string(), value })
            .collect(),
    )
}

fn bare_request() -> ProvisionServerRequest {
    ProvisionServerRequest {
        ip: "192.0.2.10".to_string(),
        username: "root".to_string(),
        password: "pw".to_string(),
        region: None,
        manager_port: None,
        manager_binary_path: None,
    }
}

fn bare_plan() -> ProvisionPlan {
    plan_server(&bare_request(), "http://m:7000".to_string(), "s1".to_string())
}

fn registration(server_id: &str, ip: &str) -> ManagerRegisterRequest {
    ManagerRegisterRequest {
        server_id: server_id.to_string(),
        ip: ip.to_string(),
        region: "eu".to_string(),
        manager_port: 7001,
    }
}

#[test]
fn plans_have_defaults() {
    let plan = bare_plan();
    assert_eq!(plan.server_id, "s1");
    assert_eq!(plan.ip, "192.0.2.10");
    assert_eq!(plan.username, "root");
    assert_eq!(plan.password, "pw");
    assert_eq!(plan.manager_port, 7001);
    assert_eq!(plan.region, "default");
    assert_eq!(plan.binary_path, "/usr/local/bin/mtpdb_manager");
    assert_eq!(plan.master_url, "http://m:7000");
}

#[test]
fn plans_follow_the_request() {
    let req = ProvisionServerRequest {
        region: Some("us-east-1".to_string()),
        manager_port: Some(9001),
        manager_binary_path: Some("/opt/manager".to_string()),
        ..bare_request()
    };
    let plan = plan_server(&req, "http://m:7000".to_string(), "s1".to_string());
    assert_eq!(plan.region, "us-east-1");
    assert_eq!(plan.manager_port, 9001);
    assert_eq!(plan.binary_path, "/opt/manager");
}

#[test]
fn server_ids_are_random_uuids() {
    let plan = provision_server(&bare_request(), "http://m:7000".to_string());
    let uuid = uuid::Uuid::parse_str(&plan.server_id).unwrap();
    assert_eq!(uuid.get_version_num(), 4);
    assert_eq!(uuid.get_variant(), uuid::Variant::RFC4122);
    assert_eq!(uuid.to_string(), plan.server_id);
    let other = provision_server(&bare_request(), "http://m:7000".to_string());
    assert_ne!(plan.server_id, other.server_id);
    assert_eq!(plan.master_url, "http://m:7000");
}

#[test]
fn plans_launch_over_ssh() {
    let (launch, action) = bare_plan().launch();
    assert_eq!(action, SshAction::Connect("192.0.2.10:22".to_string()));
    assert_eq!(
        launch.cmd,
        "nohup /usr/local/bin/mtpdb_manager --server-id s1 --master-url http://m:7000 \
         --port 7001 --region default > /tmp/mtpdb_manager_s1.log 2>&1 &"
    );
}

#[test]
fn provisioned_servers_are_registered() {
    let mut state = MasterState::default();
    let answer = record_provisioned(&mut state, &bare_plan(), "then".to_string());
    assert_eq!(
        answer,
        object(vec![
            ("server_id", text("s1")),
            ("status", text("provisioning")),
            (
                "message",
                text("Manager process started via SSH; it will register shortly.")
            ),
            ("manager_url", text("http://192.0.2.10:7001")),
        ])
    );
    let entry = state.get(&"s1".to_string()).unwrap();
    assert_eq!(entry.server_id, "s1");
    assert_eq!(entry.ip, "192.0.2.10");
    assert_eq!(entry.region, "default");
    assert_eq!(entry.manager_port, 7001);
    assert_eq!(entry.registered_at, "then");
    assert_eq!(entry.status, "provisioning");
}

#[test]
fn finished_provisioning_is_stamped() {
    let mut state = MasterState::default();
    let answer = finish_provision(&mut state, &bare_plan(), LaunchOutcome::Ended(Ok(())));
    assert_eq!(answer.unwrap().get("status"), Some(&text("provisioning")));
    let entry = state.get(&"s1".to_string()).unwrap();
    assert!(chrono::DateTime::parse_from_rfc3339(&entry.registered_at).is_ok());
    assert!(entry.registered_at.ends_with("+00:00"));
    assert_eq!(entry.registered_at.find('T'), Some(10));
}

#[test]
fn failed_provisioning_registers_nothing() {
    let mut state = MasterState::default();
    let failed = LaunchOutcome::Ended(Err("SSH auth failed: no".to_string()));
    let refused = finish_provision(&mut state, &bare_plan(), failed).unwrap_err();
    assert_eq!(refused.status, 400);
    assert_eq!(
        refused.body,
        object(vec![("error", text("SSH provisioning failed: SSH auth failed: no"))])
    );
    let lost = LaunchOutcome::Lost("task panicked".to_string());
    let refused = finish_provision(&mut state, &bare_plan(), lost).unwrap_err();
    assert_eq!(refused.status, 400);
    assert_eq!(refused.body, object(vec![("error", text("Spawn error: task panicked"))]));
    assert!(state.managers().is_empty());
}

#[test]
fn managers_register() {
    let mut state = MasterState::default();
    let answer = manager_register(&mut state, &registration("s1", "192.0.2.10"));
    assert_eq!(
        answer,
        object(vec![("status", text("registered")), ("server_id", text("s1"))])
    );
    let entry = state.get(&"s1".to_string()).unwrap();
    assert_eq!(entry.status, "online");
    assert_eq!(entry.ip, "192.0.2.10");
    assert_eq!(entry.region, "eu");
    let stamp = chrono::DateTime::parse_from_rfc3339(&entry.registered_at).unwrap();
    let age = chrono::Utc::now().signed_duration_since(stamp);
    assert!(age.num_seconds() >= 0 && age.num_seconds() < 60);
}

#[test]
fn registration_replaces_provisioning() {
    let mut state = MasterState::default();
    record_provisioned(&mut state, &bare_plan(), "then".to_string());
    record_registered(&mut state, &registration("s1", "198.51.100.1"), "now".to_string());
    let managers = state.managers();
    assert_eq!(managers.len(), 1);
    assert_eq!(managers[0].status, "online");
    assert_eq!(managers[0].ip, "198.51.100.1");
    assert_eq!(managers[0].region, "eu");
    assert_eq!(managers[0].registered_at, "now");
}

#[test]
fn a_later_provisioning_replaces_an_earlier_one() {
    let mut state = MasterState::default();
    record_provisioned(&mut state, &bare_plan(), "t1".to_string());
    let moved = ProvisionPlan {
        ip: "203.0.113.5".to_string(),
        region: "us-east-1".to_string(),
        ..bare_plan()
    };
    let answer = record_provisioned(&mut state, &moved, "t2".to_string());
    assert_eq!(answer.get("manager_url"), Some(&text("http://203.0.113.5:7001")));
    let managers = state.managers();
    assert_eq!(managers.len(), 1);
    assert_eq!(managers[0].ip, "203.0.113.5");
    assert_eq!(managers[0].region, "us-east-1");
    assert_eq!(managers[0].registered_at, "t2");
    assert_eq!(managers[0].status, "provisioning");
}

#[test]
fn registration_outlives_provisioning() {
    let mut state = MasterState::default();
    record_registered(&mut state, &registration("s1", "198.51.100.1"), "t1".to_string());
    let registered = state.get(&"s1".to_string()).unwrap().clone();
    let answer = record_provisioned(&mut state, &bare_plan(), "t2".to_string());
    assert_eq!(answer.get("status"), Some(&text("provisioning")));
    assert_eq!(state.get(&"s1".to_string()), Some(&registered));
    let answer = finish_provision(&mut state, &bare_plan(), LaunchOutcome::Ended(Ok(())));
    assert_eq!(answer.unwrap().get("server_id"), Some(&text("s1")));
    assert_eq!(state.managers(), vec![registered]);
    assert_eq!(state.managers()[0].status, "online");
}

#[test]
fn other_servers_are_untouched() {
    let mut state = MasterState::default();
    record_registered(&mut state, &registration("a", "10.0.0.1"), "t1".to_string());
    record_registered(&mut state, &registration("b", "10.0.0.2"), "t2".to_string());
    let before = state.get(&"a".to_string()).unwrap().clone();
    record_registered(&mut state, &registration("b", "10.0.0.3"), "t3".to_string());
    record_provisioned(&mut state, &bare_plan(), "t4".to_string());
    assert_eq!(state.get(&"a".to_string()), Some(&before));
    assert_eq!(state.get(&"b".to_string()).unwrap().ip, "10.0.0.3");
    assert_eq!(state.managers().len(), 3);
    assert!(state.get(&"c".to_string()).is_none());
}

#[test]
fn an_empty_registry_lists_no_servers() {
    assert_eq!(
        list_servers(&MasterState::default()),
        object(vec![
            ("servers", Json::Array(vec![])),
            ("count", Json::Number(Number::Unsigned(0))),
        ])
    );
}

#[test]
fn registered_servers_are_listed() {
    let mut state = MasterState::default();
    record_registered(&mut state, &registration("a", "10.0.0.1"), "t1".to_string());
    record_registered(&mut state, &registration("b", "10.0.0.2"), "t2".to_string());
    let listed = list_servers(&state);
    assert_eq!(listed.get("count"), Some(&Json::Number(Number::Unsigned(2))));
    let servers = listed.get("servers").unwrap().as_array().unwrap();
    assert_eq!(servers.len(), 2);
    let first = object(vec![
        ("server_id", text("a")),
        ("ip", text("10.0.0.1")),
        ("region", text("eu")),
        ("manager_port", Json::Number(Number::Unsigned(7001))),
        ("registered_at", text("t1")),
        ("status", text("online")),
    ]);
    assert!(servers.contains(&first));
    assert_eq!(list_managers(&state.managers()), listed);
}
