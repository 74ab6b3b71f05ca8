use mtpdb_master::http::{annotate, success};
use mtpdb_master::json::{Field, Json, Number};
use mtpdb_master::manager::ManagerEntry;
use mtpdb_master::reply::{api_err, health, not_found, refuse};

fn text(s: &str) -> Json {
    Json::Str(s.to_string())
}

fn object(fields: Vec<(&str, Json)>) -> Json {
    Json::Object(
        fields
            .into_iter()
            .map(|(name, value)| Field { name: name.to_string(), value })
            .collect(),
    )
}

fn manager(server_id: &str, ip: &str, region: &str) -> ManagerEntry {
    ManagerEntry {
        server_id: server_id.to_string(),
        ip: ip.to_string(),
        region: region.to_string(),
        manager_port: 7001,
        registered_at: "2024-01-02T03:04:05+00:00".to_string(),
        status: "online".to_string(),
    }
}

#[test]
fn members_are_found_by_name() {
    let doc = object(vec![("a", Json::Null), ("b", Json::Bool(true))]);
    assert_eq!(doc.get("b"), Some(&Json::Bool(true)));
    assert_eq!(doc.get("c"), None);
    assert_eq!(Json::Null.get("a"), None);
    assert_eq!(text("a").get("a"), None);
    assert_eq!(Json::Array(vec![doc]).get("a"), None);
}

#[test]
fn the_later_member_counts() {
    let doc = object(vec![("a", text("first")), ("a", text("second"))]);
    assert_eq!(doc.get("a"), Some(&text("second")));
}

#[test]
fn members_are_set() {
    let mut doc = object(vec![("a", Json::Null), ("b", text("kept"))]);
    doc.set("a", Json::Bool(false));
    doc.set("c", Json::Number(Number::Signed(-3)));
    assert_eq!(doc.get("a"), Some(&Json::Bool(false)));
    assert_eq!(doc.get("b"), Some(&text("kept")));
    assert_eq!(doc.get("c"), Some(&Json::Number(Number::Signed(-3))));
}

#[test]
fn null_becomes_an_object() {
    let mut doc = Json::Null;
    doc.set("a", Json::Bool(true));
    assert_eq!(doc, object(vec![("a", Json::Bool(true))]));
}

#[test]
fn which_documents_take_members() {
    assert!(Json::Null.takes_members());
    assert!(Json::empty_object().takes_members());
    assert!(!Json::Bool(true).takes_members());
    assert!(!Json::Number(Number::Unsigned(1)).takes_members());
    assert!(!text("x").takes_members());
    assert!(!Json::Array(vec![]).takes_members());
}

#[test]
fn arrays_are_told_apart() {
    assert_eq!(Json::Array(vec![Json::Null]).as_array(), Some(&vec![Json::Null]));
    assert_eq!(Json::empty_object().as_array(), None);
}

#[test]
fn copies_are_equal() {
    let doc = object(vec![
        ("list", Json::Array(vec![text("x"), object(vec![("deep", Json::Null)])])),
        ("float", Json::Number(Number::FloatBits(1.5f64.to_bits()))),
        ("flag", Json::Bool(true)),
    ]);
    assert_eq!(doc.clone(), doc);
}

#[test]
fn annotation_adds_routing_metadata() {
    let mut doc = object(vec![("id", text("db-1")), ("region", text("stale"))]);
    annotate(&mut doc, &manager("s1", "10.0.0.1", "eu"));
    assert_eq!(doc.get("id"), Some(&text("db-1")));
    assert_eq!(doc.get("server_id"), Some(&text("s1")));
    assert_eq!(doc.get("region"), Some(&text("eu")));
    assert_eq!(doc.get("host"), Some(&text("10.0.0.1")));
}

#[test]
fn the_last_annotation_counts() {
    let mut once = object(vec![("id", text("db-1"))]);
    let mut twice = once.clone();
    annotate(&mut twice, &manager("s1", "10.0.0.1", "eu"));
    annotate(&mut twice, &manager("s2", "10.0.0.2", "us"));
    annotate(&mut once, &manager("s2", "10.0.0.2", "us"));
    assert_eq!(once, twice);
}

#[test]
fn refusals() {
    let refused = api_err("no good");
    assert_eq!(refused.status, 400);
    assert_eq!(refused.body, object(vec![("error", text("no good"))]));
    let missing = not_found("gone");
    assert_eq!(missing.status, 404);
    assert_eq!(missing.body, object(vec![("error", text("gone"))]));
    assert_eq!(refuse(507, "full").status, 507);
}

#[test]
fn health_body() {
    assert_eq!(
        health(),
        object(vec![("status", text("ok")), ("service", text("mtpdb_master"))])
    );
}

#[test]
fn which_statuses_report_success() {
    assert!(!success(199));
    assert!(success(200));
    assert!(success(204));
    assert!(success(299));
    assert!(!success(300));
    assert!(!success(404));
    assert!(!success(500));
}
