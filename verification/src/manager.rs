//! A registered manager, one per remote server.
use vstd::prelude::*;

use crate::json::{Json, JsonView, Number};
use crate::text::{decimal, decimal_text};

verus! {

/// A registered manager (one per remote server).
#[derive(Debug, PartialEq, Eq)]
pub struct ManagerEntry {
    pub server_id: String,
    pub ip: String,
    pub region: String,
    pub manager_port: u16,
    pub registered_at: String,
    /// "provisioning" | "online" | "unreachable"
    pub status: String,
}

/// What a manager entry says.
pub struct ManagerView {
    pub server_id: Seq<char>,
    pub ip: Seq<char>,
    pub region: Seq<char>,
    pub manager_port: u16,
    pub registered_at: Seq<char>,
    pub status: Seq<char>,
}

impl View for ManagerEntry {
    type V = ManagerView;

    open spec fn view(&self) -> ManagerView {
        ManagerView {
            server_id: self.server_id@,
            ip: self.ip@,
            region: self.region@,
            manager_port: self.manager_port,
            registered_at: self.registered_at@,
            status: self.status@,
        }
    }
}

impl Clone for ManagerEntry {
    fn clone(&self) -> (r: Self)
        ensures
            r == *self,
    {
        ManagerEntry {
            server_id: self.server_id.clone(),
            ip: self.ip.clone(),
            region: self.region.clone(),
            manager_port: self.manager_port,
            registered_at: self.registered_at.clone(),
            status: self.status.clone(),
        }
    }
}

pub open spec fn is_online(manager: ManagerView) -> bool {
    manager.status == "online"@
}

/// The address at which a manager answers HTTP.
pub open spec fn base_url(ip: Seq<char>, port: u16) -> Seq<char> {
    "http://"@ + ip + ":"@ + decimal(port as nat)
}

/// Writes the address at which a manager answers HTTP.
pub fn manager_url(ip: &str, port: u16) -> (r: String)
    ensures
        r@ == base_url(ip@, port),
{
    let mut url = "http://".to_string();
    url.append(ip);
    url.append(":");
    url.append(decimal_text(port as u64).as_str());
    url
}

/// A manager entry as a JSON object.
pub open spec fn entry_json(manager: ManagerView) -> JsonView {
    JsonView::Object(
        map![
            "server_id"@ => JsonView::Str(manager.server_id),
            "ip"@ => JsonView::Str(manager.ip),
            "region"@ => JsonView::Str(manager.region),
            "manager_port"@ => JsonView::Number(Number::Unsigned(manager.manager_port as u64)),
            "registered_at"@ => JsonView::Str(manager.registered_at),
            "status"@ => JsonView::Str(manager.status),
        ],
    )
}

impl ManagerEntry {
    /// The entry as a JSON object.
    pub fn to_json(&self) -> (r: Json)
        ensures
            r@ == entry_json(self@),
    {
        let mut doc = Json::empty_object();
        doc.set("server_id", Json::text(self.server_id.as_str()));
        doc.set("ip", Json::text(self.ip.as_str()));
        doc.set("region", Json::text(self.region.as_str()));
        doc.set("manager_port", Json::Number(Number::Unsigned(self.manager_port as u64)));
        doc.set("registered_at", Json::text(self.registered_at.as_str()));
        doc.set("status", Json::text(self.status.as_str()));
        doc
    }

    /// Whether the manager has called back.
    pub fn is_online(&self) -> (r: bool)
        ensures
            r == is_online(self@),
    {
        self.status == "online".to_string()
    }
}

} // verus!
