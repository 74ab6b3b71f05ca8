//! Requests to managers, and the events that conversations with them take.
use vstd::prelude::*;

use crate::http::{
    event_fits, instance_url, instances_url, provision_url, success, Action, Event, Method, Phase,
};
use crate::json::JsonView;
use crate::laws::documents::{member, only_members};
use crate::manager::ManagerEntry;
use crate::reply::ApiError;
use crate::text::decimal;

verus! {

/// Where a manager is reached.
pub open spec fn home(ip: Seq<char>, port: u16) -> Seq<char> {
    "http://"@ + ip + ":"@ + decimal(port as nat)
}

/// A request without a body is to be sent.
pub open spec fn sends(action: Action, method: Method, url: Seq<char>, timeout_secs: u64) -> bool {
    action matches Action::Send(call) && call.method == method && call.url@ == url
        && call.body is None && call.timeout_secs == timeout_secs
}

/// The refusal has this status and says these words and nothing else.
pub open spec fn says(refused: ApiError, status: u16, words: Seq<char>) -> bool {
    &&& refused.status == status
    &&& member(refused.body@, "error"@) == Some(JsonView::Str(words))
    &&& only_members(refused.body@, seq!["error"@])
}

/// The caller is to be refused, with this status and these words.
pub open spec fn refuses(action: Action, status: u16, words: Seq<char>) -> bool {
    action matches Action::Respond(Err(refused)) && says(refused, status, words)
}

/// Success is the statuses from 200 to 299, and no other.
pub proof fn law_success(status: u16, r: bool)
    requires
        call_ensures(success, (status,), r),
    ensures
        r <==> 200 <= status <= 299,
{
}

/// What answers a request is a status or a failure, what answers a reading is
/// what was read, and an answered conversation takes nothing.
pub proof fn law_event_fits(phase: Phase, event: Event, r: bool)
    requires
        call_ensures(event_fits, (phase, &event), r),
    ensures
        phase is Asking ==> (r <==> event is Unreachable || event is Status),
        phase is ReadingJson ==> (r <==> event is Body),
        phase is ReadingText ==> (r <==> event is Text),
        phase is Answered ==> !r,
{
}

/// The addresses of a manager's services are its own address and port, and the
/// path of the service. That of an instance ends in its whole id.
pub proof fn law_urls(
    manager: &ManagerEntry,
    db_id: &str,
    instances: String,
    instance: String,
    provision: String,
)
    requires
        call_ensures(instances_url, (manager,), instances),
        call_ensures(instance_url, (manager, db_id), instance),
        call_ensures(provision_url, (manager,), provision),
    ensures
        instances@ == home(manager.ip@, manager.manager_port) + "/instances"@,
        instance@ == home(manager.ip@, manager.manager_port) + "/instances/"@ + db_id@,
        provision@ == home(manager.ip@, manager.manager_port) + "/provision"@,
{
}

/// Two instances of one manager have the same address if and only if they have
/// the same id.
pub proof fn law_instance_urls(
    manager: &ManagerEntry,
    a: &str,
    b: &str,
    url_a: String,
    url_b: String,
)
    requires
        call_ensures(instance_url, (manager, a), url_a),
        call_ensures(instance_url, (manager, b), url_b),
    ensures
        url_a@ == url_b@ <==> a@ == b@,
{
    lemma_same_rest(home(manager.ip@, manager.manager_port) + "/instances/"@, a@, b@);
}

pub(crate) proof fn lemma_same_rest(head: Seq<char>, a: Seq<char>, b: Seq<char>)
    ensures
        head + a == head + b <==> a == b,
{
    if head + a == head + b {
        assert((head + a).skip(head.len() as int) =~= a);
        assert((head + b).skip(head.len() as int) =~= b);
    }
}

} // verus!
