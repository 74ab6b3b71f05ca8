//! How a manager is started: the plan, the command and the SSH conversation.
use vstd::prelude::*;

use crate::servers::{plan_server, provision_server, ProvisionPlan, ProvisionServerRequest};
use crate::ssh::{
    launch_command, log_path, ssh_start_manager, SshAction, SshEvent, SshLaunch, SshStep,
};
use crate::text::decimal;

verus! {

/// The plan does what the request asks for, and takes a default only for what
/// the request leaves open.
pub open spec fn fulfils(plan: ProvisionPlan, req: ProvisionServerRequest) -> bool {
    &&& plan.ip@ == req.ip@
    &&& plan.username@ == req.username@
    &&& plan.password@ == req.password@
    &&& req.manager_port matches Some(port) ==> plan.manager_port == port
    &&& req.manager_port is None ==> plan.manager_port == 7001
    &&& req.region matches Some(region) ==> plan.region@ == region@
    &&& req.region is None ==> plan.region@ == "default"@
    &&& req.manager_binary_path matches Some(path) ==> plan.binary_path@ == path@
    &&& req.manager_binary_path is None ==> plan.binary_path@ == "/usr/local/bin/mtpdb_manager"@
}

/// A plan fulfils its request, with the id and the master's URL that it is
/// given.
pub proof fn law_planning(
    req: &ProvisionServerRequest,
    master_url: String,
    server_id: String,
    plan: ProvisionPlan,
)
    requires
        call_ensures(plan_server, (req, master_url, server_id), plan),
    ensures
        fulfils(plan, *req),
        plan.master_url@ == master_url@,
        plan.server_id@ == server_id@,
{
}

/// A lower-case hexadecimal digit.
pub open spec fn hexadecimal(c: char) -> bool {
    ('0' <= c && c <= '9') || ('a' <= c && c <= 'f')
}

/// Provisioning plans what is asked for, under an id that is a random UUID: 36
/// characters, four hyphens, hexadecimal digits, version 4.
pub proof fn law_provisioning_plans(
    req: &ProvisionServerRequest,
    master_url: String,
    plan: ProvisionPlan,
)
    requires
        call_ensures(provision_server, (req, master_url), plan),
    ensures
        fulfils(plan, *req),
        plan.master_url@ == master_url@,
        plan.server_id@.len() == 36,
        plan.server_id@[8] == '-' && plan.server_id@[13] == '-' && plan.server_id@[18] == '-'
            && plan.server_id@[23] == '-',
        plan.server_id@[14] == '4',
        plan.server_id@[19] == '8' || plan.server_id@[19] == '9' || plan.server_id@[19] == 'a'
            || plan.server_id@[19] == 'b',
        forall|i: int|
            0 <= i < 36 && i != 8 && i != 13 && i != 18 && i != 23 ==> hexadecimal(
                #[trigger] plan.server_id@[i],
            ),
{
    assert forall|i: int| 0 <= i < 36 && i != 8 && i != 13 && i != 18 && i != 23 implies hexadecimal(
        #[trigger] plan.server_id@[i],
    ) by {
        assert(crate::outside::is_hex(plan.server_id@[i]));
    }
}

/// Each server has its log in a place of its own, named after it.
pub proof fn law_log_paths(server_id: &str, r: String, other: &str, s: String)
    requires
        call_ensures(log_path, (server_id,), r),
        call_ensures(log_path, (other,), s),
    ensures
        r@ == "/tmp/mtpdb_manager_"@ + server_id@ + ".log"@,
        r@ == s@ ==> server_id@ == other@,
{
    let head = "/tmp/mtpdb_manager_"@;
    let tail = ".log"@;
    if r@ == s@ {
        assert(r@.subrange(head.len() as int, r@.len() - tail.len()) =~= server_id@);
        assert(s@.subrange(head.len() as int, s@.len() - tail.len()) =~= other@);
    }
}

/// The words that start a manager: in the background, with the id, the master's
/// URL, the port and the region behind their options, and the log for its
/// output.
pub open spec fn starts(
    cmd: Seq<char>,
    binary_path: Seq<char>,
    server_id: Seq<char>,
    master_url: Seq<char>,
    port: u16,
    region: Seq<char>,
    log: Seq<char>,
) -> bool {
    cmd == "nohup "@ + binary_path + " --server-id "@ + server_id + " --master-url "@ + master_url
        + " --port "@ + decimal(port as nat) + " --region "@ + region + " > "@ + log + " 2>&1 &"@
}

/// The command starts a manager with what it is given, and logs where the
/// manager's log is.
pub proof fn law_launch_command(
    binary_path: &str,
    server_id: &str,
    master_url: &str,
    port: u16,
    region: &str,
    r: String,
    log: String,
)
    requires
        call_ensures(launch_command, (binary_path, server_id, master_url, port, region), r),
        call_ensures(log_path, (server_id,), log),
    ensures
        starts(r@, binary_path@, server_id@, master_url@, port, region@, log@),
{
}

/// The conversation begins by connecting to the SSH port of the server, and
/// carries the user name, the password and the command.
pub open spec fn begins(
    launch: SshLaunch,
    action: SshAction,
    ip: Seq<char>,
    username: Seq<char>,
    password: Seq<char>,
) -> bool {
    &&& launch.step == SshStep::Connecting
    &&& launch.addr@ == ip + ":22"@
    &&& launch.username@ == username
    &&& launch.password@ == password
    &&& action matches SshAction::Connect(addr) && addr@ == ip + ":22"@
}

/// A conversation begins on the server that is named, and carries the command
/// that starts its manager.
pub proof fn law_ssh_begins(
    ip: &str,
    username: &str,
    password: &str,
    server_id: &str,
    port: u16,
    region: &str,
    master_url: &str,
    binary_path: &str,
    r: (SshLaunch, SshAction),
    log: String,
)
    requires
        call_ensures(
            ssh_start_manager,
            (ip, username, password, server_id, port, region, master_url, binary_path),
            r,
        ),
        call_ensures(log_path, (server_id,), log),
    ensures
        begins(r.0, r.1, ip@, username@, password@),
        starts(r.0.cmd@, binary_path@, server_id@, master_url@, port, region@, log@),
{
}

/// A plan is launched on its server, with its credentials, its binary, its id,
/// its port and its region.
pub proof fn law_plan_launches(
    plan: ProvisionPlan,
    r: (SshLaunch, SshAction),
    id: &str,
    log: String,
)
    requires
        call_ensures(ProvisionPlan::launch, (&plan,), r),
        id@ == plan.server_id@,
        call_ensures(log_path, (id,), log),
    ensures
        begins(r.0, r.1, plan.ip@, plan.username@, plan.password@),
        starts(
            r.0.cmd@,
            plan.binary_path@,
            plan.server_id@,
            plan.master_url@,
            plan.manager_port,
            plan.region@,
            log@,
        ),
{
}

/// A conversation goes on with the same server, credentials and command.
pub open spec fn same_launch(a: SshLaunch, b: SshLaunch) -> bool {
    &&& a.addr@ == b.addr@
    &&& a.username@ == b.username@
    &&& a.password@ == b.password@
    &&& a.cmd@ == b.cmd@
}

/// The conversation is over, with a failure in these words.
pub open spec fn fails(r: (SshLaunch, SshAction), words: Seq<char>) -> bool {
    r.0.step == SshStep::Finished && (r.1 matches SshAction::Finish(Err(e)) && e@ == words)
}

/// What goes well leads to the next step: a session over the connection, the
/// handshake, the credentials of the launch, the question whether they were
/// accepted; then a channel, the command of the launch, its end and its exit
/// status.
pub proof fn law_ssh_goes_on(launch: SshLaunch, r: (SshLaunch, SshAction))
    requires
        call_ensures(SshLaunch::advance, (launch, SshEvent::Done), r),
    ensures
        same_launch(r.0, launch),
        launch.step == SshStep::Connecting ==> r.0.step == SshStep::OpeningSession
            && r.1 is OpenSession,
        launch.step == SshStep::OpeningSession ==> r.0.step == SshStep::ShakingHands
            && r.1 is Handshake,
        launch.step == SshStep::ShakingHands ==> r.0.step == SshStep::Authenticating && (
        r.1 matches SshAction::Authenticate(username, password) && username@ == launch.username@
            && password@ == launch.password@),
        launch.step == SshStep::Authenticating ==> r.0.step == SshStep::CheckingAuthentication
            && r.1 is CheckAuthenticated,
        launch.step == SshStep::OpeningChannel ==> r.0.step == SshStep::Executing && (
        r.1 matches SshAction::Exec(cmd) && cmd@ == launch.cmd@),
        launch.step == SshStep::Executing ==> r.0.step == SshStep::Closing && r.1 is WaitClose,
        launch.step == SshStep::Closing ==> r.0.step == SshStep::ReadingExitStatus
            && r.1 is ReadExitStatus,
{
}

/// An authenticated session opens a channel; one that is not ends the
/// conversation.
pub proof fn law_ssh_needs_authentication(
    launch: SshLaunch,
    authenticated: bool,
    r: (SshLaunch, SshAction),
)
    requires
        call_ensures(SshLaunch::advance, (launch, SshEvent::Authenticated(authenticated)), r),
        launch.step == SshStep::CheckingAuthentication,
    ensures
        same_launch(r.0, launch),
        authenticated ==> r.0.step == SshStep::OpeningChannel && r.1 is OpenChannel,
        !authenticated ==> fails(r, "SSH authentication was rejected"@),
{
}

/// An exit status of zero is success, and every other is a failure that names
/// it.
pub proof fn law_ssh_exit_status(launch: SshLaunch, code: i32, r: (SshLaunch, SshAction))
    requires
        call_ensures(SshLaunch::advance, (launch, SshEvent::ExitStatus(code)), r),
    ensures
        same_launch(r.0, launch),
        code == 0 ==> r.0.step == SshStep::Finished && (r.1 matches SshAction::Finish(Ok(_))),
        code > 0 ==> fails(r, "Remote command exited with status "@ + decimal(code as nat)),
        code < 0 ==> fails(
            r,
            "Remote command exited with status "@ + (seq!['-'] + decimal((-code) as nat)),
        ),
{
    reveal_strlit("-");
    assert("-"@ =~= seq!['-']);
}

/// A failure ends the conversation, in words that name the step, with its
/// reason.
pub proof fn law_ssh_failures(launch: SshLaunch, reason: String, r: (SshLaunch, SshAction))
    requires
        call_ensures(SshLaunch::advance, (launch, SshEvent::Failed(reason)), r),
    ensures
        same_launch(r.0, launch),
        launch.step == SshStep::Connecting ==> fails(
            r,
            "TCP connect to "@ + launch.addr@ + " failed: "@ + reason@,
        ),
        launch.step == SshStep::OpeningSession ==> fails(r, "SSH session error: "@ + reason@),
        launch.step == SshStep::ShakingHands ==> fails(r, "SSH handshake failed: "@ + reason@),
        launch.step == SshStep::Authenticating ==> fails(r, "SSH auth failed: "@ + reason@),
        launch.step == SshStep::OpeningChannel ==> fails(r, "SSH channel failed: "@ + reason@),
        launch.step == SshStep::Executing ==> fails(r, "SSH exec failed: "@ + reason@),
        launch.step == SshStep::Closing ==> fails(r, "SSH channel close error: "@ + reason@),
        launch.step == SshStep::ReadingExitStatus ==> fails(
            r,
            "Could not read exit status: "@ + reason@,
        ),
{
}

/// An answer on authentication fits only the question, an exit status only its
/// reading; every other step goes well or fails, and a finished conversation
/// takes nothing.
pub proof fn law_ssh_fits(launch: SshLaunch, event: SshEvent, r: bool)
    requires
        call_ensures(SshLaunch::fits, (&launch, &event), r),
    ensures
        launch.step == SshStep::Finished ==> !r,
        event is Authenticated ==> (r <==> launch.step == SshStep::CheckingAuthentication),
        event is ExitStatus ==> (r <==> launch.step == SshStep::ReadingExitStatus),
        event is Done ==> (r <==> launch.step != SshStep::CheckingAuthentication && launch.step
            != SshStep::ReadingExitStatus && launch.step != SshStep::Finished),
        event is Failed ==> (r <==> launch.step != SshStep::CheckingAuthentication && launch.step
            != SshStep::Finished),
{
}

} // verus!
