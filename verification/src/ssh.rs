//! Starting a manager on a remote server over SSH.
//!
//! The conversation is a state machine: each step names the one thing to do
//! next, and takes what came of it.
use vstd::prelude::*;

use crate::text::{decimal, decimal_text, signed_decimal, signed_decimal_text};

verus! {

/// How far the conversation has come: what is under way.
#[derive(Debug, Clone, Copy, PartialEq, Eq, Structural)]
pub enum SshStep {
    Connecting,
    OpeningSession,
    ShakingHands,
    Authenticating,
    CheckingAuthentication,
    OpeningChannel,
    Executing,
    Closing,
    ReadingExitStatus,
    Finished,
}

/// What is to be done next.
#[derive(Debug, PartialEq, Eq)]
pub enum SshAction {
    /// Open a TCP connection to this address.
    Connect(String),
    /// Make an SSH session over the connection.
    OpenSession,
    Handshake,
    /// Authenticate with this user name and password.
    Authenticate(String, String),
    /// Ask the session whether it is authenticated.
    CheckAuthenticated,
    OpenChannel,
    /// Execute this command on the channel.
    Exec(String),
    /// Wait until the channel is closed.
    WaitClose,
    ReadExitStatus,
    /// Nothing is left to do: the result.
    Finish(Result<(), String>),
}

/// What came of it.
#[derive(Debug, PartialEq, Eq)]
pub enum SshEvent {
    Done,
    /// It failed, for this reason.
    Failed(String),
    Authenticated(bool),
    ExitStatus(i32),
}

/// A conversation under way.
#[derive(Debug, PartialEq, Eq)]
pub struct SshLaunch {
    pub addr: String,
    pub username: String,
    pub password: String,
    pub cmd: String,
    pub step: SshStep,
}

pub enum SshActionView {
    Connect(Seq<char>),
    OpenSession,
    Handshake,
    Authenticate(Seq<char>, Seq<char>),
    CheckAuthenticated,
    OpenChannel,
    Exec(Seq<char>),
    WaitClose,
    ReadExitStatus,
    Finish(Result<(), Seq<char>>),
}

pub enum SshEventView {
    Done,
    Failed(Seq<char>),
    Authenticated(bool),
    ExitStatus(i32),
}

pub struct SshLaunchView {
    pub addr: Seq<char>,
    pub username: Seq<char>,
    pub password: Seq<char>,
    pub cmd: Seq<char>,
    pub step: SshStep,
}

impl View for SshAction {
    type V = SshActionView;

    open spec fn view(&self) -> SshActionView {
        match self {
            SshAction::Connect(addr) => SshActionView::Connect(addr@),
            SshAction::OpenSession => SshActionView::OpenSession,
            SshAction::Handshake => SshActionView::Handshake,
            SshAction::Authenticate(u, p) => SshActionView::Authenticate(u@, p@),
            SshAction::CheckAuthenticated => SshActionView::CheckAuthenticated,
            SshAction::OpenChannel => SshActionView::OpenChannel,
            SshAction::Exec(cmd) => SshActionView::Exec(cmd@),
            SshAction::WaitClose => SshActionView::WaitClose,
            SshAction::ReadExitStatus => SshActionView::ReadExitStatus,
            SshAction::Finish(Ok(())) => SshActionView::Finish(Ok(())),
            SshAction::Finish(Err(e)) => SshActionView::Finish(Err(e@)),
        }
    }
}

impl View for SshEvent {
    type V = SshEventView;

    open spec fn view(&self) -> SshEventView {
        match self {
            SshEvent::Done => SshEventView::Done,
            SshEvent::Failed(e) => SshEventView::Failed(e@),
            SshEvent::Authenticated(b) => SshEventView::Authenticated(*b),
            SshEvent::ExitStatus(code) => SshEventView::ExitStatus(*code),
        }
    }
}

impl View for SshLaunch {
    type V = SshLaunchView;

    open spec fn view(&self) -> SshLaunchView {
        SshLaunchView {
            addr: self.addr@,
            username: self.username@,
            password: self.password@,
            cmd: self.cmd@,
            step: self.step,
        }
    }
}

/// Where a server takes SSH connections.
pub open spec fn ssh_address(ip: Seq<char>) -> Seq<char> {
    ip + ":22"@
}

/// Where a manager on the remote server writes its log.
pub open spec fn log_path_of(server_id: Seq<char>) -> Seq<char> {
    "/tmp/mtpdb_manager_"@ + server_id + ".log"@
}

/// The command that starts a manager, which outlives the session.
pub open spec fn launch_command_of(
    binary_path: Seq<char>,
    server_id: Seq<char>,
    master_url: Seq<char>,
    manager_port: u16,
    region: Seq<char>,
) -> Seq<char> {
    "nohup "@ + binary_path + " --server-id "@ + server_id + " --master-url "@ + master_url
        + " --port "@ + decimal(manager_port as nat) + " --region "@ + region + " > "@
        + log_path_of(server_id) + " 2>&1 &"@
}

/// The words before the reason of a failure.
pub open spec fn failure_prefix(launch: SshLaunchView) -> Seq<char> {
    match launch.step {
        SshStep::Connecting => "TCP connect to "@ + launch.addr + " failed: "@,
        SshStep::OpeningSession => "SSH session error: "@,
        SshStep::ShakingHands => "SSH handshake failed: "@,
        SshStep::Authenticating => "SSH auth failed: "@,
        SshStep::OpeningChannel => "SSH channel failed: "@,
        SshStep::Executing => "SSH exec failed: "@,
        SshStep::Closing => "SSH channel close error: "@,
        SshStep::ReadingExitStatus => "Could not read exit status: "@,
        _ => ""@,
    }
}

/// Whether the event can be what came of the step under way.
pub open spec fn ssh_fits(step: SshStep, event: SshEventView) -> bool {
    match step {
        SshStep::Finished => false,
        SshStep::CheckingAuthentication => event is Authenticated,
        SshStep::ReadingExitStatus => event is ExitStatus || event is Failed,
        _ => event is Done || event is Failed,
    }
}

/// What the conversation does at a step.
pub open spec fn ssh_asks(launch: SshLaunchView) -> SshActionView {
    match launch.step {
        SshStep::Connecting => SshActionView::Connect(launch.addr),
        SshStep::OpeningSession => SshActionView::OpenSession,
        SshStep::ShakingHands => SshActionView::Handshake,
        SshStep::Authenticating => SshActionView::Authenticate(launch.username, launch.password),
        SshStep::CheckingAuthentication => SshActionView::CheckAuthenticated,
        SshStep::OpeningChannel => SshActionView::OpenChannel,
        SshStep::Executing => SshActionView::Exec(launch.cmd),
        SshStep::Closing => SshActionView::WaitClose,
        SshStep::ReadingExitStatus => SshActionView::ReadExitStatus,
        SshStep::Finished => SshActionView::Finish(Ok(())),
    }
}

/// The step that follows when all went well.
pub open spec fn ssh_successor(step: SshStep) -> SshStep {
    match step {
        SshStep::Connecting => SshStep::OpeningSession,
        SshStep::OpeningSession => SshStep::ShakingHands,
        SshStep::ShakingHands => SshStep::Authenticating,
        SshStep::Authenticating => SshStep::CheckingAuthentication,
        SshStep::CheckingAuthentication => SshStep::OpeningChannel,
        SshStep::OpeningChannel => SshStep::Executing,
        SshStep::Executing => SshStep::Closing,
        SshStep::Closing => SshStep::ReadingExitStatus,
        _ => SshStep::Finished,
    }
}

pub open spec fn at_step(launch: SshLaunchView, step: SshStep) -> SshLaunchView {
    SshLaunchView { step, ..launch }
}

/// The first step of a conversation.
pub open spec fn ssh_start(
    addr: Seq<char>,
    username: Seq<char>,
    password: Seq<char>,
    cmd: Seq<char>,
) -> SshLaunchView {
    SshLaunchView { addr, username, password, cmd, step: SshStep::Connecting }
}

/// What an event makes of a conversation, and what is to be done next.
///
/// The first failure ends it, with its reason behind words that name the step.
/// So does a session that is not authenticated, and an exit status other than
/// zero. Otherwise the next step follows.
pub open spec fn ssh_next(launch: SshLaunchView, event: SshEventView) -> (
    SshLaunchView,
    SshActionView,
) {
    let over = at_step(launch, SshStep::Finished);
    let onward = at_step(launch, ssh_successor(launch.step));
    match event {
        SshEventView::Failed(e) => (
            over,
            SshActionView::Finish(Err(failure_prefix(launch) + e)),
        ),
        SshEventView::Authenticated(false) => (
            over,
            SshActionView::Finish(Err("SSH authentication was rejected"@)),
        ),
        SshEventView::ExitStatus(code) => (
            over,
            SshActionView::Finish(
                if code == 0 {
                    Ok(())
                } else {
                    Err("Remote command exited with status "@ + signed_decimal(code as int))
                },
            ),
        ),
        _ => (onward, ssh_asks(onward)),
    }
}

/// Writes where a manager on the remote server writes its log.
pub fn log_path(server_id: &str) -> (r: String)
    ensures
        r@ == log_path_of(server_id@),
{
    let mut path = "/tmp/mtpdb_manager_".to_string();
    path.append(server_id);
    path.append(".log");
    path
}

/// Writes the command that starts a manager.
pub fn launch_command(
    binary_path: &str,
    server_id: &str,
    master_url: &str,
    manager_port: u16,
    region: &str,
) -> (r: String)
    ensures
        r@ == launch_command_of(binary_path@, server_id@, master_url@, manager_port, region@),
{
    let mut cmd = "nohup ".to_string();
    cmd.append(binary_path);
    cmd.append(" --server-id ");
    cmd.append(server_id);
    cmd.append(" --master-url ");
    cmd.append(master_url);
    cmd.append(" --port ");
    cmd.append(decimal_text(manager_port as u64).as_str());
    cmd.append(" --region ");
    cmd.append(region);
    cmd.append(" > ");
    cmd.append(log_path(server_id).as_str());
    cmd.append(" 2>&1 &");
    cmd
}

/// Begins the conversation that starts a manager on a remote server.
pub fn ssh_start_manager(
    ip: &str,
    username: &str,
    password: &str,
    server_id: &str,
    manager_port: u16,
    region: &str,
    master_url: &str,
    binary_path: &str,
) -> (r: (SshLaunch, SshAction))
    ensures
        r.0@ == ssh_start(
            ssh_address(ip@),
            username@,
            password@,
            launch_command_of(binary_path@, server_id@, master_url@, manager_port, region@),
        ),
        r.1@ == ssh_asks(r.0@),
{
    let mut addr = ip.to_string();
    addr.append(":22");
    let cmd = launch_command(binary_path, server_id, master_url, manager_port, region);
    let first = SshAction::Connect(addr.clone());
    (
        SshLaunch {
            addr,
            username: username.to_string(),
            password: password.to_string(),
            cmd,
            step: SshStep::Connecting,
        },
        first,
    )
}

impl SshLaunch {
    fn failure_text(&self, reason: &str) -> (r: String)
        ensures
            r@ == failure_prefix(self@) + reason@,
    {
        let mut text = match self.step {
            SshStep::Connecting => {
                let mut t = "TCP connect to ".to_string();
                t.append(self.addr.as_str());
                t.append(" failed: ");
                t
            },
            SshStep::OpeningSession => "SSH session error: ".to_string(),
            SshStep::ShakingHands => "SSH handshake failed: ".to_string(),
            SshStep::Authenticating => "SSH auth failed: ".to_string(),
            SshStep::OpeningChannel => "SSH channel failed: ".to_string(),
            SshStep::Executing => "SSH exec failed: ".to_string(),
            SshStep::Closing => "SSH channel close error: ".to_string(),
            SshStep::ReadingExitStatus => "Could not read exit status: ".to_string(),
            _ => "".to_string(),
        };
        text.append(reason);
        text
    }

    /// Whether `advance` may be called with the event.
    pub fn fits(&self, event: &SshEvent) -> (r: bool)
        ensures
            r == ssh_fits(self.step, event@),
    {
        match (self.step, event) {
            (SshStep::Finished, _) => false,
            (SshStep::CheckingAuthentication, SshEvent::Authenticated(_)) => true,
            (SshStep::CheckingAuthentication, _) => false,
            (SshStep::ReadingExitStatus, SshEvent::ExitStatus(_)) => true,
            (SshStep::ReadingExitStatus, SshEvent::Failed(_)) => true,
            (SshStep::ReadingExitStatus, _) => false,
            (_, SshEvent::Done) => true,
            (_, SshEvent::Failed(_)) => true,
            (_, _) => false,
        }
    }

    fn proceed(self) -> (r: (SshLaunch, SshAction))
        requires
            self.step != SshStep::ReadingExitStatus,
            self.step != SshStep::Finished,
        ensures
            r.0@ == at_step(self@, ssh_successor(self.step)),
            r.1@ == ssh_asks(r.0@),
    {
        let (step, action) = match self.step {
            SshStep::Connecting => (SshStep::OpeningSession, SshAction::OpenSession),
            SshStep::OpeningSession => (SshStep::ShakingHands, SshAction::Handshake),
            SshStep::ShakingHands => (
                SshStep::Authenticating,
                SshAction::Authenticate(self.username.clone(), self.password.clone()),
            ),
            SshStep::Authenticating => (
                SshStep::CheckingAuthentication,
                SshAction::CheckAuthenticated,
            ),
            SshStep::CheckingAuthentication => (SshStep::OpeningChannel, SshAction::OpenChannel),
            SshStep::OpeningChannel => (SshStep::Executing, SshAction::Exec(self.cmd.clone())),
            SshStep::Executing => (SshStep::Closing, SshAction::WaitClose),
            _ => (SshStep::ReadingExitStatus, SshAction::ReadExitStatus),
        };
        (SshLaunch { step, ..self }, action)
    }

    fn finish(self, result: Result<(), String>) -> (r: (SshLaunch, SshAction))
        ensures
            r.0@ == at_step(self@, SshStep::Finished),
            r.1 == SshAction::Finish(result),
    {
        (SshLaunch { step: SshStep::Finished, ..self }, SshAction::Finish(result))
    }

    /// Takes what came of the step under way, and says what is to be done next.
    pub fn advance(self, event: SshEvent) -> (r: (SshLaunch, SshAction))
        requires
            ssh_fits(self.step, event@),
        ensures
            (r.0@, r.1@) == ssh_next(self@, event@),
    {
        match event {
            SshEvent::Failed(e) => {
                let text = self.failure_text(e.as_str());
                self.finish(Err(text))
            },
            SshEvent::Authenticated(false) => self.finish(
                Err("SSH authentication was rejected".to_string()),
            ),
            SshEvent::ExitStatus(code) => if code == 0 {
                self.finish(Ok(()))
            } else {
                let mut text = "Remote command exited with status ".to_string();
                text.append(signed_decimal_text(code).as_str());
                self.finish(Err(text))
            },
            _ => self.proceed(),
        }
    }
}

/// What a remote server would make of each step: nothing, or the reason why it
/// fails.
pub struct SshWorld {
    pub connect: Option<Seq<char>>,
    pub session: Option<Seq<char>>,
    pub handshake: Option<Seq<char>>,
    pub auth: Option<Seq<char>>,
    pub authenticated: bool,
    pub channel: Option<Seq<char>>,
    pub execution: Option<Seq<char>>,
    pub close: Option<Seq<char>>,
    pub exit: Result<i32, Seq<char>>,
}

pub open spec fn done_or_failed(failure: Option<Seq<char>>) -> SshEventView {
    match failure {
        Some(e) => SshEventView::Failed(e),
        None => SshEventView::Done,
    }
}

/// What comes of an action.
pub open spec fn ssh_event(action: SshActionView, world: SshWorld) -> SshEventView {
    match action {
        SshActionView::Connect(_) => done_or_failed(world.connect),
        SshActionView::OpenSession => done_or_failed(world.session),
        SshActionView::Handshake => done_or_failed(world.handshake),
        SshActionView::Authenticate(_, _) => done_or_failed(world.auth),
        SshActionView::CheckAuthenticated => SshEventView::Authenticated(world.authenticated),
        SshActionView::OpenChannel => done_or_failed(world.channel),
        SshActionView::Exec(_) => done_or_failed(world.execution),
        SshActionView::WaitClose => done_or_failed(world.close),
        _ => match world.exit {
            Ok(code) => SshEventView::ExitStatus(code),
            Err(e) => SshEventView::Failed(e),
        },
    }
}

pub open spec fn steps_left(step: SshStep) -> nat {
    match step {
        SshStep::Connecting => 9,
        SshStep::OpeningSession => 8,
        SshStep::ShakingHands => 7,
        SshStep::Authenticating => 6,
        SshStep::CheckingAuthentication => 5,
        SshStep::OpeningChannel => 4,
        SshStep::Executing => 3,
        SshStep::Closing => 2,
        SshStep::ReadingExitStatus => 1,
        SshStep::Finished => 0,
    }
}

/// The actions of a whole conversation from a step on, the last of which
/// carries the result.
pub open spec fn ssh_actions(launch: SshLaunchView, action: SshActionView, world: SshWorld) -> Seq<
    SshActionView,
>
    decreases steps_left(launch.step),
{
    if launch.step == SshStep::Finished {
        seq![action]
    } else {
        let (after, next) = ssh_next(launch, ssh_event(action, world));
        seq![action] + ssh_actions(after, next, world)
    }
}

/// The result that a remote server leads to.
pub open spec fn ssh_result(addr: Seq<char>, world: SshWorld) -> Result<(), Seq<char>> {
    if let Some(e) = world.connect {
        Err("TCP connect to "@ + addr + " failed: "@ + e)
    } else if let Some(e) = world.session {
        Err("SSH session error: "@ + e)
    } else if let Some(e) = world.handshake {
        Err("SSH handshake failed: "@ + e)
    } else if let Some(e) = world.auth {
        Err("SSH auth failed: "@ + e)
    } else if !world.authenticated {
        Err("SSH authentication was rejected"@)
    } else if let Some(e) = world.channel {
        Err("SSH channel failed: "@ + e)
    } else if let Some(e) = world.execution {
        Err("SSH exec failed: "@ + e)
    } else if let Some(e) = world.close {
        Err("SSH channel close error: "@ + e)
    } else {
        match world.exit {
            Err(e) => Err("Could not read exit status: "@ + e),
            Ok(code) => if code == 0 {
                Ok(())
            } else {
                Err("Remote command exited with status "@ + signed_decimal(code as int))
            },
        }
    }
}

/// Whether the conversation gets as far as the command.
pub open spec fn reaches_command(world: SshWorld) -> bool {
    &&& world.connect is None
    &&& world.session is None
    &&& world.handshake is None
    &&& world.auth is None
    &&& world.authenticated
    &&& world.channel is None
}

/// A whole conversation ends, with the result that the first failing step
/// decides, and with success if and only if every step goes well, the session
/// is authenticated and the command exits with zero.
pub proof fn law_ssh_result(
    addr: Seq<char>,
    username: Seq<char>,
    password: Seq<char>,
    cmd: Seq<char>,
    world: SshWorld,
)
    ensures
        ({
            let start = ssh_start(addr, username, password, cmd);
            let actions = ssh_actions(start, ssh_asks(start), world);
            &&& actions.last() == SshActionView::Finish(ssh_result(addr, world))
            &&& ssh_result(addr, world) is Ok <==> reaches_command(world) && world.execution is None
                && world.close is None && world.exit == Ok::<i32, Seq<char>>(0)
        }),
{
    reveal_with_fuel(ssh_actions, 10);
}

/// The command is sent at most once, it is the command that was asked for, and
/// it is sent if and only if every step before it went well and the session is
/// authenticated. The password goes out only after the handshake.
pub proof fn law_ssh_command_needs_authentication(
    addr: Seq<char>,
    username: Seq<char>,
    password: Seq<char>,
    cmd: Seq<char>,
    world: SshWorld,
)
    ensures
        ({
            let start = ssh_start(addr, username, password, cmd);
            let actions = ssh_actions(start, ssh_asks(start), world);
            &&& forall|i: int|
                0 <= i < actions.len() && #[trigger] actions[i] is Exec ==> i == 6 && actions[i]
                    == SshActionView::Exec(cmd)
            &&& reaches_command(world) <==> actions.len() > 6 && actions[6] is Exec
            &&& forall|i: int|
                0 <= i < actions.len() && #[trigger] actions[i] is Authenticate ==> i == 3
                    && actions[2] is Handshake && world.handshake is None
        }),
{
    reveal_with_fuel(ssh_actions, 10);
}

/// Whatever a remote server makes of a step is an event that the step can take,
/// and as long as the conversation goes on, the next action is that of the next
/// step: a conversation never gets an event that it cannot take.
pub proof fn law_ssh_events_fit(launch: SshLaunchView, world: SshWorld)
    requires
        launch.step != SshStep::Finished,
    ensures
        ssh_fits(launch.step, ssh_event(ssh_asks(launch), world)),
        ({
            let (after, next) = ssh_next(launch, ssh_event(ssh_asks(launch), world));
            after.step != SshStep::Finished ==> next == ssh_asks(after)
        }),
{
}

} // verus!
