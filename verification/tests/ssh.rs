use mtpdb_master::ssh::{
    launch_command, log_path, ssh_start_manager, SshAction, SshEvent, SshLaunch, SshStep,
};

fn start() -> (SshLaunch, SshAction) {
    ssh_start_manager(
        "192.0.2.10",
        "root",
        "pw",
        "s1",
        7001,
        "us-east-1",
        "http://m:7000",
        "/opt/manager",
    )
}

fn failed() -> SshEvent {
    SshEvent::Failed("boom".to_string())
}

/// A conversation in which this many steps have gone well.
fn after(steps: usize) -> (SshLaunch, SshAction) {
    let (mut launch, mut action) = start();
    for _ in 0..steps {
        let event = match action {
            SshAction::CheckAuthenticated => SshEvent::Authenticated(true),
            _ => SshEvent::Done,
        };
        assert!(launch.fits(&event));
        (launch, action) = launch.advance(event);
    }
    (launch, action)
}

fn failure_at(steps: usize) -> String {
    match after(steps).0.advance(failed()) {
        (launch, SshAction::Finish(Err(e))) => {
            assert_eq!(launch.step, SshStep::Finished);
            e
        }
        (_, other) => panic!("{:?}", other),
    }
}

#[test]
fn log_paths() {
    assert_eq!(log_path("s1"), "/tmp/mtpdb_manager_s1.log");
}

#[test]
fn launch_commands() {
    assert_eq!(
        launch_command("/opt/manager", "s1", "http://m:7000", 65535, "us-east-1"),
        "nohup /opt/manager --server-id s1 --master-url http://m:7000 --port 65535 \
         --region us-east-1 > /tmp/mtpdb_manager_s1.log 2>&1 &"
    );
}

#[test]
fn steps_follow_in_order() {
    assert_eq!(after(0).1, SshAction::Connect("192.0.2.10:22".to_string()));
    assert_eq!(after(1).1, SshAction::OpenSession);
    assert_eq!(after(2).1, SshAction::Handshake);
    assert_eq!(after(3).1, SshAction::Authenticate("root".to_string(), "pw".to_string()));
    assert_eq!(after(4).1, SshAction::CheckAuthenticated);
    assert_eq!(after(5).1, SshAction::OpenChannel);
    assert_eq!(
        after(6).1,
        SshAction::Exec(
            "nohup /opt/manager --server-id s1 --master-url http://m:7000 --port 7001 \
             --region us-east-1 > /tmp/mtpdb_manager_s1.log 2>&1 &"
                .to_string()
        )
    );
    assert_eq!(after(7).1, SshAction::WaitClose);
    assert_eq!(after(8).1, SshAction::ReadExitStatus);
}

#[test]
fn exit_status_decides() {
    let (_, action) = after(8).0.advance(SshEvent::ExitStatus(0));
    assert_eq!(action, SshAction::Finish(Ok(())));
    let (_, action) = after(8).0.advance(SshEvent::ExitStatus(127));
    assert_eq!(
        action,
        SshAction::Finish(Err("Remote command exited with status 127".to_string()))
    );
    let (_, action) = after(8).0.advance(SshEvent::ExitStatus(-1));
    assert_eq!(
        action,
        SshAction::Finish(Err("Remote command exited with status -1".to_string()))
    );
}

#[test]
fn failures_name_their_step() {
    assert_eq!(failure_at(0), "TCP connect to 192.0.2.10:22 failed: boom");
    assert_eq!(failure_at(1), "SSH session error: boom");
    assert_eq!(failure_at(2), "SSH handshake failed: boom");
    assert_eq!(failure_at(3), "SSH auth failed: boom");
    assert_eq!(failure_at(5), "SSH channel failed: boom");
    assert_eq!(failure_at(6), "SSH exec failed: boom");
    assert_eq!(failure_at(7), "SSH channel close error: boom");
    assert_eq!(failure_at(8), "Could not read exit status: boom");
}

#[test]
fn no_command_without_authentication() {
    let (launch, action) = after(4).0.advance(SshEvent::Authenticated(false));
    assert_eq!(
        action,
        SshAction::Finish(Err("SSH authentication was rejected".to_string()))
    );
    assert!(!launch.fits(&SshEvent::Done));
}

#[test]
fn events_fit_their_steps() {
    let (launch, _) = start();
    assert!(launch.fits(&SshEvent::Done));
    assert!(launch.fits(&failed()));
    assert!(!launch.fits(&SshEvent::Authenticated(true)));
    assert!(!launch.fits(&SshEvent::ExitStatus(0)));
    assert!(!after(4).0.fits(&SshEvent::Done));
    assert!(!after(4).0.fits(&failed()));
    assert!(!after(8).0.fits(&SshEvent::Done));
    assert!(after(8).0.fits(&failed()));
}
