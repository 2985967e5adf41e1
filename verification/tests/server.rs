use scribe_client::server_connect::{
    wait_for_server_ready, AgentAction, AgentEvent, AgentStart, ConnectAction, ConnectEvent,
    LinuxAction, LinuxRestart, MacAction, MacEvent, MacRestart, MacStart, Platform, ReadyWait,
    RestartEvent, ServerConnect, StartAction, StartWish, Terminate, TerminateAction,
    TerminateEvent, UpdateAction, UpdateEvent, UpdateRestart,
};
use scribe_client::server_process::{
    agent_loaded, agent_started, escape_launchd_plist_value, gui_env_vars, has_exited,
    launchd_names, launchd_plist_contents, listed_process_pids, other_pids, parse_pids,
    plist_is_stale, process_is_zombie, same_file_path, service_environment, stale_server_reason,
    systemctl_started, tracked_clients_exited, wait_for_process_exit, ConnectedServerInfo,
    ExitWait, FilePath, Ran, Trouble, CLIENT_EXIT_TIMEOUT_SECS, CLIENT_SETTLE_SECS,
};

#[test]
fn launchd_plist_escapes_server_path() {
    let plist = launchd_plist_contents(
        "com.scribe.server",
        "/Applications/A&B's <Scribe>.app/Contents/MacOS/scribe-server",
    );
    assert!(plist.contains("com.scribe.server"));
    assert!(plist
        .contains("/Applications/A&amp;B&apos;s &lt;Scribe&gt;.app/Contents/MacOS/scribe-server"));
}

#[test]
fn launchd_plist_value_escape_handles_xml_meta_chars() {
    assert_eq!(escape_launchd_plist_value("&<>\"'"), "&amp;&lt;&gt;&quot;&apos;");
}

#[test]
fn the_agent_file_is_complete() {
    let expected = r#"<?xml version="1.0" encoding="UTF-8"?>
<!DOCTYPE plist PUBLIC "-//Apple//DTD PLIST 1.0//EN" "http://www.apple.com/DTDs/PropertyList-1.0.dtd">
<plist version="1.0">
<dict>
	<key>Label</key>
	<string>L</string>

	<key>ProgramArguments</key>
	<array>
		<string>/s</string>
	</array>

	<key>KeepAlive</key>
	<dict>
		<key>SuccessfulExit</key>
		<false/>
	</dict>

	<key>ProcessType</key>
	<string>Background</string>

	<key>ThrottleInterval</key>
	<integer>1</integer>

	<key>StandardOutPath</key>
	<string>/dev/null</string>

	<key>StandardErrorPath</key>
	<string>/dev/null</string>
</dict>
</plist>
"#;
    let plist = launchd_plist_contents("L", "/s");
    assert_eq!(plist, expected);
    assert!(!plist_is_stale(Some(expected), &plist));
    assert!(plist_is_stale(Some("other"), &plist));
    assert!(plist_is_stale(None, &plist));
}

fn running(path: &str, start: u64) -> ConnectedServerInfo {
    ConnectedServerInfo {
        pid: 42,
        exe_path: Some(FilePath::unresolved(path)),
        start_time_secs: Some(start),
    }
}

const INSTALLED: &str = "/Applications/Scribe.app/Contents/MacOS/scribe-server";

#[test]
fn stale_server_reason_detects_path_drift() {
    let reason = stale_server_reason(
        &running("/Applications/Old Scribe.app/Contents/MacOS/scribe-server", 100),
        &FilePath::unresolved(INSTALLED),
        Some(100),
    );
    assert!(reason.is_some(), "expected path drift to mark server stale");
}

#[test]
fn stale_server_reason_detects_newer_installed_binary() {
    let reason = stale_server_reason(
        &running(INSTALLED, 100),
        &FilePath::unresolved(INSTALLED),
        Some(101),
    );
    assert!(reason.is_some(), "expected newer installed binary to mark server stale");
}

#[test]
fn stale_server_reason_ignores_matching_fresh_server() {
    let reason = stale_server_reason(
        &running(INSTALLED, 101),
        &FilePath::unresolved(INSTALLED),
        Some(100),
    );
    assert!(reason.is_none(), "matching current server should not be marked stale");
}

#[test]
fn staleness_is_put_into_words() {
    assert_eq!(
        stale_server_reason(&running("/a", 5), &FilePath::unresolved("/b"), None).unwrap(),
        "running server path /a differs from installed /b"
    );
    assert_eq!(
        stale_server_reason(&running("/a", 5), &FilePath::unresolved("/a"), Some(6)).unwrap(),
        "installed server binary modified at 6 after running server started at 5"
    );
    let unknown = ConnectedServerInfo { pid: 1, exe_path: None, start_time_secs: None };
    assert!(stale_server_reason(&unknown, &FilePath::unresolved("/a"), Some(6)).is_none());
}

#[test]
fn paths_are_compared_part_by_part() {
    let same = |a: &str, b: &str| same_file_path(&FilePath::unresolved(a), &FilePath::unresolved(b));
    for a in ["/a/b", "/a//b", "/a/./b", "/a/b/", "a/b", "./a/b", "/a/../b", ".", "", "/"] {
        for b in ["/a/b", "/a//b", "/a/./b", "/a/b/", "a/b", "./a/b", "/a/../b", ".", "", "/"] {
            let expected = std::path::Path::new(a) == std::path::Path::new(b);
            assert_eq!(same(a, b), expected, "{a:?} {b:?}");
        }
    }
    let link = FilePath { path: "/link".into(), canonical: Some("/real".into()) };
    assert!(same_file_path(&link, &FilePath::unresolved("/real")));
}

fn ended(success: bool, code: Option<i32>, stdout: &[u8]) -> Ran {
    Ran::Ended { success, code, status: "exit status: 3".into(), stdout: stdout.to_vec() }
}

#[test]
fn process_lists_are_read() {
    assert_eq!(parse_pids(b"12\n 34 \n\nx\n-1\n+7\n4294967295\n4294967296"), vec![12, 34, 7, u32::MAX]);
    assert_eq!(parse_pids(b"1\n\xff\xfe\n2\n"), vec![1, 2]);
    assert_eq!(parse_pids("\u{a0}5\u{a0}\n".as_bytes()), vec![5]);
    assert_eq!(listed_process_pids("p", ended(true, Some(0), b"9\n")), Ok(vec![9]));
    assert_eq!(listed_process_pids("p", ended(false, Some(1), b"9\n")), Ok(vec![]));
    let error = listed_process_pids("p", ended(false, Some(3), b"")).unwrap_err();
    assert_eq!(error.message(), "pgrep -x p exited with exit status: 3");
    let error = listed_process_pids("p", Ran::Not { error: "gone".into() }).unwrap_err();
    assert_eq!(error.message(), "failed to run pgrep for p: gone");
}

#[test]
fn this_process_is_not_among_the_others() {
    assert_eq!(other_pids(&[1, 2, 3, 2], 2), vec![1, 3]);
}

#[test]
fn zombies_are_told_by_their_state() {
    assert!(process_is_zombie(Some("Name:\tx\nState:\tZ (zombie)\nPid:\t1\n")));
    assert!(!process_is_zombie(Some("Name:\tx\nState:\tS (sleeping)\nState:\tZ\n")));
    assert!(!process_is_zombie(Some("State:\n")));
    assert!(!process_is_zombie(Some("XState:\tZ\n")));
    assert!(!process_is_zombie(None));
    assert!(has_exited(false, false) && has_exited(true, true) && !has_exited(true, false));
}

#[test]
fn waits_for_a_process_end() {
    assert_eq!(wait_for_process_exit(true, 0, 100), ExitWait::Over(true));
    assert_eq!(wait_for_process_exit(false, 99, 100), ExitWait::Again { millis: 100 });
    assert_eq!(wait_for_process_exit(false, 100, 100), ExitWait::Over(false));
    assert_eq!(wait_for_process_exit(true, 100, 100), ExitWait::Over(true));
}

#[test]
fn lingering_clients_are_named() {
    assert_eq!(tracked_clients_exited(&[1, 2], &[true, true]), Ok(()));
    let error = tracked_clients_exited(&[1, 2, 3], &[false, true, false]).unwrap_err();
    assert_eq!(
        error.message(),
        "old client processes did not exit after server restart: [1, 3]"
    );
    assert_eq!(Trouble::ClientsLinger { pids: vec![] }.message().chars().last(), Some(']'));
}

#[test]
fn services_take_over_what_is_set() {
    let (present, missing) = service_environment(&[true, false, true, true, false, false]);
    assert_eq!(present, vec!["DISPLAY", "XDG_SESSION_TYPE", "XDG_RUNTIME_DIR"]);
    assert_eq!(missing, vec!["WAYLAND_DISPLAY", "DBUS_SESSION_BUS_ADDRESS", "XAUTHORITY"]);
    assert_eq!(gui_env_vars().len(), 6);
}

#[test]
fn runs_of_the_service_managers_are_judged() {
    assert_eq!(systemctl_started(ended(true, Some(0), b"")), Ok(()));
    let text = |r: Result<(), Trouble>| r.unwrap_err().message();
    assert_eq!(
        text(systemctl_started(ended(false, Some(3), b""))),
        "systemctl start exited with exit status: 3"
    );
    assert_eq!(
        text(systemctl_started(Ran::Not { error: "e".into() })),
        "failed to run systemctl: e"
    );
    assert_eq!(
        text(agent_loaded(ended(false, Some(3), b""))),
        "launchctl bootstrap exited with exit status: 3"
    );
    assert_eq!(
        text(agent_loaded(Ran::Not { error: "e".into() })),
        "failed to run launchctl bootstrap: e"
    );
    assert_eq!(
        text(agent_started(ended(false, Some(3), b""))),
        "launchctl kickstart exited with exit status: 3"
    );
    assert_eq!(
        text(agent_started(Ran::Not { error: "e".into() })),
        "failed to run launchctl kickstart: e"
    );
    assert_eq!(launchd_names(501, "com.x"), ("user/501".into(), "user/501/com.x".into()));
}

#[test]
fn troubles_are_put_into_words() {
    let label = || "scribe-server".to_owned();
    let error = || "e".to_owned();
    let cases = [
        (
            Trouble::SignalFailed { label: label(), pid: 7, error: error() },
            "failed to signal scribe-server pid 7: e",
        ),
        (
            Trouble::SignalExited { label: label(), pid: -7, status: "s".into() },
            "kill -7 for scribe-server exited with s",
        ),
        (
            Trouble::KillFailed { label: label(), pid: 7, error: error() },
            "failed to force-kill scribe-server pid 7: e",
        ),
        (
            Trouble::KillExited { label: label(), pid: 7, status: "s".into() },
            "kill -9 7 for scribe-server exited with s",
        ),
        (
            Trouble::Lingers { label: label(), pid: 7 },
            "timed out waiting for scribe-server pid 7 to exit",
        ),
        (Trouble::NoHome { error: error() }, "HOME not set: e"),
        (Trouble::NoAgentsDir { error: error() }, "failed to create LaunchAgents dir: e"),
        (Trouble::NoOwnPath { error: error() }, "failed to get current exe: e"),
        (Trouble::NoServerFile { path: "/p".into() }, "server binary not found at /p"),
        (Trouble::SpawnFailed { error: error() }, "failed to spawn scribe-server: e"),
        (
            Trouble::PlistUnreadable { path: "/p".into(), error: error() },
            "failed to read launchd plist /p: e",
        ),
        (
            Trouble::PlistUnwritable { path: "/p".into(), error: error() },
            "failed to write launchd plist /p: e",
        ),
        (Trouble::PeerUnknown { error: error() }, "failed to query server peer pid: e"),
        (Trouble::RefreshedPeerUnknown { error: error() }, "failed to query peer pid: e"),
        (
            Trouble::RelaunchFailed { exe: "/c".into(), error: error() },
            "failed to relaunch client /c: e",
        ),
        (
            Trouble::ServerPgrepFailed { error: error() },
            "failed to run pgrep for server processes: e",
        ),
        (
            Trouble::RestartUnsupported,
            "deferred update restart is only supported on macOS and Linux",
        ),
        (Trouble::StartUnsupported, "server auto-start not supported on this platform"),
        (Trouble::Told { words: "as told".into() }, "as told"),
    ];
    for (trouble, words) in cases {
        assert_eq!(trouble.message(), words);
    }
}

// ---- connecting ----

fn not_connected() -> ConnectEvent {
    ConnectEvent::NotConnected { error: "refused".into() }
}

#[test]
fn a_running_server_is_used() {
    let (mut connect, action) = ServerConnect::new(Platform::Linux, 1);
    assert!(matches!(action, ConnectAction::Connect));
    assert!(matches!(connect.step(ConnectEvent::Connected, 0), ConnectAction::Use));
}

#[test]
fn a_server_that_does_not_run_is_started() {
    let (mut connect, _) = ServerConnect::new(Platform::Linux, 1);
    assert!(matches!(connect.step(not_connected(), 0), ConnectAction::StartServer));
    assert!(matches!(
        connect.step(ConnectEvent::Started, 0),
        ConnectAction::ConnectAfter { millis: 100 }
    ));
    assert!(matches!(
        connect.step(not_connected(), 4_999),
        ConnectAction::ConnectAfter { millis: 100 }
    ));
    match connect.step(not_connected(), 5_000) {
        ConnectAction::Fail(trouble) => {
            assert_eq!(trouble.message(), "scribe-server did not become ready within 5s");
        }
        other => panic!("expected a failure, got {other:?}"),
    }
}

#[test]
fn a_start_that_fails_is_told() {
    let (mut connect, _) = ServerConnect::new(Platform::Other, 1);
    connect.step(not_connected(), 0);
    match connect.step(ConnectEvent::StartFailed { error: "no".into() }, 0) {
        ConnectAction::Fail(trouble) => assert_eq!(trouble.message(), "no"),
        other => panic!("expected a failure, got {other:?}"),
    }
}

#[test]
fn a_stale_server_gives_way() {
    let (mut connect, _) = ServerConnect::new(Platform::MacOs, 1);
    assert!(matches!(connect.step(ConnectEvent::Connected, 0), ConnectAction::CheckFreshness));
    assert!(matches!(
        connect.step(ConnectEvent::Stale { old_pid: 7 }, 0),
        ConnectAction::ConnectAfter { .. }
    ));
    assert!(matches!(connect.step(ConnectEvent::Connected, 200), ConnectAction::AskPeer));
    assert!(matches!(
        connect.step(ConnectEvent::Peer { pid: 7 }, 200),
        ConnectAction::ConnectAfter { .. }
    ));
    assert!(matches!(connect.step(ConnectEvent::Connected, 300), ConnectAction::AskPeer));
    assert!(matches!(connect.step(ConnectEvent::Peer { pid: 8 }, 300), ConnectAction::Use));
}

#[test]
fn a_handoff_that_takes_too_long_ends_in_a_restart() {
    let (mut connect, _) = ServerConnect::new(Platform::MacOs, 1);
    connect.step(ConnectEvent::Connected, 0);
    connect.step(ConnectEvent::Stale { old_pid: 7 }, 0);
    assert!(matches!(connect.step(not_connected(), 10_000), ConnectAction::ColdRestart));
    assert!(matches!(connect.step(ConnectEvent::Restarted, 0), ConnectAction::Connect));
    match connect.step(not_connected(), 0) {
        ConnectAction::Fail(trouble) => {
            assert_eq!(trouble.message(), "connect after handoff cold-restart failed: refused");
        }
        other => panic!("expected a failure, got {other:?}"),
    }
    let (mut connect, _) = ServerConnect::new(Platform::MacOs, 1);
    connect.step(ConnectEvent::Connected, 0);
    connect.step(ConnectEvent::Stale { old_pid: 7 }, 0);
    connect.step(not_connected(), 10_000);
    match connect.step(ConnectEvent::RestartFailed { error: "e".into() }, 0) {
        ConnectAction::Fail(trouble) => assert_eq!(
            trouble.message(),
            "cold-restart fallback after handoff timeout failed: e"
        ),
        other => panic!("expected a failure, got {other:?}"),
    }
}

#[test]
fn servers_that_do_not_answer_are_replaced() {
    let stuck = || {
        let (mut connect, _) = ServerConnect::new(Platform::MacOs, 1);
        connect.step(not_connected(), 0);
        connect.step(ConnectEvent::Started, 0);
        assert!(matches!(connect.step(not_connected(), 5_000), ConnectAction::ListServers));
        connect
    };
    let mut connect = stuck();
    assert!(matches!(
        connect.step(ConnectEvent::Servers { pids: vec![1, 5] }, 0),
        ConnectAction::ColdRestart
    ));
    assert!(matches!(connect.step(ConnectEvent::Restarted, 0), ConnectAction::Connect));
    match connect.step(not_connected(), 0) {
        ConnectAction::Fail(trouble) => {
            assert_eq!(trouble.message(), "connect after cold-restart recovery failed: refused");
        }
        other => panic!("expected a failure, got {other:?}"),
    }
    let mut connect = stuck();
    assert!(matches!(
        connect.step(ConnectEvent::Servers { pids: vec![1] }, 0),
        ConnectAction::Fail(Trouble::NotReady { secs: 5 })
    ));
    let mut connect = stuck();
    connect.step(ConnectEvent::Servers { pids: vec![5] }, 0);
    match connect.step(ConnectEvent::RestartFailed { error: "e".into() }, 0) {
        ConnectAction::Fail(trouble) => assert_eq!(
            trouble.message(),
            "cold-restart recovery after connect timeout failed: e"
        ),
        other => panic!("expected a failure, got {other:?}"),
    }
}

#[test]
fn restarted_servers_are_awaited() {
    assert!(matches!(wait_for_server_ready(true, 9_999, 5), ReadyWait::Ready));
    assert!(matches!(wait_for_server_ready(false, 4_999, 5), ReadyWait::Again { millis: 100 }));
    match wait_for_server_ready(false, 5_000, 5) {
        ReadyWait::GiveUp(trouble) => assert_eq!(
            trouble.message(),
            "scribe-server did not become ready within 5s after deferred restart"
        ),
        other => panic!("expected to give up, got {other:?}"),
    }
}

// ---- ending and restarting ----

#[test]
fn processes_are_asked_before_they_are_forced() {
    let (mut end, action) = Terminate::new("scribe-server".into(), 7);
    assert!(matches!(action, TerminateAction::Ask));
    assert!(matches!(end.step(TerminateEvent::Signalled), TerminateAction::Wait { secs: 5 }));
    assert!(matches!(
        end.step(TerminateEvent::Waited { exited: false }),
        TerminateAction::Force
    ));
    assert!(matches!(end.step(TerminateEvent::Signalled), TerminateAction::Wait { secs: 1 }));
    match end.step(TerminateEvent::Waited { exited: false }) {
        TerminateAction::Fail(trouble) => assert_eq!(
            trouble.message(),
            "timed out waiting for scribe-server pid 7 to exit"
        ),
        other => panic!("expected a failure, got {other:?}"),
    }
    let (mut end, _) = Terminate::new("scribe-server".into(), 7);
    end.step(TerminateEvent::Signalled);
    assert!(matches!(
        end.step(TerminateEvent::Waited { exited: true }),
        TerminateAction::Succeed
    ));
}

#[test]
fn agents_are_loaded_again_where_they_do_not_start() {
    let (mut agent, action) = AgentStart::new();
    assert!(matches!(action, AgentAction::Sync));
    assert!(matches!(agent.step(AgentEvent::Synced { refreshed: false }), AgentAction::Start));
    let failed = || AgentEvent::Failed(Trouble::KickstartExited { status: "s".into() });
    assert!(matches!(agent.step(failed()), AgentAction::Load));
    assert!(matches!(agent.step(AgentEvent::Done), AgentAction::Start));
    assert!(matches!(agent.step(AgentEvent::Done), AgentAction::Succeed));

    let (mut agent, _) = AgentStart::new();
    assert!(matches!(agent.step(AgentEvent::Synced { refreshed: true }), AgentAction::Load));
    assert!(matches!(agent.step(AgentEvent::Done), AgentAction::Start));
    assert!(matches!(agent.step(failed()), AgentAction::Fail(_)));
}

#[test]
fn the_linux_restart_goes_through_its_steps() {
    let (mut restart, action) = LinuxRestart::new();
    let mut seen = vec![format!("{action:?}")];
    for event in [
        RestartEvent::Done,
        RestartEvent::Done,
        RestartEvent::Done,
        RestartEvent::Done,
        RestartEvent::Running(true),
        RestartEvent::Done,
        RestartEvent::Running(false),
        RestartEvent::Running(false),
        RestartEvent::Done,
        RestartEvent::Done,
        RestartEvent::Done,
        RestartEvent::Done,
    ] {
        seen.push(format!("{:?}", restart.step(event)));
    }
    assert_eq!(
        seen,
        vec![
            "SyncEnvironment",
            "ReloadUnits",
            "StopService",
            "Terminate",
            "Look",
            "Nap { millis: 200 }",
            "Look",
            "Look",
            "ClearSockets",
            "ResetFailed",
            "StartServer",
            "AwaitReady",
            "Succeed",
        ]
    );
}

#[test]
fn a_stubborn_server_is_killed_after_ten_looks() {
    let (mut restart, _) = LinuxRestart::new();
    for _ in 0..3 {
        restart.step(RestartEvent::Done);
    }
    let mut action = restart.step(RestartEvent::Done);
    let mut looks = 0;
    loop {
        match action {
            LinuxAction::Look => {
                looks += 1;
                action = restart.step(RestartEvent::Running(true));
            }
            LinuxAction::Nap { .. } => action = restart.step(RestartEvent::Done),
            LinuxAction::Kill => break,
            other => panic!("unexpected {other:?}"),
        }
    }
    assert_eq!(looks, 11);
}

#[test]
fn the_mac_restart_ends_every_other_server() {
    let (mut restart, action) = MacRestart::new(2);
    assert!(matches!(action, MacAction::ListServers));
    assert!(matches!(
        restart.step(MacEvent::Servers { pids: vec![1, 2, 3] }),
        MacAction::Terminate { pid: 1 }
    ));
    assert!(matches!(
        restart.step(MacEvent::Failed(Trouble::RestartUnsupported)),
        MacAction::Terminate { pid: 3 }
    ));
    assert!(matches!(restart.step(MacEvent::Done), MacAction::ClearSockets));
    assert!(matches!(restart.step(MacEvent::Done), MacAction::StartAgent));
    assert!(matches!(
        restart.step(MacEvent::Failed(Trouble::RestartUnsupported)),
        MacAction::RunServer
    ));
    assert!(matches!(restart.step(MacEvent::Done), MacAction::AwaitReady));
    assert!(matches!(restart.step(MacEvent::Done), MacAction::Succeed));
}

#[test]
fn updates_wait_for_the_old_clients() {
    let (mut update, _) = UpdateRestart::new(Platform::Linux, 2);
    assert!(matches!(
        update.step(UpdateEvent::Clients { pids: vec![1, 2] }),
        UpdateAction::RestartServer
    ));
    match update.step(UpdateEvent::Done) {
        UpdateAction::AwaitClients { pids } => assert_eq!(pids, vec![1]),
        other => panic!("expected a wait, got {other:?}"),
    }
    assert!(matches!(update.step(UpdateEvent::Done), UpdateAction::Relaunch));
    assert!(matches!(update.step(UpdateEvent::Done), UpdateAction::Succeed));

    let (mut update, _) = UpdateRestart::new(Platform::Other, 2);
    assert!(matches!(
        update.step(UpdateEvent::Clients { pids: vec![] }),
        UpdateAction::Fail(Trouble::RestartUnsupported)
    ));
}

#[test]
fn the_server_is_started_in_two_ways_at_most() {
    let (mut start, first) = MacStart::new(StartWish::Start);
    assert_eq!(first, StartAction::Agent { force: false });
    assert_eq!(start.step(true), StartAction::Run { upgrade: false });
    assert_eq!(start.step(true), StartAction::Fail);

    let (mut start, first) = MacStart::new(StartWish::HandOver);
    assert_eq!(first, StartAction::Run { upgrade: true });
    assert_eq!(start.step(true), StartAction::Agent { force: true });
    assert_eq!(start.step(false), StartAction::Succeed);

    let (mut start, _) = MacStart::new(StartWish::Start);
    assert_eq!(start.step(false), StartAction::Succeed);
}

#[test]
fn clients_have_time_to_end() {
    assert_eq!(CLIENT_EXIT_TIMEOUT_SECS, 15);
    assert_eq!(CLIENT_SETTLE_SECS, 1);
}
