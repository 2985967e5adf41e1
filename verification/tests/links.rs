use scribe_client::dial::{
    choose_start, env_flag_set, hello, lan_dial_target, local_takeover_requested,
    parse_dial_target, remote_dial_target, start_local_takeover, window_text, Start, StartEnv,
};
use scribe_client::ipc_client::{LanConnectOutcome, RemoteConnectOutcome, UiEvent};
use scribe_client::protocol::{
    ClientMessage, LanRefusal, Opaque, RemoteRefusal, ServerMessage, WindowId,
};
use scribe_client::remote_link::{
    backoff_delay, lan_preamble, nap, remote_handshake, remote_preamble, Link, LinkAction,
    LinkEvent, LinkStep, Phase, RemoteReconnectCancel, Transport, WindowProbe,
};

fn window(value: u128) -> WindowId {
    WindowId { value }
}

// ---- where to ----

#[test]
fn hosts_and_ports_are_read() {
    let target = |raw| parse_dial_target(raw, 7);
    assert_eq!(target("peer"), Some(("peer".to_owned(), 7)));
    assert_eq!(target("  peer:99 "), Some(("peer".to_owned(), 99)));
    assert_eq!(target("peer:+99"), Some(("peer".to_owned(), 99)));
    assert_eq!(target("peer:0065535"), Some(("peer".to_owned(), 65535)));
    assert_eq!(target("peer:65536"), Some(("peer".to_owned(), 7)));
    assert_eq!(target("peer:"), Some(("peer".to_owned(), 7)));
    assert_eq!(target("peer:x"), Some(("peer".to_owned(), 7)));
    assert_eq!(target(":99"), Some((":99".to_owned(), 7)));
    assert_eq!(target("fe80::1"), Some(("fe80::1".to_owned(), 7)));
    assert_eq!(target(" \t"), None);
}

#[test]
fn ports_are_read_as_std_reads_them() {
    for text in ["0", "1", "+1", "-1", "+", "", "00012", "65535", "65536", "1a", " 1", "９", "1_0"] {
        let expected = text.parse::<u16>().unwrap_or(7);
        let raw = format!("h:{text}x");
        let raw = &raw[..raw.len() - 1];
        assert_eq!(parse_dial_target(raw, 7), Some(("h".to_owned(), expected)), "{text:?}");
    }
}

#[test]
fn each_network_has_its_own_port() {
    assert_eq!(remote_dial_target(Some("peer")), Some(("peer".to_owned(), 46061)));
    assert_eq!(lan_dial_target(Some("peer")), Some(("peer".to_owned(), 46062)));
    assert_eq!(remote_dial_target(None), None);
    assert_eq!(lan_dial_target(Some("")), None);
}

#[test]
fn flags_are_one_or_true() {
    for value in ["1", " 1 ", "true", "TRUE", "True\n"] {
        assert!(env_flag_set(Some(value)), "{value:?}");
    }
    for value in ["0", "", "yes", "11", "truee"] {
        assert!(!env_flag_set(Some(value)), "{value:?}");
    }
    assert!(!env_flag_set(None));
}

#[test]
fn named_windows_are_trimmed() {
    assert_eq!(window_text(Some(" w ")), Some("w".to_owned()));
    assert_eq!(window_text(Some("  ")), None);
    assert_eq!(window_text(None), None);
}

fn start(
    remote_dial: Option<&str>,
    lan_dial: Option<&str>,
    remote_window: Option<WindowId>,
    remote_takeover: Option<&str>,
    args: &[String],
) -> Start {
    let env = StartEnv { remote_dial, lan_dial, remote_window, remote_takeover, args };
    choose_start(&env, Some(window(1)))
}

#[test]
fn clients_connect_to_the_first_peer_that_is_named() {
    match start(Some("a:1"), Some("b:2"), Some(window(9)), Some("1"), &[]) {
        Start::Remote(dial) => {
            assert_eq!((dial.host.as_str(), dial.port), ("a", 1));
            assert_eq!(dial.window_id, Some(window(9)));
            assert!(dial.takeover);
        }
        other => panic!("expected a remote dial, got {other:?}"),
    }
    match start(None, Some("b"), None, None, &[]) {
        Start::Lan(dial) => {
            assert_eq!((dial.host.as_str(), dial.port), ("b", 46062));
            assert_eq!(dial.window_id, Some(window(1)));
            assert!(!dial.takeover);
        }
        other => panic!("expected a LAN dial, got {other:?}"),
    }
    let reclaim = ["client".to_owned(), "--reclaim".to_owned()];
    assert!(local_takeover_requested(&reclaim));
    assert!(matches!(
        start(Some(" "), None, Some(window(9)), Some("1"), &reclaim),
        Start::Local { window_id: Some(WindowId { value: 1 }), takeover: true }
    ));
    assert!(matches!(
        start(None, None, None, None, &["client".to_owned()]),
        Start::Local { takeover: false, .. }
    ));
    assert!(matches!(
        start_local_takeover(None),
        Start::Local { window_id: None, takeover: true }
    ));
}

#[test]
fn greetings_carry_their_versions() {
    assert!(matches!(
        hello(None, true),
        ClientMessage::Hello { window_id: None, clipboard_gating: true, takeover: true }
    ));
    assert_eq!(
        remote_preamble(3, "1.0".into(), "desk".into()),
        ClientMessage::RemoteHandshake {
            remote_protocol_version: 3,
            scribe_version: "1.0".into(),
            device_name: "desk".into()
        }
    );
    assert_eq!(
        lan_preamble(3, "desk".into()),
        ClientMessage::LanHello { device_name: "desk".into(), remote_protocol_version: 3 }
    );
}

// ---- the life of a link ----

fn reply(accepted: bool, refusal: Option<RemoteRefusal>) -> ServerMessage {
    ServerMessage::RemoteHandshakeReply {
        accepted,
        refusal,
        server_remote_protocol_version: 3,
        server_scribe_version: "1.0".into(),
    }
}

#[test]
fn remote_replies_are_judged() {
    assert_eq!(remote_handshake(&reply(true, None)), RemoteConnectOutcome::Accepted);
    let reason = RemoteRefusal { code: 2 };
    assert_eq!(remote_handshake(&reply(false, Some(reason))), RemoteConnectOutcome::Refused(reason));
    assert_eq!(remote_handshake(&reply(false, None)), RemoteConnectOutcome::ConnectionFailure);
    assert_eq!(
        remote_handshake(&ServerMessage::QuitRequested),
        RemoteConnectOutcome::ConnectionFailure
    );
}

#[test]
fn waits_double_up_to_the_longest() {
    let waits: Vec<u64> = (0..9).map(backoff_delay).collect();
    assert_eq!(waits, vec![500, 500, 1000, 2000, 4000, 8000, 15000, 15000, 15000]);
    assert_eq!(backoff_delay(u32::MAX), 15000);
}

#[test]
fn waits_sleep_in_short_pieces() {
    assert_eq!(nap(0, 500, false), Some(150));
    assert_eq!(nap(450, 500, false), Some(50));
    assert_eq!(nap(500, 500, false), None);
    assert_eq!(nap(0, 500, true), None);
}

fn live(transport: Transport) -> Link {
    let (mut link, _) = Link::new(transport, Some(window(1)), true);
    if transport == Transport::Lan {
        link.step(LinkEvent::IdentityReady, false);
    }
    link.step(LinkEvent::Connected, false);
    if transport != Transport::Local {
        link.step(LinkEvent::Sent, false);
        let message = if transport == Transport::Lan {
            ServerMessage::LanApprovalResult { approved: true, refusal: None }
        } else {
            reply(true, None)
        };
        link.step(LinkEvent::Received(message), false);
    }
    link.step(LinkEvent::Sent, false);
    assert_eq!(link.phase, Phase::Live);
    link
}

fn told(step: &LinkStep) -> Vec<String> {
    step.events.iter().map(|event| format!("{event:?}")).collect()
}

#[test]
fn a_first_dial_is_told_once_and_claims_its_window() {
    let (mut link, action) = Link::new(Transport::Tailnet, Some(window(1)), true);
    assert!(matches!(action, LinkAction::Connect));
    assert!(matches!(link.step(LinkEvent::Connected, false).action, LinkAction::Greet));
    assert!(matches!(link.step(LinkEvent::Sent, false).action, LinkAction::Read));
    let step = link.step(LinkEvent::Received(reply(true, None)), false);
    assert!(matches!(
        step.events[..],
        [UiEvent::RemoteDialOutcome { outcome: RemoteConnectOutcome::Accepted }]
    ));
    assert!(matches!(
        step.action,
        LinkAction::Send(ClientMessage::Hello { takeover: true, .. })
    ));
    let step = link.step(LinkEvent::Sent, false);
    assert!(step.events.is_empty());
    assert!(matches!(step.action, LinkAction::Converse));
}

#[test]
fn a_first_dial_that_fails_ends() {
    let (mut link, _) = Link::new(Transport::Tailnet, None, false);
    let step = link.step(LinkEvent::ConnectFailed, false);
    assert!(matches!(
        step.events[..],
        [UiEvent::RemoteDialOutcome { outcome: RemoteConnectOutcome::ConnectionFailure }]
    ));
    assert!(matches!(step.action, LinkAction::Stop));

    let (mut link, action) = Link::new(Transport::Lan, None, false);
    assert!(matches!(action, LinkAction::FetchIdentity));
    let step = link.step(LinkEvent::IdentityFailed, false);
    assert!(matches!(
        step.events[..],
        [UiEvent::LanDialOutcome { outcome: LanConnectOutcome::ConnectionFailure }]
    ));

    let (mut link, _) = Link::new(Transport::Local, None, false);
    let step = link.step(LinkEvent::ConnectFailed, false);
    assert!(matches!(step.events[..], [UiEvent::ServerDisconnected]));
}

#[test]
fn a_lan_dial_waits_for_its_approval_and_can_be_cancelled() {
    let (mut link, _) = Link::new(Transport::Lan, None, false);
    link.step(LinkEvent::IdentityReady, false);
    link.step(LinkEvent::Connected, false);
    link.step(LinkEvent::Sent, false);
    let step = link.step(LinkEvent::Received(ServerMessage::LanApprovalPending), false);
    assert!(matches!(step.events[..], [UiEvent::LanAwaitingApproval]));
    assert!(matches!(step.action, LinkAction::Read));
    assert!(link.is_interruptible());
    let step = link.step(LinkEvent::Cancelled, true);
    assert!(step.events.is_empty());
    assert!(matches!(step.action, LinkAction::Stop));
}

#[test]
fn a_lost_link_is_restored_without_taking_control() {
    for transport in [Transport::Tailnet, Transport::Lan] {
        let mut link = live(transport);
        link.capture_assigned_window(&ServerMessage::Welcome {
            window_id: window(5),
            other_windows: Vec::new(),
            clipboard_gating: true,
            participant_id: None,
        });
        let step = link.step(LinkEvent::LinkLost, false);
        assert!(matches!(step.events[..], [UiEvent::RemoteReconnecting { attempt: 1 }]));
        assert!(matches!(step.action, LinkAction::Wait { millis: 500 }));
        assert!(matches!(link.step(LinkEvent::Waited, false).action, LinkAction::Connect));
        link.step(LinkEvent::Connected, false);
        link.step(LinkEvent::Sent, false);
        let message = if transport == Transport::Lan {
            ServerMessage::LanApprovalResult { approved: true, refusal: None }
        } else {
            reply(true, None)
        };
        let step = link.step(LinkEvent::Received(message), false);
        assert!(step.events.is_empty());
        match step.action {
            LinkAction::Send(ClientMessage::Hello { window_id, takeover, .. }) => {
                assert_eq!(window_id, Some(window(5)));
                assert!(!takeover);
            }
            other => panic!("expected Hello, got {other:?}"),
        }
        let step = link.step(LinkEvent::Sent, false);
        assert!(matches!(step.events[..], [UiEvent::RemoteReconnected]));
    }
}

#[test]
fn attempts_stop_at_their_bound() {
    let mut link = live(Transport::Tailnet);
    let mut step = link.step(LinkEvent::LinkLost, false);
    for attempt in 1..=8u32 {
        assert_eq!(told(&step), vec![format!("RemoteReconnecting {{ attempt: {attempt} }}")]);
        link.step(LinkEvent::Waited, false);
        step = link.step(LinkEvent::ConnectFailed, false);
    }
    assert!(matches!(step.events[..], [UiEvent::RemoteReconnectFailed]));
    assert!(matches!(step.action, LinkAction::Stop));
}

#[test]
fn refusals_while_restoring_end_the_link() {
    let reason = RemoteRefusal { code: 4 };
    let mut link = live(Transport::Tailnet);
    link.step(LinkEvent::LinkLost, false);
    link.step(LinkEvent::Waited, false);
    link.step(LinkEvent::Connected, false);
    link.step(LinkEvent::Sent, false);
    let step = link.step(LinkEvent::Received(reply(false, Some(reason))), false);
    assert!(matches!(step.events[..], [UiEvent::RemoteSevered { reason: RemoteRefusal { code: 4 } }]));

    let mut link = live(Transport::Lan);
    link.step(LinkEvent::LinkLost, false);
    link.step(LinkEvent::Waited, false);
    link.step(LinkEvent::Connected, false);
    link.step(LinkEvent::Sent, false);
    let refused =
        ServerMessage::LanApprovalResult { approved: false, refusal: Some(LanRefusal::Disabled) };
    let step = link.step(LinkEvent::Received(refused), false);
    assert!(matches!(step.events[..], [UiEvent::RemoteReconnectFailed]));
}

#[test]
fn cancelling_wins_over_a_restored_link() {
    let mut link = live(Transport::Tailnet);
    link.step(LinkEvent::LinkLost, false);
    link.step(LinkEvent::Waited, false);
    link.step(LinkEvent::Connected, false);
    link.step(LinkEvent::Sent, false);
    link.step(LinkEvent::Received(reply(true, None)), false);
    let step = link.step(LinkEvent::Sent, true);
    assert!(step.events.is_empty());
    assert_eq!(link.phase, Phase::Ended);

    let mut link = live(Transport::Tailnet);
    let step = link.step(LinkEvent::LinkLost, true);
    assert!(step.events.is_empty());
    assert!(matches!(step.action, LinkAction::Stop));
}

#[test]
fn closing_windows_and_lost_local_links_end() {
    let mut link = live(Transport::Tailnet);
    let step = link.step(LinkEvent::CommandsClosed, false);
    assert!(step.events.is_empty());
    assert!(matches!(step.action, LinkAction::Stop));

    let mut link = live(Transport::Local);
    let step = link.step(LinkEvent::LinkLost, false);
    assert!(matches!(step.events[..], [UiEvent::ServerDisconnected]));
}

#[test]
fn cancelling_twice_is_cancelling_once() {
    let mut cancel = RemoteReconnectCancel::new();
    assert!(!cancel.is_cancelled());
    cancel.cancel();
    cancel.cancel();
    assert!(cancel.is_cancelled());
}

#[test]
fn listings_end_with_the_windows() {
    let (mut probe, _) = WindowProbe::new(Transport::Tailnet, "peer".into(), 9);
    probe.step(LinkEvent::Connected);
    probe.step(LinkEvent::Sent);
    let step = probe.step(LinkEvent::Received(reply(true, None)));
    assert!(step.events.is_empty());
    assert!(matches!(step.action, LinkAction::Send(ClientMessage::ListWindows)));
    probe.step(LinkEvent::Sent);
    let step = probe.step(LinkEvent::Received(ServerMessage::QuitRequested));
    assert!(matches!(step.action, LinkAction::Read));
    let windows = vec![Opaque { bytes: vec![1] }];
    let step = probe.step(LinkEvent::Received(ServerMessage::WindowList { windows }));
    match &step.events[..] {
        [UiEvent::RemoteWindowList { host, port, windows }] => {
            assert_eq!((host.as_str(), *port, windows.len()), ("peer", 9, 1));
        }
        other => panic!("expected the list, got {other:?}"),
    }
}

#[test]
fn listings_tell_of_refusals_and_failures() {
    let (mut probe, _) = WindowProbe::new(Transport::Lan, "peer".into(), 9);
    probe.step(LinkEvent::IdentityReady);
    probe.step(LinkEvent::Connected);
    probe.step(LinkEvent::Sent);
    let step = probe.step(LinkEvent::Received(ServerMessage::LanApprovalPending));
    assert!(matches!(step.events[..], [UiEvent::LanAwaitingApproval]));
    let step = probe.step(LinkEvent::Received(ServerMessage::LanApprovalResult {
        approved: false,
        refusal: Some(LanRefusal::Busy),
    }));
    assert!(matches!(
        step.events[..],
        [UiEvent::LanDialOutcome { outcome: LanConnectOutcome::Refused(LanRefusal::Busy) }]
    ));

    let (mut probe, _) = WindowProbe::new(Transport::Tailnet, "peer".into(), 9);
    let step = probe.step(LinkEvent::ConnectFailed);
    assert!(matches!(
        step.events[..],
        [UiEvent::RemoteDialOutcome { outcome: RemoteConnectOutcome::ConnectionFailure }]
    ));
}
