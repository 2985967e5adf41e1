use scribe_client::dialog::LanApprovalDialog;
use scribe_client::lan::{LanChrome, LanConnectOutcome, LanDialStatus, LanEnvSummary};
use scribe_client::lan_dial::{
    fetch_dial_identity, handshake, identity_reply, local_device_name, target_from_env, Handshake,
    LanDialError, LanDialer,
};
use scribe_client::protocol::{LanPeerInfo, LanRefusal, ServerMessage};

fn request(id: u64) -> LanApprovalDialog {
    LanApprovalDialog::new(
        id,
        "colleague-laptop".to_owned(),
        "amber timber pistol".to_owned(),
        "Home".to_owned(),
        false,
    )
}

fn peer(name: &str, online: bool) -> LanPeerInfo {
    LanPeerInfo {
        name: name.to_owned(),
        host: format!("{name}.local"),
        addr: String::from("10.0.0.5"),
        port: 46062,
        protovers: 3,
        online,
    }
}

#[test]
fn parked_approval_is_taken_exactly_once() {
    let mut lan = LanChrome::new();
    assert!(!lan.approval_pending());
    assert!(lan.take_approval().is_none());

    lan.park_approval(request(11));
    assert!(lan.approval_pending());
    assert_eq!(lan.take_approval().map(|d| d.request_id()), Some(11));
    // Taken means gone: a later tick must not raise a second copy of the prompt.
    assert!(!lan.approval_pending());
    assert!(lan.take_approval().is_none());
}

#[test]
fn a_second_request_replaces_an_unraised_prompt() {
    let mut lan = LanChrome::new();
    lan.park_approval(request(1));
    lan.park_approval(request(2));
    assert_eq!(lan.take_approval().map(|d| d.request_id()), Some(2));
}

#[test]
fn status_line_reports_actionable_lan_states() {
    let mut lan = LanChrome::new();
    // Nothing probed yet: no line at all rather than a misleading "0 peers".
    assert!(lan.status_line().is_none());

    lan.set_env(LanEnvSummary {
        device_id_hex: Some("ab".repeat(32)),
        fingerprint_words: Some("amber timber pistol".to_owned()),
        current_network_addable: false,
        current_network_reason: Some("no default gateway".to_owned()),
    });
    let dormant = lan.status_line().expect("a probed environment always says something");
    assert!(dormant.contains("dormant"), "{dormant}");
    assert!(dormant.contains("no default gateway"), "{dormant}");

    lan.set_env(LanEnvSummary { current_network_addable: true, ..LanEnvSummary::default() });
    lan.set_peers(vec![peer("desk", true), peer("old", false), peer("laptop", true)]);
    assert_eq!(lan.online_peer_count(), 2);
    assert_eq!(lan.peers().len(), 3);
    assert!(lan.status_line().is_none());
}

#[test]
fn dial_status_outranks_the_environment_line() {
    let mut lan = LanChrome::new();
    lan.set_env(LanEnvSummary { current_network_addable: true, ..LanEnvSummary::default() });
    assert_eq!(lan.dial(), LanDialStatus::Idle);

    lan.awaiting_approval();
    assert_eq!(lan.dial(), LanDialStatus::AwaitingApproval);
    assert_eq!(lan.status_line().as_deref(), Some("Waiting for approval on the peer…"));

    lan.settle_dial(LanConnectOutcome::Refused(LanRefusal::Declined));
    assert_eq!(
        lan.dial(),
        LanDialStatus::Settled(LanConnectOutcome::Refused(LanRefusal::Declined))
    );
    let refused = lan.status_line().expect("a refused dial says why");
    assert!(refused.contains("declined"), "{refused}");

    lan.settle_dial(LanConnectOutcome::Accepted);
    assert!(lan.status_line().is_none());
}

#[test]
fn every_refusal_has_its_words() {
    let mut lines = Vec::new();
    for reason in [
        LanRefusal::Declined,
        LanRefusal::NotTrustedNetwork,
        LanRefusal::Disabled,
        LanRefusal::IncompatibleVersion,
        LanRefusal::Busy,
    ] {
        let mut lan = LanChrome::new();
        lan.settle_dial(LanConnectOutcome::Refused(reason));
        lines.push(lan.status_line().unwrap());
    }
    assert_eq!(lines[4], "Local network connection refused: the peer's connection limit was reached");
    lines.sort();
    lines.dedup();
    assert_eq!(lines.len(), 5);
    let mut lan = LanChrome::new();
    lan.settle_dial(LanConnectOutcome::ConnectionFailure);
    assert_eq!(lan.status_line().as_deref(), Some("Local network connection failed"));
}

#[test]
fn a_network_without_a_reason_is_not_identifiable() {
    let mut lan = LanChrome::new();
    lan.set_env(LanEnvSummary::default());
    assert!(lan.env().is_some());
    assert_eq!(
        lan.status_line().as_deref(),
        Some("Local network dormant: network not identifiable")
    );
}

#[test]
fn lan_targets_have_their_own_port() {
    assert_eq!(target_from_env(Some("10.0.0.5")), Some(("10.0.0.5".to_owned(), 46062)));
    assert_eq!(target_from_env(Some("10.0.0.5:99")), Some(("10.0.0.5".to_owned(), 99)));
    assert_eq!(target_from_env(Some("  ")), None);
    assert_eq!(target_from_env(None), None);
}

#[test]
fn devices_without_a_name_are_localhost() {
    assert_eq!(local_device_name(None), "localhost");
    assert_eq!(local_device_name(Some("desk".to_owned())), "desk");
}

#[test]
fn handshakes_wait_until_they_are_settled() {
    assert_eq!(handshake(Some(&ServerMessage::LanApprovalPending)), Handshake::Pending);
    let result = |approved, refusal| ServerMessage::LanApprovalResult { approved, refusal };
    assert_eq!(
        handshake(Some(&result(true, None))),
        Handshake::Settled(LanConnectOutcome::Accepted)
    );
    assert_eq!(
        handshake(Some(&result(false, Some(LanRefusal::Busy)))),
        Handshake::Settled(LanConnectOutcome::Refused(LanRefusal::Busy))
    );
    let failed = Handshake::Settled(LanConnectOutcome::ConnectionFailure);
    assert_eq!(handshake(Some(&result(false, None))), failed);
    assert_eq!(handshake(Some(&ServerMessage::QuitRequested)), failed);
    assert_eq!(handshake(None), failed);
}

fn identity(available: bool, cert: &[u8], key: &[u8]) -> ServerMessage {
    ServerMessage::LanDialIdentity {
        available,
        cert_der: cert.to_vec(),
        private_key_pkcs8_der: key.to_vec(),
    }
}

#[test]
fn no_dial_without_an_identity() {
    assert_eq!(
        fetch_dial_identity(Ok(identity(true, b"c", b"k"))),
        Ok((b"c".to_vec(), b"k".to_vec()))
    );
    for reply in [identity(false, b"c", b"k"), identity(true, b"", b"k"), identity(true, b"c", b"")]
    {
        let error = fetch_dial_identity(Ok(reply)).unwrap_err();
        assert_eq!(error.message(), "the local server reports no LAN device identity available");
    }
    let error = fetch_dial_identity(Ok(ServerMessage::Error { message: "x".into() })).unwrap_err();
    assert_eq!(error.message(), "expected LanDialIdentity from the local server, got Error");
    let error = fetch_dial_identity(Ok(ServerMessage::QuitRequested)).unwrap_err();
    assert_eq!(
        error.message(),
        "expected LanDialIdentity from the local server, got another message"
    );
    assert_eq!(fetch_dial_identity(Err("gone".into())).unwrap_err().message(), "gone");
}

#[test]
fn other_messages_are_passed_over_while_the_identity_is_awaited() {
    assert!(identity_reply(ServerMessage::QuitRequested).is_none());
    assert_eq!(
        identity_reply(identity(true, b"c", b"k")),
        Some(Ok((b"c".to_vec(), b"k".to_vec())))
    );
    assert_eq!(
        identity_reply(identity(false, b"c", b"k")),
        Some(Err("the local server reported no LAN device identity available".to_owned()))
    );
}

#[test]
fn dial_errors_name_the_peer() {
    let dialer = LanDialer { host: "10.0.0.5".to_owned(), port: 46062 };
    assert_eq!(dialer.target(), ("10.0.0.5", 46062));
    assert_eq!(dialer.timed_out().message(), "LAN dial to 10.0.0.5:46062 timed out");
    assert_eq!(dialer.unreachable("no").message(), "LAN dial to 10.0.0.5:46062 failed: no");
    assert_eq!(
        dialer.handshake_failed("bad").message(),
        "LAN mutual TLS handshake with 10.0.0.5:46062 failed: bad"
    );
    assert_eq!(
        LanDialError::unusable_identity("e").message(),
        "LAN device identity is unusable: e"
    );
    assert_eq!(
        LanDialError::from_identity_error("e").message(),
        "LAN device identity error: e"
    );
}
