use scribe_client::ipc_client::{
    command_to_message, dispatch_clipboard_message, dispatch_control_message,
    dispatch_server_message, dispatch_session_message, dispatch_workspace_message, ClientCommand,
    Routed, UiEvent,
};
use scribe_client::protocol::{
    AiProvider, AutomationAction, BridgeError, ClientMessage, ClipboardSelection, LanEnvSummary,
    PromptId, ServerMessage, SessionId, TerminalSize, WindowId, WorkspaceId,
};

const SESSION: SessionId = SessionId { value: 5 };
const WINDOW: WindowId = WindowId { value: 6 };

#[test]
fn commands_become_messages() {
    assert_eq!(
        command_to_message(ClientCommand::KeyInput {
            session_id: SESSION,
            data: vec![27],
            dismisses_attention: true,
        }),
        ClientMessage::KeyInput { session_id: SESSION, data: vec![27], dismisses_attention: true }
    );
    let size = TerminalSize { cols: 80, rows: 24, cell_width: 8, cell_height: 16 };
    assert_eq!(
        command_to_message(ClientCommand::Resize { session_id: SESSION, size }),
        ClientMessage::Resize { session_id: SESSION, size }
    );
    assert_eq!(
        command_to_message(ClientCommand::CreateSession {
            workspace_id: WorkspaceId { value: 1 },
            split_direction: None,
            cwd: Some("/tmp".into()),
            size: Some(size),
            command: None,
            env_envelope_id: Some("e".into()),
        }),
        ClientMessage::CreateSession {
            workspace_id: WorkspaceId { value: 1 },
            split_direction: None,
            cwd: Some("/tmp".into()),
            size: Some(size),
            command: None,
            env_envelope_id: Some("e".into()),
        }
    );
    assert_eq!(
        command_to_message(ClientCommand::ClipboardBridgeReadReply {
            request_id: PromptId { value: 3 },
            payload: Err(BridgeError { code: 1 }),
        }),
        ClientMessage::ClipboardBridgeReadReply {
            request_id: PromptId { value: 3 },
            payload: Err(BridgeError { code: 1 }),
        }
    );
    assert_eq!(command_to_message(ClientCommand::QuitAll), ClientMessage::QuitAll);
    assert_eq!(
        command_to_message(ClientCommand::LanApprovalDecision { request_id: 9, approve: false }),
        ClientMessage::LanApprovalDecision { request_id: 9, approve: false }
    );
}

#[test]
fn greetings_offer_clipboard_gating() {
    assert_eq!(
        command_to_message(ClientCommand::Hello { window_id: None, takeover: true }),
        ClientMessage::Hello { window_id: None, clipboard_gating: true, takeover: true }
    );
}

fn events(routed: Routed) -> Vec<String> {
    match routed {
        Routed::Events(events) => events.iter().map(|event| format!("{event:?}")).collect(),
        Routed::Unhandled(message) => panic!("unhandled: {message:?}"),
    }
}

fn event(event: UiEvent) -> Vec<String> {
    vec![format!("{event:?}")]
}

#[test]
fn session_messages_raise_their_events() {
    assert_eq!(
        events(dispatch_server_message(ServerMessage::PtyOutput {
            session_id: SESSION,
            data: vec![1, 2],
        })),
        event(UiEvent::PtyOutput { session_id: SESSION, data: vec![1, 2] })
    );
    assert_eq!(
        events(dispatch_session_message(ServerMessage::SessionCreated {
            session_id: SESSION,
            workspace_id: WorkspaceId { value: 1 },
            shell_name: "zsh".into(),
        })),
        event(UiEvent::SessionCreated { session_id: SESSION, shell_name: "zsh".into() })
    );
    assert_eq!(
        events(dispatch_session_message(ServerMessage::Bell { session_id: SESSION })),
        event(UiEvent::Bell { session_id: SESSION })
    );
    assert_eq!(
        events(dispatch_server_message(ServerMessage::CodexTaskLabelChanged {
            session_id: SESSION,
            task_label: "t".into(),
        })),
        event(UiEvent::TaskLabelChanged {
            session_id: SESSION,
            provider: AiProvider::CodexCode,
            task_label: "t".into(),
        })
    );
}

#[test]
fn welcomes_tell_of_the_clipboard_first() {
    let welcome = ServerMessage::Welcome {
        window_id: WINDOW,
        other_windows: Vec::new(),
        clipboard_gating: false,
        participant_id: Some(2),
    };
    assert_eq!(
        events(dispatch_workspace_message(welcome)),
        vec![
            format!("{:?}", UiEvent::ClipboardGatingNegotiated { server_supports: false }),
            format!(
                "{:?}",
                UiEvent::Welcome {
                    window_id: WINDOW,
                    other_windows: Vec::new(),
                    participant_id: Some(2),
                }
            ),
        ]
    );
}

#[test]
fn control_messages_raise_their_events() {
    assert_eq!(
        events(dispatch_control_message(ServerMessage::RunAction {
            action: AutomationAction::NewTab,
        })),
        event(UiEvent::RunAction { action: AutomationAction::NewTab })
    );
    assert_eq!(
        events(dispatch_server_message(ServerMessage::UpdateAvailable {
            version: "1.2".into(),
            release_url: "u".into(),
        })),
        event(UiEvent::UpdateAvailable { version: "1.2".into() })
    );
    assert!(events(dispatch_server_message(ServerMessage::ActionDispatched {
        window_id: WINDOW,
    }))
    .is_empty());
    assert_eq!(
        events(dispatch_server_message(ServerMessage::ControlDenied { window_id: WINDOW })),
        event(UiEvent::ControlDenied { window_id: WINDOW })
    );
}

#[test]
fn clipboard_messages_raise_their_events() {
    let write = || ServerMessage::ClipboardBridgeWrite {
        session_id: SESSION,
        selection: ClipboardSelection::Primary,
        payload: "p".into(),
    };
    let expected = event(UiEvent::ClipboardBridgeWrite {
        session_id: SESSION,
        selection: ClipboardSelection::Primary,
        payload: "p".into(),
    });
    assert_eq!(events(dispatch_clipboard_message(write())), expected);
    assert_eq!(events(dispatch_server_message(write())), expected);
}

#[test]
fn answers_to_a_handshake_are_left_over() {
    for message in [
        ServerMessage::LanApprovalPending,
        ServerMessage::LanEnv { env: LanEnvSummary::default() },
        ServerMessage::LanApprovalResult { approved: true, refusal: None },
    ] {
        let text = format!("{message:?}");
        match dispatch_server_message(message) {
            Routed::Unhandled(message) => assert_eq!(format!("{message:?}"), text),
            Routed::Events(_) => panic!("routed: {text}"),
        }
    }
    assert!(matches!(
        dispatch_session_message(ServerMessage::QuitRequested),
        Routed::Unhandled(ServerMessage::QuitRequested)
    ));
}
