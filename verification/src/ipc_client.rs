//! What passes over the connection to the server: what each command becomes on
//! the wire, and which events each server message raises.

use vstd::prelude::*;

use crate::protocol::{
    AiProvider, AutomationAction, BridgeError, ClientMessage, ClipboardDecision, ClipboardOp,
    ClipboardSelection, EnvStatusState, LanPeerInfo, LanRefusal, LayoutDirection, Opaque, PromptId,
    PromptMarkKind, RemoteRefusal, ServerMessage, SessionId, ShareEndReason, SharingMode,
    TerminalSize, WindowId, WorkspaceId,
};

verus! {

/// A command from the window to the connection.
#[derive(Debug)]
#[allow(inconsistent_fields)]
pub enum ClientCommand {
    /// The bytes of a key press, for one session.
    KeyInput { session_id: SessionId, data: Vec<u8>, dismisses_attention: bool },
    /// A session's terminal has a new size.
    Resize { session_id: SessionId, size: TerminalSize },
    /// A new session in a workspace. `env_envelope_id` names the saved
    /// environment of a session that is being restored.
    CreateSession {
        workspace_id: WorkspaceId,
        split_direction: Option<LayoutDirection>,
        cwd: Option<String>,
        size: Option<TerminalSize>,
        command: Option<Vec<String>>,
        env_envelope_id: Option<String>,
    },
    CloseSession { session_id: SessionId },
    Subscribe { session_ids: Vec<SessionId> },
    ListSessions,
    AttachSessions { session_ids: Vec<SessionId>, dimensions: Vec<TerminalSize> },
    ConfigReloaded,
    ReportWorkspaceTree { tree: Opaque },
    /// Names this window to the server. `takeover` is set only to reclaim a
    /// window from another controller.
    Hello { window_id: Option<WindowId>, takeover: bool },
    CloseWindow { window_id: WindowId },
    QuitAll,
    TriggerUpdate,
    DismissUpdate,
    FocusChanged { gained: Option<SessionId>, lost: Option<SessionId> },
    SearchRequest { session_id: SessionId, query: String, limit: u32 },
    WorkspaceNotesGet { workspace_ids: Vec<WorkspaceId> },
    WorkspaceNotesMutate { mutation: Opaque },
    ClipboardPromptResponse { request_id: PromptId, decision: ClipboardDecision },
    ClipboardBridgeReadReply { request_id: PromptId, payload: Result<String, BridgeError> },
    ListRemotePeers,
    ListWindows,
    ListLanPeers,
    LanApprovalDecision { request_id: u64, approve: bool },
    ControlClaim { window_id: WindowId },
    ControlGrant { window_id: WindowId, participant_id: u64, accept: bool },
}

/// What a dial to a tailnet peer came to.
#[derive(Debug, Clone, Copy, PartialEq, Eq, Structural)]
pub enum RemoteConnectOutcome {
    /// The peer accepted the handshake.
    Accepted,
    /// The peer refused, and said why.
    Refused(RemoteRefusal),
    /// The peer could not be reached, or hung up before it answered.
    ConnectionFailure,
}

/// What a dial to a peer on the local network came to.
#[derive(Debug, Clone, Copy, PartialEq, Eq, Structural)]
pub enum LanConnectOutcome {
    /// This device is approved.
    Accepted,
    /// The peer refused, and said why.
    Refused(LanRefusal),
    /// The peer could not be reached, or hung up before it decided.
    ConnectionFailure,
}

/// An event from the connection to the window.
#[derive(Debug)]
#[allow(inconsistent_fields)]
pub enum UiEvent {
    PtyOutput { session_id: SessionId, data: Vec<u8> },
    ScreenSnapshot { session_id: SessionId, snapshot: Opaque },
    SessionReplay { session_id: SessionId, replay: Opaque },
    SessionCreated { session_id: SessionId, shell_name: String },
    SessionExited { session_id: SessionId },
    AiStateChanged { session_id: SessionId, ai_state: Opaque },
    AiStateCleared { session_id: SessionId },
    Bell { session_id: SessionId },
    CwdChanged { session_id: SessionId, cwd: String },
    EnvStatus { session_id: SessionId, state: EnvStatusState },
    SessionContextChanged { session_id: SessionId, context: Opaque },
    TitleChanged { session_id: SessionId, title: String },
    TaskLabelChanged { session_id: SessionId, provider: AiProvider, task_label: String },
    TaskLabelCleared { session_id: SessionId, provider: AiProvider },
    PromptReceived { session_id: SessionId, text: String },
    GitBranch { session_id: SessionId, branch: Option<String> },
    WorkspaceInfo {
        workspace_id: WorkspaceId,
        name: Option<String>,
        accent_color: String,
        split_direction: Option<LayoutDirection>,
        project_root: Option<String>,
    },
    SessionList {
        sessions: Vec<Opaque>,
        workspace_tree: Option<Opaque>,
        workspaces: Vec<Opaque>,
    },
    WorkspaceNamed { workspace_id: WorkspaceId, name: String, project_root: Option<String> },
    ConfigChanged,
    ServerDisconnected,
    AnimationTick,
    Welcome { window_id: WindowId, other_windows: Vec<WindowId>, participant_id: Option<u64> },
    WindowClosed { window_id: WindowId },
    QuitRequested,
    RunAction { action: AutomationAction },
    UpdateAvailable { version: String },
    UpdateProgress { state: Opaque },
    PromptMark {
        session_id: SessionId,
        kind: PromptMarkKind,
        click_events: bool,
        exit_code: Option<i32>,
    },
    SearchResults { session_id: SessionId, query: String, matches: Vec<Opaque> },
    TrimScrollback { session_id: SessionId, history_rows: u32 },
    ScrollBottom { session_id: SessionId },
    WorkspaceNotesSnapshot { collections: Vec<Opaque> },
    WorkspaceNotesChanged { collection: Opaque },
    ServerError { message: String },
    ClipboardGatingNegotiated { server_supports: bool },
    ClipboardPromptRequest {
        session_id: SessionId,
        request_id: PromptId,
        op: ClipboardOp,
        selection: ClipboardSelection,
        preview: Option<String>,
    },
    ClipboardBridgeWrite {
        session_id: SessionId,
        selection: ClipboardSelection,
        payload: String,
    },
    ClipboardBridgeReadRequest {
        session_id: SessionId,
        request_id: PromptId,
        selection: ClipboardSelection,
    },
    RemoteDialOutcome { outcome: RemoteConnectOutcome },
    RemoteSevered { reason: RemoteRefusal },
    RemotePeerList { peers: Vec<Opaque> },
    RemoteWindowList { host: String, port: u16, windows: Vec<Opaque> },
    LocalWindowList { windows: Vec<Opaque> },
    WindowTakenOver { device_name: String, login_name: String },
    /// The link dropped and the given attempt to restore it, counted from one,
    /// is under way.
    RemoteReconnecting { attempt: u32 },
    RemoteReconnected,
    RemoteReconnectFailed,
    LanAwaitingApproval,
    LanDialOutcome { outcome: LanConnectOutcome },
    LanPeerList { peers: Vec<LanPeerInfo> },
    LanApprovalRequest {
        request_id: u64,
        device_name: String,
        fingerprint_words: String,
        network_label: String,
        name_collision: bool,
    },
    ShareRoster {
        window_id: WindowId,
        participants: Vec<Opaque>,
        mode: SharingMode,
        holder: Option<u64>,
    },
    ControlRequested { window_id: WindowId, from: Opaque },
    ControlDenied { window_id: WindowId },
    ShareEnded { window_id: WindowId, reason: ShareEndReason },
}

/// The message that carries a command. Every `Hello` offers clipboard gating.
pub open spec fn message_for(cmd: ClientCommand) -> ClientMessage {
    match cmd {
        ClientCommand::KeyInput { session_id, data, dismisses_attention } => {
            ClientMessage::KeyInput { session_id, data, dismisses_attention }
        },
        ClientCommand::Resize { session_id, size } => ClientMessage::Resize { session_id, size },
        ClientCommand::CreateSession {
            workspace_id,
            split_direction,
            cwd,
            size,
            command,
            env_envelope_id,
        } => ClientMessage::CreateSession {
            workspace_id,
            split_direction,
            cwd,
            size,
            command,
            env_envelope_id,
        },
        ClientCommand::CloseSession { session_id } => ClientMessage::CloseSession { session_id },
        ClientCommand::Subscribe { session_ids } => ClientMessage::Subscribe { session_ids },
        ClientCommand::ListSessions => ClientMessage::ListSessions,
        ClientCommand::AttachSessions { session_ids, dimensions } => {
            ClientMessage::AttachSessions { session_ids, dimensions }
        },
        ClientCommand::ConfigReloaded => ClientMessage::ConfigReloaded,
        ClientCommand::ReportWorkspaceTree { tree } => ClientMessage::ReportWorkspaceTree { tree },
        ClientCommand::Hello { window_id, takeover } => {
            ClientMessage::Hello { window_id, clipboard_gating: true, takeover }
        },
        ClientCommand::CloseWindow { window_id } => ClientMessage::CloseWindow { window_id },
        ClientCommand::QuitAll => ClientMessage::QuitAll,
        ClientCommand::TriggerUpdate => ClientMessage::TriggerUpdate,
        ClientCommand::DismissUpdate => ClientMessage::DismissUpdate,
        ClientCommand::FocusChanged { gained, lost } => {
            ClientMessage::FocusChanged { gained, lost }
        },
        ClientCommand::SearchRequest { session_id, query, limit } => {
            ClientMessage::SearchRequest { session_id, query, limit }
        },
        ClientCommand::WorkspaceNotesGet { workspace_ids } => {
            ClientMessage::WorkspaceNotesGet { workspace_ids }
        },
        ClientCommand::WorkspaceNotesMutate { mutation } => {
            ClientMessage::WorkspaceNotesMutate { mutation }
        },
        ClientCommand::ClipboardPromptResponse { request_id, decision } => {
            ClientMessage::ClipboardPromptResponse { request_id, decision }
        },
        ClientCommand::ClipboardBridgeReadReply { request_id, payload } => {
            ClientMessage::ClipboardBridgeReadReply { request_id, payload }
        },
        ClientCommand::ListRemotePeers => ClientMessage::ListRemotePeers,
        ClientCommand::ListWindows => ClientMessage::ListWindows,
        ClientCommand::ListLanPeers => ClientMessage::ListLanPeers,
        ClientCommand::LanApprovalDecision { request_id, approve } => {
            ClientMessage::LanApprovalDecision { request_id, approve }
        },
        ClientCommand::ControlClaim { window_id } => ClientMessage::ControlClaim { window_id },
        ClientCommand::ControlGrant { window_id, participant_id, accept } => {
            ClientMessage::ControlGrant { window_id, participant_id, accept }
        },
    }
}

/// The message that carries `cmd` to the server.
pub fn command_to_message(cmd: ClientCommand) -> (r: ClientMessage)
    ensures
        r == message_for(cmd),
{
    match cmd {
        ClientCommand::KeyInput { session_id, data, dismisses_attention } => {
            ClientMessage::KeyInput { session_id, data, dismisses_attention }
        },
        ClientCommand::Resize { session_id, size } => ClientMessage::Resize { session_id, size },
        ClientCommand::CreateSession {
            workspace_id,
            split_direction,
            cwd,
            size,
            command,
            env_envelope_id,
        } => ClientMessage::CreateSession {
            workspace_id,
            split_direction,
            cwd,
            size,
            command,
            env_envelope_id,
        },
        ClientCommand::CloseSession { session_id } => ClientMessage::CloseSession { session_id },
        ClientCommand::Subscribe { session_ids } => ClientMessage::Subscribe { session_ids },
        ClientCommand::ListSessions => ClientMessage::ListSessions,
        ClientCommand::AttachSessions { session_ids, dimensions } => {
            ClientMessage::AttachSessions { session_ids, dimensions }
        },
        ClientCommand::ConfigReloaded => ClientMessage::ConfigReloaded,
        ClientCommand::ReportWorkspaceTree { tree } => ClientMessage::ReportWorkspaceTree { tree },
        ClientCommand::Hello { window_id, takeover } => {
            ClientMessage::Hello { window_id, clipboard_gating: true, takeover }
        },
        ClientCommand::CloseWindow { window_id } => ClientMessage::CloseWindow { window_id },
        ClientCommand::QuitAll => ClientMessage::QuitAll,
        ClientCommand::TriggerUpdate => ClientMessage::TriggerUpdate,
        ClientCommand::DismissUpdate => ClientMessage::DismissUpdate,
        ClientCommand::FocusChanged { gained, lost } => {
            ClientMessage::FocusChanged { gained, lost }
        },
        ClientCommand::SearchRequest { session_id, query, limit } => {
            ClientMessage::SearchRequest { session_id, query, limit }
        },
        ClientCommand::WorkspaceNotesGet { workspace_ids } => {
            ClientMessage::WorkspaceNotesGet { workspace_ids }
        },
        ClientCommand::WorkspaceNotesMutate { mutation } => {
            ClientMessage::WorkspaceNotesMutate { mutation }
        },
        ClientCommand::ClipboardPromptResponse { request_id, decision } => {
            ClientMessage::ClipboardPromptResponse { request_id, decision }
        },
        ClientCommand::ClipboardBridgeReadReply { request_id, payload } => {
            ClientMessage::ClipboardBridgeReadReply { request_id, payload }
        },
        ClientCommand::ListRemotePeers => ClientMessage::ListRemotePeers,
        ClientCommand::ListWindows => ClientMessage::ListWindows,
        ClientCommand::ListLanPeers => ClientMessage::ListLanPeers,
        ClientCommand::LanApprovalDecision { request_id, approve } => {
            ClientMessage::LanApprovalDecision { request_id, approve }
        },
        ClientCommand::ControlClaim { window_id } => ClientMessage::ControlClaim { window_id },
        ClientCommand::ControlGrant { window_id, participant_id, accept } => {
            ClientMessage::ControlGrant { window_id, participant_id, accept }
        },
    }
}

/// Where a server message went.
pub enum Routed {
    /// It raises these events, in this order.
    Events(Vec<UiEvent>),
    /// No route takes it.
    Unhandled(ServerMessage),
}

/// Whether `routed` is what becomes of `message`, given the events that the
/// route raises for it; `None` where the route does not take it.
pub open spec fn is_routed(
    message: ServerMessage,
    events: Option<Seq<UiEvent>>,
    routed: Routed,
) -> bool {
    match events {
        Some(expected) => routed matches Routed::Events(raised) && raised@ =~= expected,
        None => routed == Routed::Unhandled(message),
    }
}

fn raise(event: UiEvent) -> (r: Routed)
    ensures
        r matches Routed::Events(raised) && raised@ == seq![event],
{
    let mut events: Vec<UiEvent> = Vec::new();
    events.push(event);
    Routed::Events(events)
}

/// What a session printed, and its beginning and end.
pub open spec fn session_events(message: ServerMessage) -> Option<Seq<UiEvent>> {
    match message {
        ServerMessage::PtyOutput { session_id, data } => {
            Some(seq![UiEvent::PtyOutput { session_id, data }])
        },
        ServerMessage::SessionExited { session_id, .. } => {
            Some(seq![UiEvent::SessionExited { session_id }])
        },
        ServerMessage::ScreenSnapshot { session_id, snapshot } => {
            Some(seq![UiEvent::ScreenSnapshot { session_id, snapshot }])
        },
        ServerMessage::SessionReplay { session_id, replay } => {
            Some(seq![UiEvent::SessionReplay { session_id, replay }])
        },
        ServerMessage::SessionCreated { session_id, shell_name, .. } => {
            Some(seq![UiEvent::SessionCreated { session_id, shell_name }])
        },
        ServerMessage::SearchResults { session_id, query, matches } => {
            Some(seq![UiEvent::SearchResults { session_id, query, matches }])
        },
        ServerMessage::TrimScrollback { session_id, history_rows } => {
            Some(seq![UiEvent::TrimScrollback { session_id, history_rows }])
        },
        ServerMessage::ScrollBottom { session_id } => {
            Some(seq![UiEvent::ScrollBottom { session_id }])
        },
        _ => session_metadata_events(message),
    }
}

/// What is known about a session: title, directory, task, branch and prompts.
pub open spec fn session_metadata_events(message: ServerMessage) -> Option<Seq<UiEvent>> {
    match message {
        ServerMessage::AiStateChanged { session_id, ai_state } => {
            Some(seq![UiEvent::AiStateChanged { session_id, ai_state }])
        },
        ServerMessage::AiStateCleared { session_id } => {
            Some(seq![UiEvent::AiStateCleared { session_id }])
        },
        ServerMessage::Bell { session_id } => Some(seq![UiEvent::Bell { session_id }]),
        ServerMessage::CwdChanged { session_id, cwd } => {
            Some(seq![UiEvent::CwdChanged { session_id, cwd }])
        },
        ServerMessage::EnvStatus { session_id, state } => {
            Some(seq![UiEvent::EnvStatus { session_id, state }])
        },
        ServerMessage::SessionContextChanged { session_id, context } => {
            Some(seq![UiEvent::SessionContextChanged { session_id, context }])
        },
        ServerMessage::TitleChanged { session_id, title } => {
            Some(seq![UiEvent::TitleChanged { session_id, title }])
        },
        ServerMessage::CodexTaskLabelChanged { session_id, task_label } => Some(
            seq![UiEvent::TaskLabelChanged {
                session_id,
                provider: AiProvider::CodexCode,
                task_label,
            }],
        ),
        ServerMessage::CodexTaskLabelCleared { session_id } => {
            Some(seq![UiEvent::TaskLabelCleared { session_id, provider: AiProvider::CodexCode }])
        },
        ServerMessage::TaskLabelChanged { session_id, provider, task_label } => {
            Some(seq![UiEvent::TaskLabelChanged { session_id, provider, task_label }])
        },
        ServerMessage::TaskLabelCleared { session_id, provider } => {
            Some(seq![UiEvent::TaskLabelCleared { session_id, provider }])
        },
        ServerMessage::PromptReceived { session_id, text, .. } => {
            Some(seq![UiEvent::PromptReceived { session_id, text }])
        },
        ServerMessage::GitBranch { session_id, branch } => {
            Some(seq![UiEvent::GitBranch { session_id, branch }])
        },
        ServerMessage::PromptMark { session_id, kind, click_events, exit_code } => {
            Some(seq![UiEvent::PromptMark { session_id, kind, click_events, exit_code }])
        },
        _ => None,
    }
}

/// Workspaces, their notes, and which window this is.
pub open spec fn workspace_events(message: ServerMessage) -> Option<Seq<UiEvent>> {
    match message {
        ServerMessage::WorkspaceInfo {
            workspace_id,
            name,
            accent_color,
            split_direction,
            project_root,
        } => Some(
            seq![UiEvent::WorkspaceInfo {
                workspace_id,
                name,
                accent_color,
                split_direction,
                project_root,
            }],
        ),
        ServerMessage::SessionList { sessions, workspace_tree, workspaces } => {
            Some(seq![UiEvent::SessionList { sessions, workspace_tree, workspaces }])
        },
        ServerMessage::WorkspaceNamed { workspace_id, name, project_root } => {
            Some(seq![UiEvent::WorkspaceNamed { workspace_id, name, project_root }])
        },
        ServerMessage::WorkspaceNotesSnapshot { collections } => {
            Some(seq![UiEvent::WorkspaceNotesSnapshot { collections }])
        },
        ServerMessage::WorkspaceNotesChanged { collection } => {
            Some(seq![UiEvent::WorkspaceNotesChanged { collection }])
        },
        ServerMessage::Welcome { window_id, other_windows, clipboard_gating, participant_id } => {
            Some(
                seq![
                    UiEvent::ClipboardGatingNegotiated { server_supports: clipboard_gating },
                    UiEvent::Welcome { window_id, other_windows, participant_id },
                ],
            )
        },
        ServerMessage::WindowClosed { window_id } => {
            Some(seq![UiEvent::WindowClosed { window_id }])
        },
        _ => None,
    }
}

/// Requests to the window as a whole, updates, and other machines.
pub open spec fn control_events(message: ServerMessage) -> Option<Seq<UiEvent>> {
    match message {
        ServerMessage::QuitRequested => Some(seq![UiEvent::QuitRequested]),
        ServerMessage::RunAction { action } => Some(seq![UiEvent::RunAction { action }]),
        ServerMessage::ActionDispatched { .. } => Some(Seq::empty()),
        ServerMessage::Error { message } => Some(seq![UiEvent::ServerError { message }]),
        ServerMessage::UpdateAvailable { version, .. } => {
            Some(seq![UiEvent::UpdateAvailable { version }])
        },
        ServerMessage::UpdateProgress { state } => Some(seq![UiEvent::UpdateProgress { state }]),
        ServerMessage::WindowTakenOver { device_name, login_name } => {
            Some(seq![UiEvent::WindowTakenOver { device_name, login_name }])
        },
        ServerMessage::RemoteDisconnect { reason } => Some(seq![UiEvent::RemoteSevered { reason }]),
        ServerMessage::RemotePeerList { peers } => Some(seq![UiEvent::RemotePeerList { peers }]),
        ServerMessage::LanPeerList { peers } => Some(seq![UiEvent::LanPeerList { peers }]),
        ServerMessage::WindowList { windows } => Some(seq![UiEvent::LocalWindowList { windows }]),
        _ => share_events(message),
    }
}

/// Who shares the window, and who holds control of it.
pub open spec fn share_events(message: ServerMessage) -> Option<Seq<UiEvent>> {
    match message {
        ServerMessage::ShareRoster { window_id, participants, mode, holder } => {
            Some(seq![UiEvent::ShareRoster { window_id, participants, mode, holder }])
        },
        ServerMessage::ControlRequested { window_id, from } => {
            Some(seq![UiEvent::ControlRequested { window_id, from }])
        },
        ServerMessage::ControlDenied { window_id } => {
            Some(seq![UiEvent::ControlDenied { window_id }])
        },
        ServerMessage::ShareEnded { window_id, reason } => {
            Some(seq![UiEvent::ShareEnded { window_id, reason }])
        },
        _ => None,
    }
}

/// A device on the local network that awaits the user's approval.
pub open spec fn lan_approval_events(message: ServerMessage) -> Option<Seq<UiEvent>> {
    match message {
        ServerMessage::LanApprovalRequest {
            request_id,
            device_name,
            fingerprint_words,
            network_label,
            name_collision,
        } => Some(
            seq![UiEvent::LanApprovalRequest {
                request_id,
                device_name,
                fingerprint_words,
                network_label,
                name_collision,
            }],
        ),
        _ => None,
    }
}

/// Requests for the host clipboard.
pub open spec fn clipboard_events(message: ServerMessage) -> Option<Seq<UiEvent>> {
    match message {
        ServerMessage::ClipboardPromptRequest {
            session_id,
            request_id,
            op,
            selection,
            preview,
        } => Some(
            seq![UiEvent::ClipboardPromptRequest {
                session_id,
                request_id,
                op,
                selection,
                preview,
            }],
        ),
        ServerMessage::ClipboardBridgeWrite { session_id, selection, payload } => {
            Some(seq![UiEvent::ClipboardBridgeWrite { session_id, selection, payload }])
        },
        ServerMessage::ClipboardBridgeReadRequest { session_id, request_id, selection } => {
            Some(seq![UiEvent::ClipboardBridgeReadRequest { session_id, request_id, selection }])
        },
        _ => None,
    }
}

/// Routes what a session printed, and its beginning and end.
pub fn dispatch_session_message(message: ServerMessage) -> (r: Routed)
    ensures
        is_routed(message, session_events(message), r),
{
    match message {
        ServerMessage::PtyOutput { session_id, data } => {
            raise(UiEvent::PtyOutput { session_id, data })
        },
        ServerMessage::SessionExited { session_id, .. } => {
            raise(UiEvent::SessionExited { session_id })
        },
        ServerMessage::ScreenSnapshot { session_id, snapshot } => {
            raise(UiEvent::ScreenSnapshot { session_id, snapshot })
        },
        ServerMessage::SessionReplay { session_id, replay } => {
            raise(UiEvent::SessionReplay { session_id, replay })
        },
        ServerMessage::SessionCreated { session_id, shell_name, .. } => {
            raise(UiEvent::SessionCreated { session_id, shell_name })
        },
        ServerMessage::SearchResults { session_id, query, matches } => {
            raise(UiEvent::SearchResults { session_id, query, matches })
        },
        ServerMessage::TrimScrollback { session_id, history_rows } => {
            raise(UiEvent::TrimScrollback { session_id, history_rows })
        },
        ServerMessage::ScrollBottom { session_id } => raise(UiEvent::ScrollBottom { session_id }),
        other => dispatch_session_metadata_message(other),
    }
}

/// Routes what is known about a session: title, directory, task, branch and prompts.
pub fn dispatch_session_metadata_message(message: ServerMessage) -> (r: Routed)
    ensures
        is_routed(message, session_metadata_events(message), r),
{
    match message {
        ServerMessage::AiStateChanged { session_id, ai_state } => {
            raise(UiEvent::AiStateChanged { session_id, ai_state })
        },
        ServerMessage::AiStateCleared { session_id } => {
            raise(UiEvent::AiStateCleared { session_id })
        },
        ServerMessage::Bell { session_id } => raise(UiEvent::Bell { session_id }),
        ServerMessage::CwdChanged { session_id, cwd } => {
            raise(UiEvent::CwdChanged { session_id, cwd })
        },
        ServerMessage::EnvStatus { session_id, state } => {
            raise(UiEvent::EnvStatus { session_id, state })
        },
        ServerMessage::SessionContextChanged { session_id, context } => {
            raise(UiEvent::SessionContextChanged { session_id, context })
        },
        ServerMessage::TitleChanged { session_id, title } => {
            raise(UiEvent::TitleChanged { session_id, title })
        },
        ServerMessage::CodexTaskLabelChanged { session_id, task_label } => raise(
            UiEvent::TaskLabelChanged { session_id, provider: AiProvider::CodexCode, task_label },
        ),
        ServerMessage::CodexTaskLabelCleared { session_id } => {
            raise(UiEvent::TaskLabelCleared { session_id, provider: AiProvider::CodexCode })
        },
        ServerMessage::TaskLabelChanged { session_id, provider, task_label } => {
            raise(UiEvent::TaskLabelChanged { session_id, provider, task_label })
        },
        ServerMessage::TaskLabelCleared { session_id, provider } => {
            raise(UiEvent::TaskLabelCleared { session_id, provider })
        },
        ServerMessage::PromptReceived { session_id, text, .. } => {
            raise(UiEvent::PromptReceived { session_id, text })
        },
        ServerMessage::GitBranch { session_id, branch } => {
            raise(UiEvent::GitBranch { session_id, branch })
        },
        ServerMessage::PromptMark { session_id, kind, click_events, exit_code } => {
            raise(UiEvent::PromptMark { session_id, kind, click_events, exit_code })
        },
        other => Routed::Unhandled(other),
    }
}

/// Routes workspaces, their notes, and which window this is.
pub fn dispatch_workspace_message(message: ServerMessage) -> (r: Routed)
    ensures
        is_routed(message, workspace_events(message), r),
{
    match message {
        ServerMessage::WorkspaceInfo {
            workspace_id,
            name,
            accent_color,
            split_direction,
            project_root,
        } => raise(UiEvent::WorkspaceInfo {
            workspace_id,
            name,
            accent_color,
            split_direction,
            project_root,
        }),
        ServerMessage::SessionList { sessions, workspace_tree, workspaces } => {
            raise(UiEvent::SessionList { sessions, workspace_tree, workspaces })
        },
        ServerMessage::WorkspaceNamed { workspace_id, name, project_root } => {
            raise(UiEvent::WorkspaceNamed { workspace_id, name, project_root })
        },
        ServerMessage::WorkspaceNotesSnapshot { collections } => {
            raise(UiEvent::WorkspaceNotesSnapshot { collections })
        },
        ServerMessage::WorkspaceNotesChanged { collection } => {
            raise(UiEvent::WorkspaceNotesChanged { collection })
        },
        ServerMessage::Welcome { window_id, other_windows, clipboard_gating, participant_id } => {
            let mut events: Vec<UiEvent> = Vec::new();
            events.push(UiEvent::ClipboardGatingNegotiated { server_supports: clipboard_gating });
            events.push(UiEvent::Welcome { window_id, other_windows, participant_id });
            Routed::Events(events)
        },
        ServerMessage::WindowClosed { window_id } => raise(UiEvent::WindowClosed { window_id }),
        other => Routed::Unhandled(other),
    }
}

/// Routes requests to the window as a whole, updates, and other machines.
pub fn dispatch_control_message(message: ServerMessage) -> (r: Routed)
    ensures
        is_routed(message, control_events(message), r),
{
    match message {
        ServerMessage::QuitRequested => raise(UiEvent::QuitRequested),
        ServerMessage::RunAction { action } => raise(UiEvent::RunAction { action }),
        ServerMessage::ActionDispatched { .. } => Routed::Events(Vec::new()),
        ServerMessage::Error { message } => raise(UiEvent::ServerError { message }),
        ServerMessage::UpdateAvailable { version, .. } => {
            raise(UiEvent::UpdateAvailable { version })
        },
        ServerMessage::UpdateProgress { state } => raise(UiEvent::UpdateProgress { state }),
        ServerMessage::WindowTakenOver { device_name, login_name } => {
            raise(UiEvent::WindowTakenOver { device_name, login_name })
        },
        ServerMessage::RemoteDisconnect { reason } => raise(UiEvent::RemoteSevered { reason }),
        ServerMessage::RemotePeerList { peers } => raise(UiEvent::RemotePeerList { peers }),
        ServerMessage::LanPeerList { peers } => raise(UiEvent::LanPeerList { peers }),
        ServerMessage::WindowList { windows } => raise(UiEvent::LocalWindowList { windows }),
        other => dispatch_share_message(other),
    }
}

/// Routes who shares the window, and who holds control of it.
pub fn dispatch_share_message(message: ServerMessage) -> (r: Routed)
    ensures
        is_routed(message, share_events(message), r),
{
    match message {
        ServerMessage::ShareRoster { window_id, participants, mode, holder } => {
            raise(UiEvent::ShareRoster { window_id, participants, mode, holder })
        },
        ServerMessage::ControlRequested { window_id, from } => {
            raise(UiEvent::ControlRequested { window_id, from })
        },
        ServerMessage::ControlDenied { window_id } => raise(UiEvent::ControlDenied { window_id }),
        ServerMessage::ShareEnded { window_id, reason } => {
            raise(UiEvent::ShareEnded { window_id, reason })
        },
        other => Routed::Unhandled(other),
    }
}

/// Routes a device on the local network that awaits the user's approval.
pub fn dispatch_lan_approval_message(message: ServerMessage) -> (r: Routed)
    ensures
        is_routed(message, lan_approval_events(message), r),
{
    match message {
        ServerMessage::LanApprovalRequest {
            request_id,
            device_name,
            fingerprint_words,
            network_label,
            name_collision,
        } => raise(UiEvent::LanApprovalRequest {
            request_id,
            device_name,
            fingerprint_words,
            network_label,
            name_collision,
        }),
        other => Routed::Unhandled(other),
    }
}

/// Routes requests for the host clipboard.
pub fn dispatch_clipboard_message(message: ServerMessage) -> (r: Routed)
    ensures
        is_routed(message, clipboard_events(message), r),
{
    match message {
        ServerMessage::ClipboardPromptRequest {
            session_id,
            request_id,
            op,
            selection,
            preview,
        } => raise(
            UiEvent::ClipboardPromptRequest { session_id, request_id, op, selection, preview },
        ),
        ServerMessage::ClipboardBridgeWrite { session_id, selection, payload } => {
            raise(UiEvent::ClipboardBridgeWrite { session_id, selection, payload })
        },
        ServerMessage::ClipboardBridgeReadRequest { session_id, request_id, selection } => {
            raise(UiEvent::ClipboardBridgeReadRequest { session_id, request_id, selection })
        },
        other => Routed::Unhandled(other),
    }
}

/// The events that a server message raises; `None` where it raises none because
/// it only ever answers a handshake.
pub open spec fn ui_events(message: ServerMessage) -> Option<Seq<UiEvent>> {
    if session_events(message) is Some {
        session_events(message)
    } else if workspace_events(message) is Some {
        workspace_events(message)
    } else if control_events(message) is Some {
        control_events(message)
    } else if lan_approval_events(message) is Some {
        lan_approval_events(message)
    } else {
        clipboard_events(message)
    }
}

/// Routes a server message to the events that it raises.
pub fn dispatch_server_message(message: ServerMessage) -> (r: Routed)
    ensures
        is_routed(message, ui_events(message), r),
{
    let message = match dispatch_session_message(message) {
        Routed::Unhandled(message) => message,
        routed => {
            return routed;
        },
    };
    let message = match dispatch_workspace_message(message) {
        Routed::Unhandled(message) => message,
        routed => {
            return routed;
        },
    };
    let message = match dispatch_control_message(message) {
        Routed::Unhandled(message) => message,
        routed => {
            return routed;
        },
    };
    let message = match dispatch_lan_approval_message(message) {
        Routed::Unhandled(message) => message,
        routed => {
            return routed;
        },
    };
    dispatch_clipboard_message(message)
}

/// A message only ever answers a handshake or a probe, outside any session.
pub open spec fn answers_handshake(message: ServerMessage) -> bool {
    ||| message is RemoteHandshakeReply
    ||| message is LanApprovalPending
    ||| message is LanApprovalResult
    ||| message is LanEnv
    ||| message is LanDialIdentity
}

/// No two routes take the same message, so the order in which they are asked
/// does not matter.
pub proof fn routes_are_disjoint(message: ServerMessage)
    ensures
        session_events(message) is Some ==> workspace_events(message) is None
            && control_events(message) is None && lan_approval_events(message) is None
            && clipboard_events(message) is None,
        workspace_events(message) is Some ==> control_events(message) is None
            && lan_approval_events(message) is None && clipboard_events(message) is None,
        control_events(message) is Some ==> lan_approval_events(message) is None
            && clipboard_events(message) is None,
        lan_approval_events(message) is Some ==> clipboard_events(message) is None,
{
}

/// Every message of a session is routed: none is left unhandled but the answers
/// to a handshake, and none of those reaches the window.
pub proof fn only_handshake_answers_are_unhandled(message: ServerMessage)
    ensures
        ui_events(message) is None <==> answers_handshake(message),
{
}

/// A message raises one event, but for two: the welcome raises the outcome of
/// the clipboard negotiation before itself, and the receipt of a dispatched
/// action raises nothing.
pub proof fn event_count(message: ServerMessage)
    requires
        ui_events(message) is Some,
    ensures
        ui_events(message)->0.len() == if message is Welcome {
            2nat
        } else if message is ActionDispatched {
            0nat
        } else {
            1nat
        },
        message matches ServerMessage::Welcome { clipboard_gating, .. }
            ==> ui_events(message)->0[0] == (UiEvent::ClipboardGatingNegotiated {
            server_supports: clipboard_gating,
        }) && ui_events(message)->0[1] is Welcome,
{
}

/// A message says what its command says: from what the server receives, the command can
/// be told.
pub proof fn messages_say_what_commands_say(cmd: ClientCommand)
    ensures
        match message_for(cmd) {
            ClientMessage::KeyInput { session_id, data, dismisses_attention } => cmd == (
                ClientCommand::KeyInput { session_id, data, dismisses_attention }
            ),
            ClientMessage::Resize { session_id, size } => cmd == (
                ClientCommand::Resize { session_id, size }
            ),
            ClientMessage::CreateSession {
                workspace_id,
                split_direction,
                cwd,
                size,
                command,
                env_envelope_id,
            } => cmd == (ClientCommand::CreateSession {
                workspace_id,
                split_direction,
                cwd,
                size,
                command,
                env_envelope_id,
            }),
            ClientMessage::CloseSession { session_id } => cmd == (
                ClientCommand::CloseSession { session_id }
            ),
            ClientMessage::Subscribe { session_ids } => cmd == (
                ClientCommand::Subscribe { session_ids }
            ),
            ClientMessage::ListSessions => cmd == ClientCommand::ListSessions,
            ClientMessage::AttachSessions { session_ids, dimensions } => cmd == (
                ClientCommand::AttachSessions { session_ids, dimensions }
            ),
            ClientMessage::ConfigReloaded => cmd == ClientCommand::ConfigReloaded,
            ClientMessage::ReportWorkspaceTree { tree } => cmd == (
                ClientCommand::ReportWorkspaceTree { tree }
            ),
            ClientMessage::Hello { window_id, clipboard_gating, takeover } => clipboard_gating
                && cmd == (ClientCommand::Hello { window_id, takeover }),
            ClientMessage::CloseWindow { window_id } => cmd == (
                ClientCommand::CloseWindow { window_id }
            ),
            ClientMessage::QuitAll => cmd == ClientCommand::QuitAll,
            ClientMessage::TriggerUpdate => cmd == ClientCommand::TriggerUpdate,
            ClientMessage::DismissUpdate => cmd == ClientCommand::DismissUpdate,
            ClientMessage::FocusChanged { gained, lost } => cmd == (
                ClientCommand::FocusChanged { gained, lost }
            ),
            ClientMessage::SearchRequest { session_id, query, limit } => cmd == (
                ClientCommand::SearchRequest { session_id, query, limit }
            ),
            ClientMessage::WorkspaceNotesGet { workspace_ids } => cmd == (
                ClientCommand::WorkspaceNotesGet { workspace_ids }
            ),
            ClientMessage::WorkspaceNotesMutate { mutation } => cmd == (
                ClientCommand::WorkspaceNotesMutate { mutation }
            ),
            ClientMessage::ClipboardPromptResponse { request_id, decision } => cmd == (
                ClientCommand::ClipboardPromptResponse { request_id, decision }
            ),
            ClientMessage::ClipboardBridgeReadReply { request_id, payload } => cmd == (
                ClientCommand::ClipboardBridgeReadReply { request_id, payload }
            ),
            ClientMessage::ListRemotePeers => cmd == ClientCommand::ListRemotePeers,
            ClientMessage::ListWindows => cmd == ClientCommand::ListWindows,
            ClientMessage::ListLanPeers => cmd == ClientCommand::ListLanPeers,
            ClientMessage::LanApprovalDecision { request_id, approve } => cmd == (
                ClientCommand::LanApprovalDecision { request_id, approve }
            ),
            ClientMessage::ControlClaim { window_id } => cmd == (
                ClientCommand::ControlClaim { window_id }
            ),
            ClientMessage::ControlGrant { window_id, participant_id, accept } => cmd == (
                ClientCommand::ControlGrant { window_id, participant_id, accept }
            ),
            _ => false,
        },
{
}

/// An event says what its message said: from what the window is told, the message can be
/// told, but for what the window does not need.
pub proof fn events_say_what_messages_say(message: ServerMessage, i: int)
    requires
        ui_events(message) is Some,
        0 <= i < ui_events(message)->0.len(),
    ensures
        match ui_events(message)->0[i] {
            UiEvent::PtyOutput { session_id, data } => message == (
                ServerMessage::PtyOutput { session_id, data }
            ),
            UiEvent::ScreenSnapshot { session_id, snapshot } => message == (
                ServerMessage::ScreenSnapshot { session_id, snapshot }
            ),
            UiEvent::SessionReplay { session_id, replay } => message == (
                ServerMessage::SessionReplay { session_id, replay }
            ),
            UiEvent::SessionCreated { session_id, shell_name } => message matches
                ServerMessage::SessionCreated {
                    session_id: m_session_id,
                    shell_name: m_shell_name,
                    ..
                }
                && m_session_id == session_id && m_shell_name == shell_name,
            UiEvent::SessionExited { session_id } => message matches
                ServerMessage::SessionExited { session_id: m_session_id, .. }
                && m_session_id == session_id,
            UiEvent::AiStateChanged { session_id, ai_state } => message == (
                ServerMessage::AiStateChanged { session_id, ai_state }
            ),
            UiEvent::AiStateCleared { session_id } => message == (
                ServerMessage::AiStateCleared { session_id }
            ),
            UiEvent::Bell { session_id } => message == (ServerMessage::Bell { session_id }),
            UiEvent::CwdChanged { session_id, cwd } => message == (
                ServerMessage::CwdChanged { session_id, cwd }
            ),
            UiEvent::EnvStatus { session_id, state } => message == (
                ServerMessage::EnvStatus { session_id, state }
            ),
            UiEvent::SessionContextChanged { session_id, context } => message == (
                ServerMessage::SessionContextChanged { session_id, context }
            ),
            UiEvent::TitleChanged { session_id, title } => message == (
                ServerMessage::TitleChanged { session_id, title }
            ),
            UiEvent::TaskLabelChanged { session_id, provider, task_label } => message == (
                ServerMessage::TaskLabelChanged { session_id, provider, task_label }) || (provider
                == AiProvider::CodexCode && message == (ServerMessage::CodexTaskLabelChanged {
                session_id,
                task_label,
            })),
            UiEvent::TaskLabelCleared { session_id, provider } => message == (
                ServerMessage::TaskLabelCleared { session_id, provider }) || (provider
                == AiProvider::CodexCode && message == (ServerMessage::CodexTaskLabelCleared {
                session_id,
            })),
            UiEvent::PromptReceived { session_id, text } => message matches
                ServerMessage::PromptReceived { session_id: m_session_id, text: m_text, .. }
                && m_session_id == session_id && m_text == text,
            UiEvent::GitBranch { session_id, branch } => message == (
                ServerMessage::GitBranch { session_id, branch }
            ),
            UiEvent::WorkspaceInfo {
                workspace_id,
                name,
                accent_color,
                split_direction,
                project_root,
            } => message == (ServerMessage::WorkspaceInfo {
                workspace_id,
                name,
                accent_color,
                split_direction,
                project_root,
            }),
            UiEvent::SessionList { sessions, workspace_tree, workspaces } => message == (
                ServerMessage::SessionList { sessions, workspace_tree, workspaces }
            ),
            UiEvent::WorkspaceNamed { workspace_id, name, project_root } => message == (
                ServerMessage::WorkspaceNamed { workspace_id, name, project_root }
            ),
            UiEvent::Welcome { window_id, other_windows, participant_id } => message matches
                ServerMessage::Welcome {
                    window_id: m_window_id,
                    other_windows: m_other_windows,
                    participant_id: m_participant_id,
                    ..
                } && m_window_id == window_id && m_other_windows == other_windows
                && m_participant_id == participant_id && i == 1,
            UiEvent::WindowClosed { window_id } => message == (
                ServerMessage::WindowClosed { window_id }
            ),
            UiEvent::QuitRequested => message == ServerMessage::QuitRequested,
            UiEvent::RunAction { action } => message == (ServerMessage::RunAction { action }),
            UiEvent::UpdateAvailable { version } => message matches
                ServerMessage::UpdateAvailable { version: m_version, .. }
                && m_version == version,
            UiEvent::UpdateProgress { state } => message == (
                ServerMessage::UpdateProgress { state }
            ),
            UiEvent::PromptMark { session_id, kind, click_events, exit_code } => message == (
                ServerMessage::PromptMark { session_id, kind, click_events, exit_code }
            ),
            UiEvent::SearchResults { session_id, query, matches } => message == (
                ServerMessage::SearchResults { session_id, query, matches }
            ),
            UiEvent::TrimScrollback { session_id, history_rows } => message == (
                ServerMessage::TrimScrollback { session_id, history_rows }
            ),
            UiEvent::ScrollBottom { session_id } => message == (
                ServerMessage::ScrollBottom { session_id }
            ),
            UiEvent::WorkspaceNotesSnapshot { collections } => message == (
                ServerMessage::WorkspaceNotesSnapshot { collections }
            ),
            UiEvent::WorkspaceNotesChanged { collection } => message == (
                ServerMessage::WorkspaceNotesChanged { collection }
            ),
            UiEvent::ServerError { message: text } => message == (
                ServerMessage::Error { message: text }
            ),
            UiEvent::ClipboardGatingNegotiated { server_supports } => i == 0 && (message matches
                ServerMessage::Welcome { clipboard_gating, .. } && clipboard_gating
                == server_supports),
            UiEvent::ClipboardPromptRequest {
                session_id,
                request_id,
                op,
                selection,
                preview,
            } => message == (ServerMessage::ClipboardPromptRequest {
                session_id,
                request_id,
                op,
                selection,
                preview,
            }),
            UiEvent::ClipboardBridgeWrite { session_id, selection, payload } => message == (
                ServerMessage::ClipboardBridgeWrite { session_id, selection, payload }
            ),
            UiEvent::ClipboardBridgeReadRequest {
                session_id,
                request_id,
                selection,
            } => message == (ServerMessage::ClipboardBridgeReadRequest {
                session_id,
                request_id,
                selection,
            }),
            UiEvent::RemoteSevered { reason } => message == (
                ServerMessage::RemoteDisconnect { reason }
            ),
            UiEvent::RemotePeerList { peers } => message == (
                ServerMessage::RemotePeerList { peers }
            ),
            UiEvent::LocalWindowList { windows } => message == (
                ServerMessage::WindowList { windows }
            ),
            UiEvent::WindowTakenOver { device_name, login_name } => message == (
                ServerMessage::WindowTakenOver { device_name, login_name }
            ),
            UiEvent::LanPeerList { peers } => message == (ServerMessage::LanPeerList { peers }),
            UiEvent::LanApprovalRequest {
                request_id,
                device_name,
                fingerprint_words,
                network_label,
                name_collision,
            } => message == (ServerMessage::LanApprovalRequest {
                request_id,
                device_name,
                fingerprint_words,
                network_label,
                name_collision,
            }),
            UiEvent::ShareRoster { window_id, participants, mode, holder } => message == (
                ServerMessage::ShareRoster { window_id, participants, mode, holder }
            ),
            UiEvent::ControlRequested { window_id, from } => message == (
                ServerMessage::ControlRequested { window_id, from }
            ),
            UiEvent::ControlDenied { window_id } => message == (
                ServerMessage::ControlDenied { window_id }
            ),
            UiEvent::ShareEnded { window_id, reason } => message == (
                ServerMessage::ShareEnded { window_id, reason }
            ),
            _ => false,
        },
{
}

/// What is sent and what is raised is what the laws speak of.
pub proof fn messages_and_events(
    cmd: ClientCommand,
    sent: ClientMessage,
    message: ServerMessage,
    routed: Routed,
)
    requires
        call_ensures(command_to_message, (cmd,), sent),
        call_ensures(dispatch_server_message, (message,), routed),
    ensures
        sent == message_for(cmd),
        routed matches Routed::Events(events) ==> Some(events@) == ui_events(message),
        routed matches Routed::Unhandled(given) ==> given == message && answers_handshake(message),
{
    only_handshake_answers_are_unhandled(message);
}

} // verus!
