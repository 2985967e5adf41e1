//! The client's side of the wire protocol: identifiers, the messages that go to
//! the server and come back from it, and the values that they carry.
//!
//! Paths travel as text. A value that the client only hands on, and never looks
//! into, travels as an [`Opaque`] in the encoding that it arrived in.

use vstd::prelude::*;

verus! {

/// A terminal session.
#[derive(Debug, Clone, Copy, PartialEq, Eq, Structural, Hash)]
pub struct SessionId {
    pub value: u128,
}

/// A client window.
#[derive(Debug, Clone, Copy, PartialEq, Eq, Structural, Hash)]
pub struct WindowId {
    pub value: u128,
}

/// A workspace region.
#[derive(Debug, Clone, Copy, PartialEq, Eq, Structural, Hash)]
pub struct WorkspaceId {
    pub value: u128,
}

/// A clipboard request that awaits the user's answer.
#[derive(Debug, Clone, Copy, PartialEq, Eq, Structural, Hash)]
pub struct PromptId {
    pub value: u64,
}

/// A value that is handed on in the encoding that it arrived in.
#[derive(Debug, PartialEq, Eq)]
pub struct Opaque {
    pub bytes: Vec<u8>,
}

/// A terminal's size in cells and the size of one cell in pixels.
#[derive(Debug, Clone, Copy, PartialEq, Eq, Structural)]
pub struct TerminalSize {
    pub cols: u16,
    pub rows: u16,
    pub cell_width: u16,
    pub cell_height: u16,
}

/// How a new region divides its parent.
#[derive(Debug, Clone, Copy, PartialEq, Eq, Structural)]
pub enum LayoutDirection {
    Horizontal,
    Vertical,
}

/// The AI assistant that a task label belongs to.
#[derive(Debug, Clone, Copy, PartialEq, Eq, Structural)]
pub enum AiProvider {
    CodexCode,
    /// Any other provider, by its number on the wire.
    Other(u32),
}

/// What a shell prompt mark stands for.
#[derive(Debug, Clone, Copy, PartialEq, Eq, Structural)]
pub enum PromptMarkKind {
    PromptStart,
    PromptEnd,
    CommandStart,
    CommandEnd,
}

/// Whether a clipboard request reads or writes.
#[derive(Debug, Clone, Copy, PartialEq, Eq, Structural)]
pub enum ClipboardOp {
    Read,
    Write,
}

/// Which host clipboard a request is about.
#[derive(Debug, Clone, Copy, PartialEq, Eq, Structural)]
pub enum ClipboardSelection {
    Clipboard,
    Primary,
}

/// The user's answer to a clipboard request.
#[derive(Debug, Clone, Copy, PartialEq, Eq, Structural)]
pub enum ClipboardDecision {
    AllowOnce,
    AlwaysAllow,
    DenyOnce,
    AlwaysDeny,
}

/// Why the host clipboard could not be read, by its number on the wire.
#[derive(Debug, Clone, Copy, PartialEq, Eq, Structural)]
pub struct BridgeError {
    pub code: u32,
}

/// Why a tailnet peer refused a connection, by its number on the wire.
#[derive(Debug, Clone, Copy, PartialEq, Eq, Structural)]
pub struct RemoteRefusal {
    pub code: u32,
}

/// Why a peer on the local network refused a connection.
#[derive(Debug, Clone, Copy, PartialEq, Eq, Structural)]
pub enum LanRefusal {
    Declined,
    NotTrustedNetwork,
    Disabled,
    IncompatibleVersion,
    Busy,
}

/// Who may type into a shared window, by its number on the wire.
#[derive(Debug, Clone, Copy, PartialEq, Eq, Structural)]
pub struct SharingMode {
    pub code: u32,
}

/// Why a share ended, by its number on the wire.
#[derive(Debug, Clone, Copy, PartialEq, Eq, Structural)]
pub struct ShareEndReason {
    pub code: u32,
}

/// The state of environment capture in a session, by its number on the wire.
#[derive(Debug, Clone, Copy, PartialEq, Eq, Structural)]
pub struct EnvStatusState {
    pub code: u32,
}

/// A peer that was discovered on the local network.
#[derive(Debug, PartialEq, Eq)]
pub struct LanPeerInfo {
    pub name: String,
    pub host: String,
    pub addr: String,
    pub port: u16,
    pub protovers: u32,
    pub online: bool,
}

/// This machine's own standing on the local network.
///
/// The identity fields are absent until a device identity has been generated,
/// and whenever it cannot be read.
#[derive(Debug, PartialEq, Eq)]
pub struct LanEnvSummary {
    /// Lowercase hexadecimal digits of this device's identifier.
    pub device_id_hex: Option<String>,
    /// This device's fingerprint words, to be compared by eye.
    pub fingerprint_words: Option<String>,
    /// Whether the current network can be recognised and so be marked trusted.
    pub current_network_addable: bool,
    /// Why it cannot, where it cannot.
    pub current_network_reason: Option<String>,
}

impl Default for LanEnvSummary {
    fn default() -> (r: Self)
        ensures
            r.device_id_hex is None,
            r.fingerprint_words is None,
            !r.current_network_addable,
            r.current_network_reason is None,
    {
        LanEnvSummary {
            device_id_hex: None,
            fingerprint_words: None,
            current_network_addable: false,
            current_network_reason: None,
        }
    }
}

/// An action that another program, or the command palette, asks the window for.
#[derive(Debug, PartialEq, Eq)]
#[allow(inconsistent_fields)]
pub enum AutomationAction {
    OpenSettings,
    OpenFind,
    NewTab,
    NewClaudeTab,
    NewClaudeResumeTab,
    NewCodexTab,
    NewCodexResumeTab,
    SplitVertical,
    SplitHorizontal,
    ClosePane,
    CloseTab,
    NewWindow,
    SwitchProfile { name: String },
    OpenUpdateDialog,
}

/// A message from the client to the server.
#[derive(Debug, PartialEq, Eq)]
#[allow(inconsistent_fields)]
pub enum ClientMessage {
    KeyInput { session_id: SessionId, data: Vec<u8>, dismisses_attention: bool },
    Resize { session_id: SessionId, size: TerminalSize },
    CreateSession {
        workspace_id: WorkspaceId,
        split_direction: Option<LayoutDirection>,
        cwd: Option<String>,
        size: Option<TerminalSize>,
        command: Option<Vec<String>>,
        env_envelope_id: Option<String>,
    },
    CloseSession { session_id: SessionId },
    Subscribe { session_ids: Vec<SessionId> },
    ListSessions,
    AttachSessions { session_ids: Vec<SessionId>, dimensions: Vec<TerminalSize> },
    RequestSnapshot { session_id: SessionId },
    ConfigReloaded,
    ReportWorkspaceTree { tree: Opaque },
    CreateWorkspace,
    CloseWorkspace { workspace_id: WorkspaceId },
    MoveSession { session_id: SessionId, target_workspace: WorkspaceId },
    Hello { window_id: Option<WindowId>, clipboard_gating: bool, takeover: bool },
    CloseWindow { window_id: WindowId },
    QuitAll,
    TriggerUpdate,
    DismissUpdate,
    FocusChanged { gained: Option<SessionId>, lost: Option<SessionId> },
    SearchRequest { session_id: SessionId, query: String, limit: u32 },
    WorkspaceNotesGet { workspace_ids: Vec<WorkspaceId> },
    WorkspaceNotesMutate { mutation: Opaque },
    ClipboardPromptResponse { request_id: PromptId, decision: ClipboardDecision },
    ClipboardBridgeReadReply { request_id: PromptId, payload: Result<String, BridgeError> },
    ListRemotePeers,
    ListWindows,
    ListLanPeers,
    DispatchAction { window_id: Option<WindowId>, action: AutomationAction },
    LanApprovalDecision { request_id: u64, approve: bool },
    ControlClaim { window_id: WindowId },
    ControlGrant { window_id: WindowId, participant_id: u64, accept: bool },
    RemoteHandshake {
        remote_protocol_version: u32,
        scribe_version: String,
        device_name: String,
    },
    LanHello { device_name: String, remote_protocol_version: u32 },
    GetLanEnv,
    GetLanDialIdentity,
}

/// A message from the server to the client.
#[derive(Debug, PartialEq, Eq)]
#[allow(inconsistent_fields)]
pub enum ServerMessage {
    PtyOutput { session_id: SessionId, data: Vec<u8> },
    SessionExited { session_id: SessionId, exit_code: Option<i32> },
    ScreenSnapshot { session_id: SessionId, snapshot: Opaque },
    SessionReplay { session_id: SessionId, replay: Opaque },
    SessionCreated { session_id: SessionId, workspace_id: WorkspaceId, shell_name: String },
    SearchResults { session_id: SessionId, query: String, matches: Vec<Opaque> },
    TrimScrollback { session_id: SessionId, history_rows: u32 },
    ScrollBottom { session_id: SessionId },
    AiStateChanged { session_id: SessionId, ai_state: Opaque },
    AiStateCleared { session_id: SessionId },
    Bell { session_id: SessionId },
    CwdChanged { session_id: SessionId, cwd: String },
    EnvStatus { session_id: SessionId, state: EnvStatusState },
    SessionContextChanged { session_id: SessionId, context: Opaque },
    TitleChanged { session_id: SessionId, title: String },
    CodexTaskLabelChanged { session_id: SessionId, task_label: String },
    CodexTaskLabelCleared { session_id: SessionId },
    TaskLabelChanged { session_id: SessionId, provider: AiProvider, task_label: String },
    TaskLabelCleared { session_id: SessionId, provider: AiProvider },
    PromptReceived { session_id: SessionId, provider: AiProvider, text: String },
    GitBranch { session_id: SessionId, branch: Option<String> },
    PromptMark {
        session_id: SessionId,
        kind: PromptMarkKind,
        click_events: bool,
        exit_code: Option<i32>,
    },
    WorkspaceInfo {
        workspace_id: WorkspaceId,
        name: Option<String>,
        accent_color: String,
        split_direction: Option<LayoutDirection>,
        project_root: Option<String>,
    },
    SessionList {
        sessions: Vec<Opaque>,
        workspace_tree: Option<Opaque>,
        workspaces: Vec<Opaque>,
    },
    WorkspaceNamed { workspace_id: WorkspaceId, name: String, project_root: Option<String> },
    WorkspaceNotesSnapshot { collections: Vec<Opaque> },
    WorkspaceNotesChanged { collection: Opaque },
    Welcome {
        window_id: WindowId,
        other_windows: Vec<WindowId>,
        clipboard_gating: bool,
        participant_id: Option<u64>,
    },
    WindowClosed { window_id: WindowId },
    QuitRequested,
    RunAction { action: AutomationAction },
    ActionDispatched { window_id: WindowId },
    Error { message: String },
    UpdateAvailable { version: String, release_url: String },
    UpdateProgress { state: Opaque },
    WindowTakenOver { device_name: String, login_name: String },
    RemoteDisconnect { reason: RemoteRefusal },
    RemotePeerList { peers: Vec<Opaque> },
    LanPeerList { peers: Vec<LanPeerInfo> },
    WindowList { windows: Vec<Opaque> },
    ShareRoster {
        window_id: WindowId,
        participants: Vec<Opaque>,
        mode: SharingMode,
        holder: Option<u64>,
    },
    ControlRequested { window_id: WindowId, from: Opaque },
    ControlDenied { window_id: WindowId },
    ShareEnded { window_id: WindowId, reason: ShareEndReason },
    LanApprovalRequest {
        request_id: u64,
        device_name: String,
        fingerprint_words: String,
        network_label: String,
        name_collision: bool,
    },
    ClipboardPromptRequest {
        session_id: SessionId,
        request_id: PromptId,
        op: ClipboardOp,
        selection: ClipboardSelection,
        preview: Option<String>,
    },
    ClipboardBridgeWrite {
        session_id: SessionId,
        selection: ClipboardSelection,
        payload: String,
    },
    ClipboardBridgeReadRequest {
        session_id: SessionId,
        request_id: PromptId,
        selection: ClipboardSelection,
    },
    RemoteHandshakeReply {
        accepted: bool,
        refusal: Option<RemoteRefusal>,
        server_remote_protocol_version: u32,
        server_scribe_version: String,
    },
    LanApprovalPending,
    LanApprovalResult { approved: bool, refusal: Option<LanRefusal> },
    LanEnv { env: LanEnvSummary },
    LanDialIdentity {
        available: bool,
        cert_der: Vec<u8>,
        private_key_pkcs8_der: Vec<u8>,
    },
}

} // verus!
