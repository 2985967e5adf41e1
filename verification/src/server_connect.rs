//! Getting hold of the server on this machine: connecting to it, starting it where
//! it does not run, replacing it where it is out of date, and restarting it after an
//! update. Each is a machine: an event goes in, and what to do next comes out.

use vstd::prelude::*;

use crate::server_process::{
    but_for, other_pids, other_processes_are_kept, Trouble, SERVER_REFRESH_TIMEOUT_SECS,
    SERVER_RETRY_INTERVAL_MS, SERVER_STARTUP_TIMEOUT_SECS,
};

verus! {

// ---- Waiting for an answer ----

/// What a wait for the restarted server does next.
#[derive(Debug)]
pub enum ReadyWait {
    /// It answers.
    Ready,
    /// Try again after so many milliseconds.
    Again { millis: u64 },
    /// It took too long.
    GiveUp(Trouble),
}

/// What a wait for the restarted server does next, so long after it began.
pub fn wait_for_server_ready(connected: bool, elapsed_ms: u64, timeout_secs: u64) -> (r: ReadyWait)
    ensures
        r == if connected {
            ReadyWait::Ready
        } else if elapsed_ms >= timeout_secs * 1000 {
            ReadyWait::GiveUp(Trouble::NotReadyAfterRestart { secs: timeout_secs })
        } else {
            ReadyWait::Again { millis: 100 }
        },
{
    if connected {
        ReadyWait::Ready
    } else if elapsed_ms / 1000 >= timeout_secs {
        ReadyWait::GiveUp(Trouble::NotReadyAfterRestart { secs: timeout_secs })
    } else {
        ReadyWait::Again { millis: 100 }
    }
}

// ---- Connecting ----

/// The platforms that differ.
#[derive(Debug, Clone, Copy, PartialEq, Eq, Structural)]
pub enum Platform {
    Linux,
    MacOs,
    Other,
}

/// How far the connecting is.
#[derive(Debug, Clone, Copy, PartialEq, Eq, Structural)]
#[allow(inconsistent_fields)]
pub enum ConnectPhase {
    /// A server may be running.
    First,
    /// A server answers; is it the one that is installed?
    Checking,
    /// The server is being started.
    Starting,
    /// The server was started, and does not answer yet.
    Polling,
    /// A newer server is to take over, and does not answer yet.
    Refreshing { old_pid: i32 },
    /// A server answers; is it the newer one?
    Identifying { old_pid: i32 },
    /// The server does not answer; which servers run?
    Listing,
    /// Servers that run but do not answer are being replaced.
    Recovering,
    /// They were replaced.
    Recovered,
    /// The newer server did not take over; the old one is being replaced.
    FallingBack,
    /// It was replaced.
    FellBack,
    Ended,
}

/// What happened.
#[derive(Debug)]
#[allow(inconsistent_fields)]
pub enum ConnectEvent {
    Connected,
    NotConnected { error: String },
    /// The server is the installed one, or that could not be found out.
    Fresh,
    /// It is not, and a newer one was asked to take over.
    Stale { old_pid: i32 },
    Started,
    StartFailed { error: String },
    /// The process that answers.
    Peer { pid: i32 },
    PeerUnknown,
    /// The servers that run.
    Servers { pids: Vec<u32> },
    ServersUnknown { error: String },
    Restarted,
    RestartFailed { error: String },
}

/// What to do next.
#[derive(Debug)]
pub enum ConnectAction {
    Connect,
    /// Connect after so many milliseconds.
    ConnectAfter { millis: u64 },
    /// Find out whether the server that answers is the installed one.
    CheckFreshness,
    StartServer,
    /// Find out which process answers.
    AskPeer,
    ListServers,
    /// End the servers that run, and start one anew.
    ColdRestart,
    /// Use the connection.
    Use,
    Fail(Trouble),
}

/// Connecting to the server on this machine.
#[derive(Debug)]
pub struct ServerConnect {
    pub platform: Platform,
    /// This process.
    pub own_pid: u32,
    pub phase: ConnectPhase,
}

/// What connecting comes to when a server answers.
pub open spec fn answered(platform: Platform) -> (ConnectPhase, ConnectAction) {
    if platform == Platform::MacOs {
        (ConnectPhase::Checking, ConnectAction::CheckFreshness)
    } else {
        (ConnectPhase::Ended, ConnectAction::Use)
    }
}

/// That connecting failed.
pub open spec fn gave_up(trouble: Trouble) -> (ConnectPhase, ConnectAction) {
    (ConnectPhase::Ended, ConnectAction::Fail(trouble))
}

/// That the server was started but does not answer.
pub open spec fn not_ready() -> (ConnectPhase, ConnectAction) {
    gave_up(Trouble::NotReady { secs: SERVER_STARTUP_TIMEOUT_SECS })
}

/// Another attempt.
pub open spec fn once_more(phase: ConnectPhase) -> (ConnectPhase, ConnectAction) {
    (phase, ConnectAction::ConnectAfter { millis: SERVER_RETRY_INTERVAL_MS })
}

/// The newer server did not take over yet, so long after it was asked to.
pub open spec fn still_old(old_pid: i32, elapsed_ms: u64) -> (ConnectPhase, ConnectAction) {
    if elapsed_ms >= SERVER_REFRESH_TIMEOUT_SECS * 1000 {
        (ConnectPhase::FallingBack, ConnectAction::ColdRestart)
    } else {
        once_more(ConnectPhase::Refreshing { old_pid })
    }
}

impl ServerConnect {
    /// What an event leads to, so long after the wait began that is under way.
    pub open spec fn next(&self, event: ConnectEvent, elapsed_ms: u64) -> (
        ConnectPhase,
        ConnectAction,
    ) {
        match (self.phase, event) {
            (ConnectPhase::First, ConnectEvent::Connected) => answered(self.platform),
            (ConnectPhase::First, ConnectEvent::NotConnected { .. }) => (
                ConnectPhase::Starting,
                ConnectAction::StartServer,
            ),
            (ConnectPhase::Checking, ConnectEvent::Fresh) => (
                ConnectPhase::Ended,
                ConnectAction::Use,
            ),
            (ConnectPhase::Checking, ConnectEvent::Stale { old_pid }) => once_more(
                ConnectPhase::Refreshing { old_pid },
            ),
            (ConnectPhase::Starting, ConnectEvent::Started) => once_more(ConnectPhase::Polling),
            (ConnectPhase::Starting, ConnectEvent::StartFailed { error }) => gave_up(
                Trouble::Told { words: error },
            ),
            (ConnectPhase::Polling, ConnectEvent::Connected) => answered(self.platform),
            (ConnectPhase::Polling, ConnectEvent::NotConnected { .. }) => if elapsed_ms
                < SERVER_STARTUP_TIMEOUT_SECS * 1000 {
                once_more(ConnectPhase::Polling)
            } else if self.platform == Platform::MacOs {
                (ConnectPhase::Listing, ConnectAction::ListServers)
            } else {
                not_ready()
            },
            (ConnectPhase::Refreshing { old_pid }, ConnectEvent::Connected) => (
                ConnectPhase::Identifying { old_pid },
                ConnectAction::AskPeer,
            ),
            (ConnectPhase::Refreshing { old_pid }, ConnectEvent::NotConnected { .. }) => {
                still_old(old_pid, elapsed_ms)
            },
            (ConnectPhase::Identifying { old_pid }, ConnectEvent::Peer { pid }) => if pid
                != old_pid {
                (ConnectPhase::Ended, ConnectAction::Use)
            } else {
                still_old(old_pid, elapsed_ms)
            },
            (ConnectPhase::Identifying { .. }, ConnectEvent::PeerUnknown) => (
                ConnectPhase::Ended,
                ConnectAction::Use,
            ),
            (ConnectPhase::Listing, ConnectEvent::Servers { pids }) => if but_for(
                pids@,
                self.own_pid,
            ).len() == 0 {
                not_ready()
            } else {
                (ConnectPhase::Recovering, ConnectAction::ColdRestart)
            },
            (ConnectPhase::Listing, ConnectEvent::ServersUnknown { error }) => gave_up(
                Trouble::Told { words: error },
            ),
            (ConnectPhase::Recovering, ConnectEvent::Restarted) => (
                ConnectPhase::Recovered,
                ConnectAction::Connect,
            ),
            (ConnectPhase::Recovering, ConnectEvent::RestartFailed { error }) => gave_up(
                Trouble::RecoveryFailed { error },
            ),
            (ConnectPhase::Recovered, ConnectEvent::Connected) => (
                ConnectPhase::Ended,
                ConnectAction::Use,
            ),
            (ConnectPhase::Recovered, ConnectEvent::NotConnected { error }) => gave_up(
                Trouble::RecoveryUnreachable { error },
            ),
            (ConnectPhase::FallingBack, ConnectEvent::Restarted) => (
                ConnectPhase::FellBack,
                ConnectAction::Connect,
            ),
            (ConnectPhase::FallingBack, ConnectEvent::RestartFailed { error }) => gave_up(
                Trouble::FallbackFailed { error },
            ),
            (ConnectPhase::FellBack, ConnectEvent::Connected) => (
                ConnectPhase::Ended,
                ConnectAction::Use,
            ),
            (ConnectPhase::FellBack, ConnectEvent::NotConnected { error }) => gave_up(
                Trouble::FallbackUnreachable { error },
            ),
            _ => not_ready(),
        }
    }

    /// Connecting begins with a first attempt.
    pub fn new(platform: Platform, own_pid: u32) -> (r: (Self, ConnectAction))
        ensures
            r.0 == (ServerConnect { platform, own_pid, phase: ConnectPhase::First }),
            r.1 == ConnectAction::Connect,
    {
        (
            ServerConnect { platform, own_pid, phase: ConnectPhase::First },
            ConnectAction::Connect,
        )
    }

    fn go(&mut self, phase: ConnectPhase, action: ConnectAction) -> (r: ConnectAction)
        ensures
            *final(self) == (ServerConnect { phase, ..*old(self) }),
            r == action,
    {
        self.phase = phase;
        action
    }

    fn give_up(&mut self, trouble: Trouble) -> (r: ConnectAction)
        ensures
            *final(self) == (ServerConnect { phase: ConnectPhase::Ended, ..*old(self) }),
            r == ConnectAction::Fail(trouble),
    {
        self.go(ConnectPhase::Ended, ConnectAction::Fail(trouble))
    }

    fn answer(&mut self) -> (r: ConnectAction)
        ensures
            *final(self) == (ServerConnect { phase: answered(old(self).platform).0, ..*old(self) }),
            r == answered(old(self).platform).1,
    {
        match self.platform {
            Platform::MacOs => self.go(ConnectPhase::Checking, ConnectAction::CheckFreshness),
            _ => self.go(ConnectPhase::Ended, ConnectAction::Use),
        }
    }

    fn retry(&mut self, phase: ConnectPhase) -> (r: ConnectAction)
        ensures
            *final(self) == (ServerConnect { phase, ..*old(self) }),
            r == once_more(phase).1,
    {
        self.go(phase, ConnectAction::ConnectAfter { millis: SERVER_RETRY_INTERVAL_MS })
    }

    fn wait_for_newer(&mut self, old_pid: i32, elapsed_ms: u64) -> (r: ConnectAction)
        ensures
            *final(self) == (ServerConnect {
                phase: still_old(old_pid, elapsed_ms).0,
                ..*old(self)
            }),
            r == still_old(old_pid, elapsed_ms).1,
    {
        if elapsed_ms >= SERVER_REFRESH_TIMEOUT_SECS * 1000 {
            self.go(ConnectPhase::FallingBack, ConnectAction::ColdRestart)
        } else {
            self.retry(ConnectPhase::Refreshing { old_pid })
        }
    }

    fn unready(&mut self) -> (r: ConnectAction)
        ensures
            *final(self) == (ServerConnect { phase: ConnectPhase::Ended, ..*old(self) }),
            r == not_ready().1,
    {
        self.give_up(Trouble::NotReady { secs: SERVER_STARTUP_TIMEOUT_SECS })
    }

    /// An event happened, so long after the wait began that is under way. An event
    /// that does not belong to what is under way ends the connecting.
    pub fn step(&mut self, event: ConnectEvent, elapsed_ms: u64) -> (r: ConnectAction)
        ensures
            *final(self) == (ServerConnect {
                phase: old(self).next(event, elapsed_ms).0,
                ..*old(self)
            }),
            r == old(self).next(event, elapsed_ms).1,
    {
        match (self.phase, event) {
            (ConnectPhase::First, ConnectEvent::Connected) => self.answer(),
            (ConnectPhase::First, ConnectEvent::NotConnected { .. }) => {
                self.go(ConnectPhase::Starting, ConnectAction::StartServer)
            },
            (ConnectPhase::Checking, ConnectEvent::Fresh) => {
                self.go(ConnectPhase::Ended, ConnectAction::Use)
            },
            (ConnectPhase::Checking, ConnectEvent::Stale { old_pid }) => {
                self.retry(ConnectPhase::Refreshing { old_pid })
            },
            (ConnectPhase::Starting, ConnectEvent::Started) => self.retry(ConnectPhase::Polling),
            (ConnectPhase::Starting, ConnectEvent::StartFailed { error }) => {
                self.give_up(Trouble::Told { words: error })
            },
            (ConnectPhase::Polling, ConnectEvent::Connected) => self.answer(),
            (ConnectPhase::Polling, ConnectEvent::NotConnected { .. }) => {
                if elapsed_ms < SERVER_STARTUP_TIMEOUT_SECS * 1000 {
                    self.retry(ConnectPhase::Polling)
                } else {
                    match self.platform {
                        Platform::MacOs => {
                            self.go(ConnectPhase::Listing, ConnectAction::ListServers)
                        },
                        _ => self.unready(),
                    }
                }
            },
            (ConnectPhase::Refreshing { old_pid }, ConnectEvent::Connected) => {
                self.go(ConnectPhase::Identifying { old_pid }, ConnectAction::AskPeer)
            },
            (ConnectPhase::Refreshing { old_pid }, ConnectEvent::NotConnected { .. }) => {
                self.wait_for_newer(old_pid, elapsed_ms)
            },
            (ConnectPhase::Identifying { old_pid }, ConnectEvent::Peer { pid }) => {
                if pid != old_pid {
                    self.go(ConnectPhase::Ended, ConnectAction::Use)
                } else {
                    self.wait_for_newer(old_pid, elapsed_ms)
                }
            },
            (ConnectPhase::Identifying { .. }, ConnectEvent::PeerUnknown) => {
                self.go(ConnectPhase::Ended, ConnectAction::Use)
            },
            (ConnectPhase::Listing, ConnectEvent::Servers { pids }) => {
                let others = other_pids(pids.as_slice(), self.own_pid);
                if others.len() == 0 {
                    self.unready()
                } else {
                    self.go(ConnectPhase::Recovering, ConnectAction::ColdRestart)
                }
            },
            (ConnectPhase::Listing, ConnectEvent::ServersUnknown { error }) => {
                self.give_up(Trouble::Told { words: error })
            },
            (ConnectPhase::Recovering, ConnectEvent::Restarted) => {
                self.go(ConnectPhase::Recovered, ConnectAction::Connect)
            },
            (ConnectPhase::Recovering, ConnectEvent::RestartFailed { error }) => {
                self.give_up(Trouble::RecoveryFailed { error })
            },
            (ConnectPhase::Recovered, ConnectEvent::Connected) => {
                self.go(ConnectPhase::Ended, ConnectAction::Use)
            },
            (ConnectPhase::Recovered, ConnectEvent::NotConnected { error }) => {
                self.give_up(Trouble::RecoveryUnreachable { error })
            },
            (ConnectPhase::FallingBack, ConnectEvent::Restarted) => {
                self.go(ConnectPhase::FellBack, ConnectAction::Connect)
            },
            (ConnectPhase::FallingBack, ConnectEvent::RestartFailed { error }) => {
                self.give_up(Trouble::FallbackFailed { error })
            },
            (ConnectPhase::FellBack, ConnectEvent::Connected) => {
                self.go(ConnectPhase::Ended, ConnectAction::Use)
            },
            (ConnectPhase::FellBack, ConnectEvent::NotConnected { error }) => {
                self.give_up(Trouble::FallbackUnreachable { error })
            },
            _ => self.unready(),
        }
    }
}

/// A server is started only where none answered, and ended only on macOS.
pub proof fn running_servers_are_left_alone(
    connect: ServerConnect,
    event: ConnectEvent,
    elapsed_ms: u64,
)
    ensures
        connect.next(event, elapsed_ms).1 is StartServer ==> event is NotConnected,
        connect.next(event, elapsed_ms).1 is ColdRestart ==> connect.phase is Listing
            || connect.phase is Refreshing || connect.phase is Identifying,
        connect.platform != Platform::MacOs && (connect.phase is First || connect.phase is Starting
            || connect.phase is Polling) ==> {
            let phase = connect.next(event, elapsed_ms).0;
            phase is Starting || phase is Polling || phase is Ended
        },
{
}

/// A server that was asked to give way is not used while it is known to answer.
pub proof fn old_servers_are_not_used(connect: ServerConnect, old_pid: i32, elapsed_ms: u64)
    requires
        connect.phase == (ConnectPhase::Identifying { old_pid }),
    ensures
        !(connect.next(ConnectEvent::Peer { pid: old_pid }, elapsed_ms).1 is Use),
{
}

// ---- Ending a process ----

/// How far the ending of a process is.
#[derive(Debug, Clone, Copy, PartialEq, Eq, Structural)]
pub enum TerminatePhase {
    Asking,
    Waiting,
    Forcing,
    WaitingAgain,
    Ended,
}

/// What happened.
#[derive(Debug)]
#[allow(inconsistent_fields)]
pub enum TerminateEvent {
    /// The signal was sent.
    Signalled,
    /// It could not be sent.
    NotRun { error: String },
    /// Sending it failed.
    Failed { status: String },
    /// The wait is over: the process is gone, or not.
    Waited { exited: bool },
}

/// What to do next.
#[derive(Debug)]
pub enum TerminateAction {
    /// Ask the process to end.
    Ask,
    /// Make it end.
    Force,
    /// Wait so many seconds for it to end.
    Wait { secs: u64 },
    Succeed,
    Fail(Trouble),
}

/// Ending a process, politely at first.
#[derive(Debug)]
pub struct Terminate {
    pub label: String,
    pub pid: i32,
    pub phase: TerminatePhase,
}

impl Terminate {
    /// That the process lives on.
    pub open spec fn lingers(&self) -> (TerminatePhase, TerminateAction) {
        (
            TerminatePhase::Ended,
            TerminateAction::Fail(Trouble::Lingers { label: self.label, pid: self.pid }),
        )
    }

    /// What an event leads to.
    pub open spec fn next(&self, event: TerminateEvent) -> (TerminatePhase, TerminateAction) {
        match (self.phase, event) {
            (TerminatePhase::Asking, TerminateEvent::Signalled) => (
                TerminatePhase::Waiting,
                TerminateAction::Wait { secs: 5 },
            ),
            (TerminatePhase::Asking, TerminateEvent::NotRun { error }) => (
                TerminatePhase::Ended,
                TerminateAction::Fail(
                    Trouble::SignalFailed { label: self.label, pid: self.pid, error },
                ),
            ),
            (TerminatePhase::Asking, TerminateEvent::Failed { status }) => (
                TerminatePhase::Ended,
                TerminateAction::Fail(
                    Trouble::SignalExited { label: self.label, pid: self.pid, status },
                ),
            ),
            (TerminatePhase::Waiting, TerminateEvent::Waited { exited }) => if exited {
                (TerminatePhase::Ended, TerminateAction::Succeed)
            } else {
                (TerminatePhase::Forcing, TerminateAction::Force)
            },
            (TerminatePhase::Forcing, TerminateEvent::Signalled) => (
                TerminatePhase::WaitingAgain,
                TerminateAction::Wait { secs: 1 },
            ),
            (TerminatePhase::Forcing, TerminateEvent::NotRun { error }) => (
                TerminatePhase::Ended,
                TerminateAction::Fail(
                    Trouble::KillFailed { label: self.label, pid: self.pid, error },
                ),
            ),
            (TerminatePhase::Forcing, TerminateEvent::Failed { status }) => (
                TerminatePhase::Ended,
                TerminateAction::Fail(
                    Trouble::KillExited { label: self.label, pid: self.pid, status },
                ),
            ),
            (TerminatePhase::WaitingAgain, TerminateEvent::Waited { exited }) => if exited {
                (TerminatePhase::Ended, TerminateAction::Succeed)
            } else {
                self.lingers()
            },
            _ => self.lingers(),
        }
    }

    /// Ending a process begins with asking it.
    pub fn new(label: String, pid: i32) -> (r: (Self, TerminateAction))
        ensures
            r.0 == (Terminate { label, pid, phase: TerminatePhase::Asking }),
            r.1 == TerminateAction::Ask,
    {
        (Terminate { label, pid, phase: TerminatePhase::Asking }, TerminateAction::Ask)
    }

    fn go(&mut self, phase: TerminatePhase, action: TerminateAction) -> (r: TerminateAction)
        ensures
            *final(self) == (Terminate { phase, ..*old(self) }),
            r == action,
    {
        self.phase = phase;
        action
    }

    /// An event happened.
    pub fn step(&mut self, event: TerminateEvent) -> (r: TerminateAction)
        ensures
            *final(self) == (Terminate { phase: old(self).next(event).0, ..*old(self) }),
            r == old(self).next(event).1,
    {
        let label = self.label.clone();
        let pid: i32 = self.pid;
        match (self.phase, event) {
            (TerminatePhase::Asking, TerminateEvent::Signalled) => {
                self.go(TerminatePhase::Waiting, TerminateAction::Wait { secs: 5 })
            },
            (TerminatePhase::Asking, TerminateEvent::NotRun { error }) => {
                let trouble = Trouble::SignalFailed { label, pid, error };
                self.go(TerminatePhase::Ended, TerminateAction::Fail(trouble))
            },
            (TerminatePhase::Asking, TerminateEvent::Failed { status }) => {
                let trouble = Trouble::SignalExited { label, pid, status };
                self.go(TerminatePhase::Ended, TerminateAction::Fail(trouble))
            },
            (TerminatePhase::Waiting, TerminateEvent::Waited { exited }) => {
                if exited {
                    self.go(TerminatePhase::Ended, TerminateAction::Succeed)
                } else {
                    self.go(TerminatePhase::Forcing, TerminateAction::Force)
                }
            },
            (TerminatePhase::Forcing, TerminateEvent::Signalled) => {
                self.go(TerminatePhase::WaitingAgain, TerminateAction::Wait { secs: 1 })
            },
            (TerminatePhase::Forcing, TerminateEvent::NotRun { error }) => {
                let trouble = Trouble::KillFailed { label, pid, error };
                self.go(TerminatePhase::Ended, TerminateAction::Fail(trouble))
            },
            (TerminatePhase::Forcing, TerminateEvent::Failed { status }) => {
                let trouble = Trouble::KillExited { label, pid, status };
                self.go(TerminatePhase::Ended, TerminateAction::Fail(trouble))
            },
            (TerminatePhase::WaitingAgain, TerminateEvent::Waited { exited: true }) => {
                self.go(TerminatePhase::Ended, TerminateAction::Succeed)
            },
            _ => {
                let trouble = Trouble::Lingers { label, pid };
                self.go(TerminatePhase::Ended, TerminateAction::Fail(trouble))
            },
        }
    }
}

/// A process is made to end only after it was asked to and did not.
pub proof fn force_comes_last(terminate: Terminate, event: TerminateEvent)
    ensures
        terminate.next(event).1 is Force ==> terminate.phase is Waiting && event
            == (TerminateEvent::Waited { exited: false }),
        terminate.next(event).1 is Succeed ==> event == (TerminateEvent::Waited { exited: true }),
{
}

// ---- Starting the agent on macOS ----

/// How far the starting of the agent is.
#[derive(Debug, Clone, Copy, PartialEq, Eq, Structural)]
pub enum AgentPhase {
    /// The agent's file is brought up to date.
    Syncing,
    /// The agent is loaded, since its file changed.
    Loading,
    /// The agent is started.
    Starting { refreshed: bool },
    /// The agent could not be started, and is loaded anew.
    Reloading,
    /// It is started again.
    StartingAgain,
    Ended,
}

/// What happened.
#[derive(Debug)]
pub enum AgentEvent {
    /// The agent's file is up to date: it was changed, or not.
    Synced { refreshed: bool },
    Done,
    Failed(Trouble),
}

/// What to do next.
#[derive(Debug)]
pub enum AgentAction {
    Sync,
    Load,
    Start,
    Succeed,
    Fail(Trouble),
}

/// Starting the agent.
#[derive(Debug)]
pub struct AgentStart {
    pub phase: AgentPhase,
}

/// What an event leads to.
pub open spec fn agent_next(phase: AgentPhase, event: AgentEvent) -> (AgentPhase, AgentAction) {
    match (phase, event) {
        (AgentPhase::Syncing, AgentEvent::Synced { refreshed }) => if refreshed {
            (AgentPhase::Loading, AgentAction::Load)
        } else {
            (AgentPhase::Starting { refreshed: false }, AgentAction::Start)
        },
        (AgentPhase::Loading, AgentEvent::Done) => (
            AgentPhase::Starting { refreshed: true },
            AgentAction::Start,
        ),
        (AgentPhase::Starting { refreshed: false }, AgentEvent::Failed(_)) => (
            AgentPhase::Reloading,
            AgentAction::Load,
        ),
        (AgentPhase::Reloading, AgentEvent::Done) => (
            AgentPhase::StartingAgain,
            AgentAction::Start,
        ),
        (_, AgentEvent::Failed(trouble)) => (AgentPhase::Ended, AgentAction::Fail(trouble)),
        _ => (AgentPhase::Ended, AgentAction::Succeed),
    }
}

impl AgentStart {
    /// Starting the agent begins with its file.
    pub fn new() -> (r: (Self, AgentAction))
        ensures
            r.0.phase == AgentPhase::Syncing,
            r.1 == AgentAction::Sync,
    {
        (AgentStart { phase: AgentPhase::Syncing }, AgentAction::Sync)
    }

    /// An event happened.
    pub fn step(&mut self, event: AgentEvent) -> (r: AgentAction)
        ensures
            final(self).phase == agent_next(old(self).phase, event).0,
            r == agent_next(old(self).phase, event).1,
    {
        let (phase, action) = match (self.phase, event) {
            (AgentPhase::Syncing, AgentEvent::Synced { refreshed }) => {
                if refreshed {
                    (AgentPhase::Loading, AgentAction::Load)
                } else {
                    (AgentPhase::Starting { refreshed: false }, AgentAction::Start)
                }
            },
            (AgentPhase::Loading, AgentEvent::Done) => {
                (AgentPhase::Starting { refreshed: true }, AgentAction::Start)
            },
            (AgentPhase::Starting { refreshed: false }, AgentEvent::Failed(_)) => {
                (AgentPhase::Reloading, AgentAction::Load)
            },
            (AgentPhase::Reloading, AgentEvent::Done) => {
                (AgentPhase::StartingAgain, AgentAction::Start)
            },
            (_, AgentEvent::Failed(trouble)) => (AgentPhase::Ended, AgentAction::Fail(trouble)),
            _ => (AgentPhase::Ended, AgentAction::Succeed),
        };
        self.phase = phase;
        action
    }
}

/// The agent is loaded at most twice and started at most twice: every step that does
/// not end leads to a later phase.
pub open spec fn agent_rank(phase: AgentPhase) -> nat {
    match phase {
        AgentPhase::Syncing => 5,
        AgentPhase::Loading => 4,
        AgentPhase::Starting { .. } => 3,
        AgentPhase::Reloading => 2,
        AgentPhase::StartingAgain => 1,
        AgentPhase::Ended => 0,
    }
}

/// Starting the agent comes to an end.
pub proof fn agent_start_ends(phase: AgentPhase, event: AgentEvent)
    requires
        !(phase is Ended),
    ensures
        agent_rank(agent_next(phase, event).0) < agent_rank(phase),
{
}

// ---- Starting the server on macOS ----

/// Why the server is started.
#[derive(Debug, Clone, Copy, PartialEq, Eq, Structural)]
pub enum StartWish {
    /// It does not run.
    Start,
    /// A newer one is to take over from it.
    HandOver,
}

/// How far starting the server has got.
#[derive(Debug, Clone, Copy, PartialEq, Eq, Structural)]
pub enum StartPhase {
    First,
    Second,
    Ended,
}

/// What to do next.
#[derive(Debug, Clone, Copy, PartialEq, Eq, Structural)]
pub enum StartAction {
    /// Start the agent; `force` has it end what it started before.
    Agent { force: bool },
    /// Run the server without the agent; `upgrade` has it take over.
    Run { upgrade: bool },
    Succeed,
    /// Fail with the trouble of the last attempt.
    Fail,
}

/// Starting the server on macOS: in one way, and where that fails in another.
#[derive(Debug, Clone, Copy, PartialEq, Eq, Structural)]
pub struct MacStart {
    pub wish: StartWish,
    pub phase: StartPhase,
}

/// The way that is tried first: the agent, unless the server is to take over, which
/// the agent cannot have it do.
pub open spec fn first_way(wish: StartWish) -> StartAction {
    match wish {
        StartWish::Start => StartAction::Agent { force: false },
        StartWish::HandOver => StartAction::Run { upgrade: true },
    }
}

/// The way that is tried second.
pub open spec fn second_way(wish: StartWish) -> StartAction {
    match wish {
        StartWish::Start => StartAction::Run { upgrade: false },
        StartWish::HandOver => StartAction::Agent { force: true },
    }
}

impl MacStart {
    /// What the outcome of an attempt leads to.
    pub open spec fn next(self, failed: bool) -> (StartPhase, StartAction) {
        if self.phase == StartPhase::First && failed {
            (StartPhase::Second, second_way(self.wish))
        } else if self.phase == StartPhase::Ended || failed {
            (StartPhase::Ended, StartAction::Fail)
        } else {
            (StartPhase::Ended, StartAction::Succeed)
        }
    }

    /// Starting begins with the first way.
    pub fn new(wish: StartWish) -> (r: (Self, StartAction))
        ensures
            r.0 == (MacStart { wish, phase: StartPhase::First }),
            r.1 == first_way(wish),
    {
        let action = match wish {
            StartWish::Start => StartAction::Agent { force: false },
            StartWish::HandOver => StartAction::Run { upgrade: true },
        };
        (MacStart { wish, phase: StartPhase::First }, action)
    }

    /// An attempt was made.
    pub fn step(&mut self, failed: bool) -> (r: StartAction)
        ensures
            *final(self) == (MacStart { phase: old(self).next(failed).0, ..*old(self) }),
            r == old(self).next(failed).1,
    {
        match self.phase {
            StartPhase::First => if failed {
                self.phase = StartPhase::Second;
                match self.wish {
                    StartWish::Start => StartAction::Run { upgrade: false },
                    StartWish::HandOver => StartAction::Agent { force: true },
                }
            } else {
                self.phase = StartPhase::Ended;
                StartAction::Succeed
            },
            StartPhase::Second => {
                self.phase = StartPhase::Ended;
                if failed {
                    StartAction::Fail
                } else {
                    StartAction::Succeed
                }
            },
            StartPhase::Ended => StartAction::Fail,
        }
    }
}

/// The first way that works is the last that is tried, and after two that fail
/// nothing more is.
pub proof fn two_ways_at_most(start: MacStart, failed: bool)
    ensures
        !failed || start.phase != StartPhase::First ==> start.next(failed).0 == StartPhase::Ended,
        start.next(failed).0 != StartPhase::First,
        start.next(failed).1 == StartAction::Succeed <==> !failed && start.phase
            != StartPhase::Ended,
{
}

// ---- Restarting after an update ----

/// How far the restart on Linux is.
#[derive(Debug, Clone, Copy, PartialEq, Eq, Structural)]
#[allow(inconsistent_fields)]
pub enum LinuxPhase {
    Syncing,
    Reloading,
    Stopping,
    Terminating,
    /// Does the server still run? That is asked ten times at most.
    Looking { tries: u32 },
    Napping { tries: u32 },
    LookingAgain,
    Killing,
    NappingAfterKill,
    Clearing,
    Resetting,
    Starting,
    Awaiting,
    Ended,
}

/// What happened.
#[derive(Debug)]
pub enum RestartEvent {
    /// It was done, well or not.
    Done,
    /// The server still runs, or not.
    Running(bool),
    Failed(Trouble),
}

/// What to do next.
#[derive(Debug)]
pub enum LinuxAction {
    /// Hand the graphical environment to the service.
    SyncEnvironment,
    /// Have the service's description read again.
    ReloadUnits,
    StopService,
    /// Ask the server to end.
    Terminate,
    /// Find out whether the server still runs.
    Look,
    /// Wait so many milliseconds.
    Nap { millis: u64 },
    /// Make the server end.
    Kill,
    /// Remove the server's sockets.
    ClearSockets,
    /// Have earlier failures of the service forgotten.
    ResetFailed,
    StartServer,
    /// Wait until the server answers.
    AwaitReady,
    Succeed,
    Fail(Trouble),
}

/// The restart on Linux.
#[derive(Debug)]
pub struct LinuxRestart {
    pub phase: LinuxPhase,
}

/// What an event leads to.
pub open spec fn linux_next(phase: LinuxPhase, event: RestartEvent) -> (LinuxPhase, LinuxAction) {
    match (phase, event) {
        (LinuxPhase::Syncing, _) => (LinuxPhase::Reloading, LinuxAction::ReloadUnits),
        (LinuxPhase::Reloading, _) => (LinuxPhase::Stopping, LinuxAction::StopService),
        (LinuxPhase::Stopping, _) => (LinuxPhase::Terminating, LinuxAction::Terminate),
        (LinuxPhase::Terminating, _) => (LinuxPhase::Looking { tries: 0 }, LinuxAction::Look),
        (LinuxPhase::Looking { .. }, RestartEvent::Failed(trouble)) => (
            LinuxPhase::Ended,
            LinuxAction::Fail(trouble),
        ),
        (LinuxPhase::Looking { tries }, RestartEvent::Running(true)) => (
            LinuxPhase::Napping { tries },
            LinuxAction::Nap { millis: 200 },
        ),
        (LinuxPhase::Looking { .. }, _) => (LinuxPhase::LookingAgain, LinuxAction::Look),
        (LinuxPhase::Napping { tries }, _) => if tries + 1 < 10 {
            (LinuxPhase::Looking { tries: (tries + 1) as u32 }, LinuxAction::Look)
        } else {
            (LinuxPhase::LookingAgain, LinuxAction::Look)
        },
        (LinuxPhase::LookingAgain, RestartEvent::Failed(trouble)) => (
            LinuxPhase::Ended,
            LinuxAction::Fail(trouble),
        ),
        (LinuxPhase::LookingAgain, RestartEvent::Running(true)) => (
            LinuxPhase::Killing,
            LinuxAction::Kill,
        ),
        (LinuxPhase::LookingAgain, _) => (LinuxPhase::Clearing, LinuxAction::ClearSockets),
        (LinuxPhase::Killing, _) => (
            LinuxPhase::NappingAfterKill,
            LinuxAction::Nap { millis: 200 },
        ),
        (LinuxPhase::NappingAfterKill, _) => (LinuxPhase::Clearing, LinuxAction::ClearSockets),
        (LinuxPhase::Clearing, _) => (LinuxPhase::Resetting, LinuxAction::ResetFailed),
        (LinuxPhase::Resetting, _) => (LinuxPhase::Starting, LinuxAction::StartServer),
        (LinuxPhase::Starting, RestartEvent::Failed(trouble)) => (
            LinuxPhase::Ended,
            LinuxAction::Fail(trouble),
        ),
        (LinuxPhase::Starting, _) => (LinuxPhase::Awaiting, LinuxAction::AwaitReady),
        (LinuxPhase::Awaiting, RestartEvent::Failed(trouble)) => (
            LinuxPhase::Ended,
            LinuxAction::Fail(trouble),
        ),
        _ => (LinuxPhase::Ended, LinuxAction::Succeed),
    }
}

impl LinuxRestart {
    /// The restart begins with the environment.
    pub fn new() -> (r: (Self, LinuxAction))
        ensures
            r.0.phase == LinuxPhase::Syncing,
            r.1 == LinuxAction::SyncEnvironment,
    {
        (LinuxRestart { phase: LinuxPhase::Syncing }, LinuxAction::SyncEnvironment)
    }

    /// An event happened. Of the steps that only clear the way, it does not matter
    /// whether they went well.
    pub fn step(&mut self, event: RestartEvent) -> (r: LinuxAction)
        ensures
            final(self).phase == linux_next(old(self).phase, event).0,
            r == linux_next(old(self).phase, event).1,
    {
        let (phase, action) = match (self.phase, event) {
            (LinuxPhase::Syncing, _) => (LinuxPhase::Reloading, LinuxAction::ReloadUnits),
            (LinuxPhase::Reloading, _) => (LinuxPhase::Stopping, LinuxAction::StopService),
            (LinuxPhase::Stopping, _) => (LinuxPhase::Terminating, LinuxAction::Terminate),
            (LinuxPhase::Terminating, _) => (LinuxPhase::Looking { tries: 0 }, LinuxAction::Look),
            (LinuxPhase::Looking { .. }, RestartEvent::Failed(trouble)) => {
                (LinuxPhase::Ended, LinuxAction::Fail(trouble))
            },
            (LinuxPhase::Looking { tries }, RestartEvent::Running(true)) => {
                (LinuxPhase::Napping { tries }, LinuxAction::Nap { millis: 200 })
            },
            (LinuxPhase::Looking { .. }, _) => (LinuxPhase::LookingAgain, LinuxAction::Look),
            (LinuxPhase::Napping { tries }, _) => {
                if tries < 9 {
                    (LinuxPhase::Looking { tries: tries + 1 }, LinuxAction::Look)
                } else {
                    (LinuxPhase::LookingAgain, LinuxAction::Look)
                }
            },
            (LinuxPhase::LookingAgain, RestartEvent::Failed(trouble)) => {
                (LinuxPhase::Ended, LinuxAction::Fail(trouble))
            },
            (LinuxPhase::LookingAgain, RestartEvent::Running(true)) => {
                (LinuxPhase::Killing, LinuxAction::Kill)
            },
            (LinuxPhase::LookingAgain, _) => (LinuxPhase::Clearing, LinuxAction::ClearSockets),
            (LinuxPhase::Killing, _) => {
                (LinuxPhase::NappingAfterKill, LinuxAction::Nap { millis: 200 })
            },
            (LinuxPhase::NappingAfterKill, _) => {
                (LinuxPhase::Clearing, LinuxAction::ClearSockets)
            },
            (LinuxPhase::Clearing, _) => (LinuxPhase::Resetting, LinuxAction::ResetFailed),
            (LinuxPhase::Resetting, _) => (LinuxPhase::Starting, LinuxAction::StartServer),
            (LinuxPhase::Starting, RestartEvent::Failed(trouble)) => {
                (LinuxPhase::Ended, LinuxAction::Fail(trouble))
            },
            (LinuxPhase::Starting, _) => (LinuxPhase::Awaiting, LinuxAction::AwaitReady),
            (LinuxPhase::Awaiting, RestartEvent::Failed(trouble)) => {
                (LinuxPhase::Ended, LinuxAction::Fail(trouble))
            },
            _ => (LinuxPhase::Ended, LinuxAction::Succeed),
        };
        self.phase = phase;
        action
    }
}

/// How many steps the restart on Linux has left at most.
pub open spec fn linux_rank(phase: LinuxPhase) -> int {
    match phase {
        LinuxPhase::Syncing => 40,
        LinuxPhase::Reloading => 39,
        LinuxPhase::Stopping => 38,
        LinuxPhase::Terminating => 37,
        LinuxPhase::Looking { tries } => 36 - 2 * tries,
        LinuxPhase::Napping { tries } => 35 - 2 * tries,
        LinuxPhase::LookingAgain => 10,
        LinuxPhase::Killing => 9,
        LinuxPhase::NappingAfterKill => 8,
        LinuxPhase::Clearing => 7,
        LinuxPhase::Resetting => 6,
        LinuxPhase::Starting => 5,
        LinuxPhase::Awaiting => 4,
        LinuxPhase::Ended => 0,
    }
}

/// The number of times it was asked whether the server still runs is within its
/// bound.
pub open spec fn linux_wf(phase: LinuxPhase) -> bool {
    match phase {
        LinuxPhase::Looking { tries } => tries < 10,
        LinuxPhase::Napping { tries } => tries < 10,
        _ => true,
    }
}

/// The restart on Linux comes to an end, whatever happens.
pub proof fn linux_restart_ends(phase: LinuxPhase, event: RestartEvent)
    requires
        linux_wf(phase),
        !(phase is Ended),
    ensures
        linux_wf(linux_next(phase, event).0),
        0 <= linux_rank(linux_next(phase, event).0) < linux_rank(phase),
{
}

/// How far the restart on macOS is.
#[derive(Debug, Clone, Copy, PartialEq, Eq, Structural)]
pub enum MacPhase {
    Listing,
    /// The server at a place is being ended.
    Terminating { place: usize },
    Clearing,
    /// The agent is being started.
    Starting,
    /// The server is being run without the agent.
    Running,
    Awaiting,
    Ended,
}

/// What happened.
#[derive(Debug)]
pub enum MacEvent {
    /// The servers that run.
    Servers { pids: Vec<u32> },
    /// It was done, well or not.
    Done,
    Failed(Trouble),
}

/// What to do next.
#[derive(Debug)]
pub enum MacAction {
    ListServers,
    Terminate { pid: u32 },
    ClearSockets,
    /// Start the agent, and have it end what it started before.
    StartAgent,
    /// Run the server without the agent.
    RunServer,
    AwaitReady,
    Succeed,
    Fail(Trouble),
}

/// The restart on macOS.
#[derive(Debug)]
pub struct MacRestart {
    /// This process.
    pub own_pid: u32,
    /// The servers to end.
    pub pids: Vec<u32>,
    pub phase: MacPhase,
}

impl MacRestart {
    /// The servers to end after an event.
    pub open spec fn next_pids(&self, event: MacEvent) -> Seq<u32> {
        match (self.phase, event) {
            (MacPhase::Listing, MacEvent::Servers { pids }) => but_for(pids@, self.own_pid),
            _ => self.pids@,
        }
    }

    /// The server at a place is ended, or there is none.
    pub open spec fn ends(pids: Seq<u32>, place: int) -> (MacPhase, MacAction) {
        if place < pids.len() {
            (
                MacPhase::Terminating { place: place as usize },
                MacAction::Terminate { pid: pids[place] },
            )
        } else {
            (MacPhase::Clearing, MacAction::ClearSockets)
        }
    }

    /// What an event leads to.
    pub open spec fn next(&self, event: MacEvent) -> (MacPhase, MacAction) {
        match (self.phase, event) {
            (MacPhase::Listing, MacEvent::Servers { pids }) => Self::ends(
                but_for(pids@, self.own_pid),
                0,
            ),
            (MacPhase::Listing, MacEvent::Failed(trouble)) => (
                MacPhase::Ended,
                MacAction::Fail(trouble),
            ),
            (MacPhase::Terminating { place }, _) => Self::ends(self.pids@, place + 1),
            (MacPhase::Clearing, _) => (MacPhase::Starting, MacAction::StartAgent),
            (MacPhase::Starting, MacEvent::Failed(_)) => (MacPhase::Running, MacAction::RunServer),
            (MacPhase::Starting, _) => (MacPhase::Awaiting, MacAction::AwaitReady),
            (MacPhase::Running, MacEvent::Failed(trouble)) => (
                MacPhase::Ended,
                MacAction::Fail(trouble),
            ),
            (MacPhase::Running, _) => (MacPhase::Awaiting, MacAction::AwaitReady),
            (MacPhase::Awaiting, MacEvent::Failed(trouble)) => (
                MacPhase::Ended,
                MacAction::Fail(trouble),
            ),
            _ => (MacPhase::Ended, MacAction::Succeed),
        }
    }

    /// The place is one of a server to end.
    pub open spec fn wf(&self) -> bool {
        self.phase matches MacPhase::Terminating { place } ==> place < self.pids@.len()
    }

    /// The restart begins with finding out which servers run.
    pub fn new(own_pid: u32) -> (r: (Self, MacAction))
        ensures
            r.0.own_pid == own_pid,
            r.0.pids@ == Seq::<u32>::empty(),
            r.0.phase == MacPhase::Listing,
            r.1 == MacAction::ListServers,
    {
        (MacRestart { own_pid, pids: Vec::new(), phase: MacPhase::Listing }, MacAction::ListServers)
    }

    fn end_at(&mut self, place: usize) -> (r: MacAction)
        ensures
            final(self).own_pid == old(self).own_pid,
            final(self).pids == old(self).pids,
            final(self).phase == Self::ends(old(self).pids@, place as int).0,
            r == Self::ends(old(self).pids@, place as int).1,
    {
        if place < self.pids.len() {
            self.phase = MacPhase::Terminating { place };
            MacAction::Terminate { pid: self.pids[place] }
        } else {
            self.phase = MacPhase::Clearing;
            MacAction::ClearSockets
        }
    }

    /// An event happened. Whether a server could be ended does not matter.
    pub fn step(&mut self, event: MacEvent) -> (r: MacAction)
        requires
            old(self).wf(),
        ensures
            final(self).wf(),
            final(self).own_pid == old(self).own_pid,
            final(self).pids@ == old(self).next_pids(event),
            final(self).phase == old(self).next(event).0,
            r == old(self).next(event).1,
    {
        match (self.phase, event) {
            (MacPhase::Listing, MacEvent::Servers { pids }) => {
                self.pids = other_pids(pids.as_slice(), self.own_pid);
                self.end_at(0)
            },
            (MacPhase::Listing, MacEvent::Failed(trouble)) => {
                self.phase = MacPhase::Ended;
                MacAction::Fail(trouble)
            },
            (MacPhase::Terminating { place }, _) => {
                let count: usize = self.pids.len();
                proof {
                    assert(place < count);
                }
                self.end_at(place + 1)
            },
            (MacPhase::Clearing, _) => {
                self.phase = MacPhase::Starting;
                MacAction::StartAgent
            },
            (MacPhase::Starting, MacEvent::Failed(_)) => {
                self.phase = MacPhase::Running;
                MacAction::RunServer
            },
            (MacPhase::Starting, _) => {
                self.phase = MacPhase::Awaiting;
                MacAction::AwaitReady
            },
            (MacPhase::Running, MacEvent::Failed(trouble)) => {
                self.phase = MacPhase::Ended;
                MacAction::Fail(trouble)
            },
            (MacPhase::Running, _) => {
                self.phase = MacPhase::Awaiting;
                MacAction::AwaitReady
            },
            (MacPhase::Awaiting, MacEvent::Failed(trouble)) => {
                self.phase = MacPhase::Ended;
                MacAction::Fail(trouble)
            },
            _ => {
                self.phase = MacPhase::Ended;
                MacAction::Succeed
            },
        }
    }
}

/// The restart on macOS never ends this process: those that it ends are others.
pub proof fn restarting_spares_this_process(restart: MacRestart, event: MacEvent)
    requires
        !restart.pids@.contains(restart.own_pid),
    ensures
        !restart.next_pids(event).contains(restart.own_pid),
        restart.next(event).1 matches MacAction::Terminate { pid } ==> pid != restart.own_pid,
{
    match (restart.phase, event) {
        (MacPhase::Listing, MacEvent::Servers { pids }) => {
            crate::server_process::own_process_is_spared(pids@, restart.own_pid);
            let others = but_for(pids@, restart.own_pid);
            if others.len() > 0 {
                assert(others.contains(others[0]));
            }
        },
        (MacPhase::Terminating { place }, _) => {
            if place + 1 < restart.pids@.len() {
                assert(restart.pids@.contains(restart.pids@[place + 1]));
            }
        },
        _ => {},
    }
}

// ---- Finishing an update ----

/// How far the finishing of an update is.
#[derive(Debug, Clone, Copy, PartialEq, Eq, Structural)]
pub enum UpdatePhase {
    /// Which clients run?
    Listing,
    Restarting,
    /// The old clients are ending.
    Awaiting,
    /// A new client is being started.
    Relaunching,
    Ended,
}

/// What happened.
#[derive(Debug)]
pub enum UpdateEvent {
    /// The clients that run.
    Clients { pids: Vec<u32> },
    Done,
    Failed(Trouble),
}

/// What to do next.
#[derive(Debug)]
pub enum UpdateAction {
    ListClients,
    RestartServer,
    /// Wait until these clients have ended.
    AwaitClients { pids: Vec<u32> },
    Relaunch,
    Succeed,
    Fail(Trouble),
}

/// Finishing an update that needs a restart: the clients that run are noted before
/// the server is restarted, and a new one is started after they have ended.
#[derive(Debug)]
pub struct UpdateRestart {
    pub platform: Platform,
    pub own_pid: u32,
    pub clients: Vec<u32>,
    pub phase: UpdatePhase,
}

/// What an action amounts to: the processes that it names.
pub open spec fn awaited(action: UpdateAction) -> Seq<u32> {
    match action {
        UpdateAction::AwaitClients { pids } => pids@,
        _ => Seq::empty(),
    }
}

impl UpdateRestart {
    /// Finishing begins with finding out which clients run.
    pub fn new(platform: Platform, own_pid: u32) -> (r: (Self, UpdateAction))
        ensures
            r.0.platform == platform,
            r.0.own_pid == own_pid,
            r.0.clients@ == Seq::<u32>::empty(),
            r.0.phase == UpdatePhase::Listing,
            r.1 == UpdateAction::ListClients,
    {
        (
            UpdateRestart { platform, own_pid, clients: Vec::new(), phase: UpdatePhase::Listing },
            UpdateAction::ListClients,
        )
    }

    /// An event happened.
    pub fn step(&mut self, event: UpdateEvent) -> (r: UpdateAction)
        ensures
            final(self).platform == old(self).platform,
            final(self).own_pid == old(self).own_pid,
            match (old(self).phase, event) {
                (UpdatePhase::Listing, UpdateEvent::Clients { pids }) => if old(self).platform
                    == Platform::Other {
                    &&& final(self).phase == UpdatePhase::Ended
                    &&& r == UpdateAction::Fail(Trouble::RestartUnsupported)
                } else {
                    &&& final(self).phase == UpdatePhase::Restarting
                    &&& final(self).clients@ == but_for(pids@, old(self).own_pid)
                    &&& r == UpdateAction::RestartServer
                },
                (UpdatePhase::Restarting, UpdateEvent::Done) => {
                    &&& final(self).phase == UpdatePhase::Awaiting
                    &&& r is AwaitClients
                    &&& awaited(r) == old(self).clients@
                },
                (UpdatePhase::Awaiting, UpdateEvent::Done) => {
                    &&& final(self).phase == UpdatePhase::Relaunching
                    &&& r == UpdateAction::Relaunch
                },
                (UpdatePhase::Relaunching, UpdateEvent::Done) => {
                    &&& final(self).phase == UpdatePhase::Ended
                    &&& r == UpdateAction::Succeed
                },
                (_, UpdateEvent::Failed(trouble)) => {
                    &&& final(self).phase == UpdatePhase::Ended
                    &&& r == UpdateAction::Fail(trouble)
                },
                _ => {
                    &&& final(self).phase == UpdatePhase::Ended
                    &&& r == UpdateAction::Fail(Trouble::RestartUnsupported)
                },
            },
    {
        match (self.phase, event) {
            (UpdatePhase::Listing, UpdateEvent::Clients { pids }) => match self.platform {
                Platform::Other => {
                    self.phase = UpdatePhase::Ended;
                    UpdateAction::Fail(Trouble::RestartUnsupported)
                },
                _ => {
                    self.clients = other_pids(pids.as_slice(), self.own_pid);
                    self.phase = UpdatePhase::Restarting;
                    UpdateAction::RestartServer
                },
            },
            (UpdatePhase::Restarting, UpdateEvent::Done) => {
                let mut pids: Vec<u32> = Vec::new();
                core::mem::swap(&mut pids, &mut self.clients);
                self.phase = UpdatePhase::Awaiting;
                UpdateAction::AwaitClients { pids }
            },
            (UpdatePhase::Awaiting, UpdateEvent::Done) => {
                self.phase = UpdatePhase::Relaunching;
                UpdateAction::Relaunch
            },
            (UpdatePhase::Relaunching, UpdateEvent::Done) => {
                self.phase = UpdatePhase::Ended;
                UpdateAction::Succeed
            },
            (_, UpdateEvent::Failed(trouble)) => {
                self.phase = UpdatePhase::Ended;
                UpdateAction::Fail(trouble)
            },
            _ => {
                self.phase = UpdatePhase::Ended;
                UpdateAction::Fail(Trouble::RestartUnsupported)
            },
        }
    }
}

// ---- How a server is reached and replaced ----

/// A server that answers is used; one that does not is started, and asked every tenth of a
/// second for five seconds whether it answers. Then the client gives up.
pub proof fn servers_are_started_and_awaited(
    connect: ServerConnect,
    error: String,
    elapsed_ms: u64,
)
    ensures
        ({
            let at = |phase: ConnectPhase| ServerConnect { phase, ..connect };
            let lost = ConnectEvent::NotConnected { error };
            let retry = ConnectAction::ConnectAfter { millis: 100 };
            &&& connect.platform != Platform::MacOs ==> {
                &&& at(ConnectPhase::First).next(ConnectEvent::Connected, elapsed_ms) == (
                    ConnectPhase::Ended,
                    ConnectAction::Use,
                )
                &&& at(ConnectPhase::Polling).next(ConnectEvent::Connected, elapsed_ms) == (
                    ConnectPhase::Ended,
                    ConnectAction::Use,
                )
                &&& elapsed_ms >= 5000 ==> at(ConnectPhase::Polling).next(lost, elapsed_ms) == (
                    ConnectPhase::Ended,
                    ConnectAction::Fail(Trouble::NotReady { secs: 5 }),
                )
            }
            &&& at(ConnectPhase::First).next(lost, elapsed_ms) == (
                ConnectPhase::Starting,
                ConnectAction::StartServer,
            )
            &&& at(ConnectPhase::Starting).next(ConnectEvent::Started, elapsed_ms) == (
                ConnectPhase::Polling,
                retry,
            )
            &&& at(ConnectPhase::Starting).next(ConnectEvent::StartFailed { error }, elapsed_ms)
                == (ConnectPhase::Ended, ConnectAction::Fail(Trouble::Told { words: error }))
            &&& elapsed_ms < 5000 ==> at(ConnectPhase::Polling).next(lost, elapsed_ms) == (
                ConnectPhase::Polling,
                retry,
            )
        }),
{
}

/// On a Mac a server that answers is used only where it is the installed one. A newer one
/// is given ten seconds to take over; then the old one is replaced.
pub proof fn old_servers_are_refreshed(
    connect: ServerConnect,
    error: String,
    old_pid: i32,
    pid: i32,
    elapsed_ms: u64,
)
    requires
        connect.platform == Platform::MacOs,
    ensures
        ({
            let at = |phase: ConnectPhase| ServerConnect { phase, ..connect };
            let lost = ConnectEvent::NotConnected { error };
            let refreshing = at(ConnectPhase::Refreshing { old_pid });
            let identifying = at(ConnectPhase::Identifying { old_pid });
            let waits = (
                ConnectPhase::Refreshing { old_pid },
                ConnectAction::ConnectAfter { millis: 100 },
            );
            let used = (ConnectPhase::Ended, ConnectAction::Use);
            let replaced = (ConnectPhase::FallingBack, ConnectAction::ColdRestart);
            &&& at(ConnectPhase::First).next(ConnectEvent::Connected, elapsed_ms) == (
                ConnectPhase::Checking,
                ConnectAction::CheckFreshness,
            )
            &&& at(ConnectPhase::Polling).next(ConnectEvent::Connected, elapsed_ms) == (
                ConnectPhase::Checking,
                ConnectAction::CheckFreshness,
            )
            &&& at(ConnectPhase::Checking).next(ConnectEvent::Fresh, elapsed_ms) == used
            &&& at(ConnectPhase::Checking).next(ConnectEvent::Stale { old_pid }, elapsed_ms)
                == waits
            &&& refreshing.next(ConnectEvent::Connected, elapsed_ms) == (
                ConnectPhase::Identifying { old_pid },
                ConnectAction::AskPeer,
            )
            &&& pid != old_pid ==> identifying.next(ConnectEvent::Peer { pid }, elapsed_ms) == used
            &&& identifying.next(ConnectEvent::PeerUnknown, elapsed_ms) == used
            &&& elapsed_ms < 10_000 ==> refreshing.next(lost, elapsed_ms) == waits
                && identifying.next(ConnectEvent::Peer { pid: old_pid }, elapsed_ms) == waits
            &&& elapsed_ms >= 10_000 ==> refreshing.next(lost, elapsed_ms) == replaced
                && identifying.next(ConnectEvent::Peer { pid: old_pid }, elapsed_ms) == replaced
        }),
{
}

/// On a Mac a server that was started and does not answer in time is replaced where one
/// runs beside this process, and given up on where none does. What was replaced is used
/// once it answers, and else the trouble is told.
pub proof fn silent_servers_are_replaced(
    connect: ServerConnect,
    error: String,
    pids: Vec<u32>,
    elapsed_ms: u64,
)
    requires
        connect.platform == Platform::MacOs,
    ensures
        ({
            let at = |phase: ConnectPhase| ServerConnect { phase, ..connect };
            let lost = ConnectEvent::NotConnected { error };
            let failed = ConnectEvent::RestartFailed { error };
            let used = (ConnectPhase::Ended, ConnectAction::Use);
            let fails = |trouble: Trouble| (ConnectPhase::Ended, ConnectAction::Fail(trouble));
            let listed = at(ConnectPhase::Listing).next(ConnectEvent::Servers { pids }, elapsed_ms);
            &&& elapsed_ms >= 5000 ==> at(ConnectPhase::Polling).next(lost, elapsed_ms) == (
                ConnectPhase::Listing,
                ConnectAction::ListServers,
            )
            &&& (exists|i: int|
                0 <= i < pids@.len() && #[trigger] pids@[i] != connect.own_pid) ==> listed == (
                ConnectPhase::Recovering,
                ConnectAction::ColdRestart,
            )
            &&& (forall|i: int|
                0 <= i < pids@.len() ==> #[trigger] pids@[i] == connect.own_pid) ==> listed
                == fails(Trouble::NotReady { secs: 5 })
            &&& at(ConnectPhase::Recovering).next(ConnectEvent::Restarted, elapsed_ms) == (
                ConnectPhase::Recovered,
                ConnectAction::Connect,
            )
            &&& at(ConnectPhase::FallingBack).next(ConnectEvent::Restarted, elapsed_ms) == (
                ConnectPhase::FellBack,
                ConnectAction::Connect,
            )
            &&& at(ConnectPhase::Recovered).next(ConnectEvent::Connected, elapsed_ms) == used
            &&& at(ConnectPhase::FellBack).next(ConnectEvent::Connected, elapsed_ms) == used
            &&& at(ConnectPhase::Recovering).next(failed, elapsed_ms) == fails(
                Trouble::RecoveryFailed { error },
            )
            &&& at(ConnectPhase::Recovered).next(lost, elapsed_ms) == fails(
                Trouble::RecoveryUnreachable { error },
            )
            &&& at(ConnectPhase::FallingBack).next(failed, elapsed_ms) == fails(
                Trouble::FallbackFailed { error },
            )
            &&& at(ConnectPhase::FellBack).next(lost, elapsed_ms) == fails(
                Trouble::FallbackUnreachable { error },
            )
        }),
{
    if exists|i: int| 0 <= i < pids@.len() && #[trigger] pids@[i] != connect.own_pid {
        let i = choose|i: int| 0 <= i < pids@.len() && #[trigger] pids@[i] != connect.own_pid;
        assert(pids@.contains(pids@[i]));
        other_processes_are_kept(pids@, connect.own_pid, pids@[i]);
    } else {
        none_but_own(pids@, connect.own_pid);
    }
}

proof fn none_but_own(pids: Seq<u32>, own: u32)
    requires
        forall|i: int| 0 <= i < pids.len() ==> #[trigger] pids[i] == own,
    ensures
        but_for(pids, own).len() == 0,
    decreases pids.len(),
{
    if pids.len() > 0 {
        assert(pids[pids.len() - 1] == own);
        none_but_own(pids.drop_last(), own);
    }
}

/// A process is asked to end and given five seconds; then it is made to end and given one
/// more. What goes wrong is told of the process that it is about.
pub proof fn processes_are_asked_before_they_are_forced(terminate: Terminate, error: String)
    ensures
        ({
            let at = |phase: TerminatePhase| Terminate { phase, ..terminate };
            let gone = TerminateEvent::Waited { exited: true };
            let there = TerminateEvent::Waited { exited: false };
            let done = (TerminatePhase::Ended, TerminateAction::Succeed);
            let fails = |trouble: Trouble| (TerminatePhase::Ended, TerminateAction::Fail(trouble));
            let label = terminate.label;
            let pid = terminate.pid;
            &&& at(TerminatePhase::Asking).next(TerminateEvent::Signalled) == (
                TerminatePhase::Waiting,
                TerminateAction::Wait { secs: 5 },
            )
            &&& at(TerminatePhase::Waiting).next(gone) == done
            &&& at(TerminatePhase::Waiting).next(there) == (
                TerminatePhase::Forcing,
                TerminateAction::Force,
            )
            &&& at(TerminatePhase::Forcing).next(TerminateEvent::Signalled) == (
                TerminatePhase::WaitingAgain,
                TerminateAction::Wait { secs: 1 },
            )
            &&& at(TerminatePhase::WaitingAgain).next(gone) == done
            &&& at(TerminatePhase::WaitingAgain).next(there) == fails(
                Trouble::Lingers { label, pid },
            )
            &&& at(TerminatePhase::Asking).next(TerminateEvent::NotRun { error }) == fails(
                Trouble::SignalFailed { label, pid, error },
            )
            &&& at(TerminatePhase::Asking).next(TerminateEvent::Failed { status: error })
                == fails(Trouble::SignalExited { label, pid, status: error })
            &&& at(TerminatePhase::Forcing).next(TerminateEvent::NotRun { error }) == fails(
                Trouble::KillFailed { label, pid, error },
            )
            &&& at(TerminatePhase::Forcing).next(TerminateEvent::Failed { status: error })
                == fails(Trouble::KillExited { label, pid, status: error })
        }),
{
}

/// The agent is loaded where its file changed, and then started. Where it could not be
/// started although the file did not change, it is loaded and started once more.
pub proof fn agents_are_loaded_before_they_are_started(trouble: Trouble)
    ensures
        agent_next(AgentPhase::Syncing, AgentEvent::Synced { refreshed: true }) == (
            AgentPhase::Loading,
            AgentAction::Load,
        ),
        agent_next(AgentPhase::Syncing, AgentEvent::Synced { refreshed: false }) == (
            AgentPhase::Starting { refreshed: false },
            AgentAction::Start,
        ),
        agent_next(AgentPhase::Loading, AgentEvent::Done) == (
            AgentPhase::Starting { refreshed: true },
            AgentAction::Start,
        ),
        agent_next(AgentPhase::Starting { refreshed: false }, AgentEvent::Failed(trouble)) == (
            AgentPhase::Reloading,
            AgentAction::Load,
        ),
        agent_next(AgentPhase::Starting { refreshed: true }, AgentEvent::Failed(trouble)) == (
            AgentPhase::Ended,
            AgentAction::Fail(trouble),
        ),
        agent_next(AgentPhase::Reloading, AgentEvent::Done) == (
            AgentPhase::StartingAgain,
            AgentAction::Start,
        ),
        agent_next(AgentPhase::StartingAgain, AgentEvent::Failed(trouble)) == (
            AgentPhase::Ended,
            AgentAction::Fail(trouble),
        ),
        agent_next(AgentPhase::StartingAgain, AgentEvent::Done) == (
            AgentPhase::Ended,
            AgentAction::Succeed,
        ),
        forall|refreshed: bool|
            #[trigger] agent_next(AgentPhase::Starting { refreshed }, AgentEvent::Done) == (
                AgentPhase::Ended,
                AgentAction::Succeed,
            ),
{
}

/// A server that does not run is started by the agent first and by itself where that
/// failed; one that is to be taken over from, by its successor first and by a forced start
/// of the agent where that failed.
pub proof fn there_are_two_ways_to_start(start: MacStart)
    requires
        start.phase == StartPhase::First,
    ensures
        first_way(StartWish::Start) == (StartAction::Agent { force: false }),
        first_way(StartWish::HandOver) == (StartAction::Run { upgrade: true }),
        start.wish == StartWish::Start ==> start.next(true) == (
            StartPhase::Second,
            StartAction::Run { upgrade: false },
        ),
        start.wish == StartWish::HandOver ==> start.next(true) == (
            StartPhase::Second,
            StartAction::Agent { force: true },
        ),
        start.next(false) == (StartPhase::Ended, StartAction::Succeed),
        (MacStart { phase: StartPhase::Second, ..start }).next(true) == (
            StartPhase::Ended,
            StartAction::Fail,
        ),
{
}

/// A restart on Linux: the service is told its environment, read anew and stopped, the
/// server is asked to end, looked for every fifth of a second up to ten times, and made to
/// end where it still runs; then its sockets are removed, and it is started and awaited.
pub proof fn linux_restarts_run_their_course(event: RestartEvent, tries: u32, trouble: Trouble)
    ensures
        linux_next(LinuxPhase::Syncing, event) == (LinuxPhase::Reloading, LinuxAction::ReloadUnits),
        linux_next(LinuxPhase::Reloading, event) == (
            LinuxPhase::Stopping,
            LinuxAction::StopService,
        ),
        linux_next(LinuxPhase::Stopping, event) == (
            LinuxPhase::Terminating,
            LinuxAction::Terminate,
        ),
        linux_next(LinuxPhase::Terminating, event) == (
            LinuxPhase::Looking { tries: 0 },
            LinuxAction::Look,
        ),
        linux_next(LinuxPhase::Looking { tries }, RestartEvent::Running(true)) == (
            LinuxPhase::Napping { tries },
            LinuxAction::Nap { millis: 200 },
        ),
        linux_next(LinuxPhase::Looking { tries }, RestartEvent::Running(false)) == (
            LinuxPhase::LookingAgain,
            LinuxAction::Look,
        ),
        tries < 9 ==> linux_next(LinuxPhase::Napping { tries }, event) == (
            LinuxPhase::Looking { tries: (tries + 1) as u32 },
            LinuxAction::Look,
        ),
        tries >= 9 ==> linux_next(LinuxPhase::Napping { tries }, event) == (
            LinuxPhase::LookingAgain,
            LinuxAction::Look,
        ),
        linux_next(LinuxPhase::LookingAgain, RestartEvent::Running(true)) == (
            LinuxPhase::Killing,
            LinuxAction::Kill,
        ),
        linux_next(LinuxPhase::LookingAgain, RestartEvent::Running(false)) == (
            LinuxPhase::Clearing,
            LinuxAction::ClearSockets,
        ),
        linux_next(LinuxPhase::Killing, event) == (
            LinuxPhase::NappingAfterKill,
            LinuxAction::Nap { millis: 200 },
        ),
        linux_next(LinuxPhase::NappingAfterKill, event) == (
            LinuxPhase::Clearing,
            LinuxAction::ClearSockets,
        ),
        linux_next(LinuxPhase::Clearing, event) == (
            LinuxPhase::Resetting,
            LinuxAction::ResetFailed,
        ),
        linux_next(LinuxPhase::Resetting, event) == (
            LinuxPhase::Starting,
            LinuxAction::StartServer,
        ),
        linux_next(LinuxPhase::Starting, RestartEvent::Done) == (
            LinuxPhase::Awaiting,
            LinuxAction::AwaitReady,
        ),
        linux_next(LinuxPhase::Awaiting, RestartEvent::Done) == (
            LinuxPhase::Ended,
            LinuxAction::Succeed,
        ),
        ({
            let fails = (LinuxPhase::Ended, LinuxAction::Fail(trouble));
            let failed = RestartEvent::Failed(trouble);
            &&& linux_next(LinuxPhase::Looking { tries }, failed) == fails
            &&& linux_next(LinuxPhase::LookingAgain, failed) == fails
            &&& linux_next(LinuxPhase::Starting, failed) == fails
            &&& linux_next(LinuxPhase::Awaiting, failed) == fails
        }),
{
}

/// A restart on a Mac ends the servers one after the other, whatever becomes of each, then
/// removes the sockets, starts the agent, runs the server itself where that failed, and
/// awaits it.
pub proof fn mac_restarts_run_their_course(
    restart: MacRestart,
    place: usize,
    event: MacEvent,
    trouble: Trouble,
)
    ensures
        ({
            let at = |phase: MacPhase| MacRestart { phase, ..restart };
            let n = restart.pids@.len();
            let failed = MacEvent::Failed(trouble);
            let fails = (MacPhase::Ended, MacAction::Fail(trouble));
            let awaits = (MacPhase::Awaiting, MacAction::AwaitReady);
            &&& at(MacPhase::Terminating { place }).next(event) == if place + 1 < n {
                (
                    MacPhase::Terminating { place: (place + 1) as usize },
                    MacAction::Terminate { pid: restart.pids@[place + 1] },
                )
            } else {
                (MacPhase::Clearing, MacAction::ClearSockets)
            }
            &&& at(MacPhase::Listing).next(failed) == fails
            &&& at(MacPhase::Clearing).next(event) == (MacPhase::Starting, MacAction::StartAgent)
            &&& at(MacPhase::Starting).next(MacEvent::Done) == awaits
            &&& at(MacPhase::Starting).next(failed) == (MacPhase::Running, MacAction::RunServer)
            &&& at(MacPhase::Running).next(MacEvent::Done) == awaits
            &&& at(MacPhase::Running).next(failed) == fails
            &&& at(MacPhase::Awaiting).next(MacEvent::Done) == (
                MacPhase::Ended,
                MacAction::Succeed,
            )
            &&& at(MacPhase::Awaiting).next(failed) == fails
        }),
{
}

/// The servers to end are those that run, in order, but for this process; the first of
/// them is ended first.
pub proof fn mac_restarts_start_with_the_first_server(restart: MacRestart, pids: Vec<u32>)
    requires
        restart.phase == MacPhase::Listing,
    ensures
        ({
            let event = MacEvent::Servers { pids };
            let others = but_for(pids@, restart.own_pid);
            &&& restart.next_pids(event) == others
            &&& others.len() > 0 ==> restart.next(event) == (
                MacPhase::Terminating { place: 0 },
                MacAction::Terminate { pid: others[0] },
            )
            &&& others.len() == 0 ==> restart.next(event) == (
                MacPhase::Clearing,
                MacAction::ClearSockets,
            )
        }),
{
}

/// A server that answers is ready however late it is; one that does not is asked again
/// every tenth of a second until its time is over.
pub proof fn servers_are_asked_until_their_time_is_over(
    connected: bool,
    elapsed_ms: u64,
    timeout_secs: u64,
    r: ReadyWait,
)
    requires
        call_ensures(wait_for_server_ready, (connected, elapsed_ms, timeout_secs), r),
    ensures
        connected <==> r == ReadyWait::Ready,
        !connected && elapsed_ms < timeout_secs * 1000 ==> r == (ReadyWait::Again { millis: 100 }),
        !connected && elapsed_ms >= timeout_secs * 1000 ==> r == ReadyWait::GiveUp(
            Trouble::NotReadyAfterRestart { secs: timeout_secs },
        ),
{
}

/// An update lists the other windows, restarts the server, waits for those windows to end
/// and starts the program again. Whatever fails ends it, and says why.
pub proof fn updates_run_their_course(event: UpdateEvent)
    ensures
        forall|update: &mut UpdateRestart, r: UpdateAction|
            #[trigger] call_ensures(UpdateRestart::step, (update, event), r) ==> {
                &&& event matches UpdateEvent::Failed(trouble) ==> final(update).phase
                    == UpdatePhase::Ended && r == UpdateAction::Fail(trouble)
                &&& update.phase == UpdatePhase::Listing && update.platform != Platform::Other
                    ==> (event matches UpdateEvent::Clients { pids } ==> {
                    &&& r == UpdateAction::RestartServer
                    &&& final(update).phase == UpdatePhase::Restarting
                    &&& forall|pid: u32|
                        pid != update.own_pid && #[trigger] pids@.contains(pid)
                            ==> final(update).clients@.contains(pid)
                })
                &&& update.phase == UpdatePhase::Restarting && event == UpdateEvent::Done
                    ==> final(update).phase == UpdatePhase::Awaiting && awaited(r)
                    == update.clients@
                &&& update.phase == UpdatePhase::Awaiting && event == UpdateEvent::Done
                    ==> final(update).phase == UpdatePhase::Relaunching && r
                    == UpdateAction::Relaunch
                &&& update.phase == UpdatePhase::Relaunching && event == UpdateEvent::Done
                    ==> final(update).phase == UpdatePhase::Ended && r == UpdateAction::Succeed
                &&& update.phase == UpdatePhase::Listing && update.platform == Platform::Other
                    ==> event is Clients ==> r == UpdateAction::Fail(Trouble::RestartUnsupported)
            },
{
    assert forall|update: &mut UpdateRestart, r: UpdateAction|
        #[trigger] call_ensures(UpdateRestart::step, (update, event), r) && update.phase
            == UpdatePhase::Listing && update.platform != Platform::Other implies (event matches
        UpdateEvent::Clients { pids } ==> {
        forall|pid: u32|
            pid != update.own_pid && #[trigger] pids@.contains(pid)
                ==> final(update).clients@.contains(pid)
    }) by {
        if let UpdateEvent::Clients { pids } = event {
            assert forall|pid: u32|
                pid != update.own_pid && #[trigger] pids@.contains(pid) implies
                final(update).clients@.contains(pid) by {
                other_processes_are_kept(pids@, update.own_pid, pid);
            }
        }
    }
}

} // verus!
