//! The life of a connection to a server, from the first dial through lost links and
//! attempts to restore them, as a machine: an event goes in, and what to tell the
//! window and what to do next come out.

use vstd::arithmetic::power2::{
    lemma2_to64, lemma_pow2_strictly_increases, lemma_pow2_unfold, pow2,
};
use vstd::prelude::*;

use crate::dial::{claim, hello};
use crate::ipc_client::{LanConnectOutcome, RemoteConnectOutcome, UiEvent};
use crate::protocol::{ClientMessage, ServerMessage, WindowId};

verus! {

// ---- Cancelling ----

/// The switch by which the user stops the attempts to restore a link.
#[derive(Debug)]
pub struct RemoteReconnectCancel {
    pub cancelled: bool,
}

/// What can be done with a switch, by any of those who share it.
#[derive(Debug, Clone, Copy, PartialEq, Eq, Structural)]
pub enum CancelUse {
    /// Let one more share it.
    Share,
    /// Stop the attempts.
    Cancel,
    /// Ask whether they are to stop.
    Ask,
}

impl RemoteReconnectCancel {
    /// The switch after a use.
    pub open spec fn after(self, used: CancelUse) -> RemoteReconnectCancel {
        match used {
            CancelUse::Cancel => RemoteReconnectCancel { cancelled: true },
            _ => self,
        }
    }

    /// The switch after uses, one after the other.
    pub open spec fn after_all(self, uses: Seq<CancelUse>) -> RemoteReconnectCancel
        decreases uses.len(),
    {
        if uses.len() == 0 {
            self
        } else {
            self.after_all(uses.drop_last()).after(uses.last())
        }
    }

    /// A switch that was not used yet.
    pub fn new() -> (r: Self)
        ensures
            !r.cancelled,
    {
        RemoteReconnectCancel { cancelled: false }
    }

    /// Stops the attempts. Once is enough, and twice does no harm.
    pub fn cancel(&mut self)
        ensures
            final(self).cancelled,
            *final(self) == old(self).after(CancelUse::Cancel),
    {
        self.cancelled = true;
    }

    /// Whether the attempts are to stop.
    pub fn is_cancelled(&self) -> (r: bool)
        ensures
            r == self.cancelled,
    {
        self.cancelled
    }
}

/// Whoever of those who share a switch cancels, and however often: from then on
/// all of them find it cancelled, those too who came to share it later, and
/// nothing sets it back. While nobody cancels, it stays as it was.
pub proof fn cancelling_is_for_good(switch: RemoteReconnectCancel, uses: Seq<CancelUse>)
    ensures
        switch.after_all(uses).cancelled <==> switch.cancelled || uses.contains(CancelUse::Cancel),
    decreases uses.len(),
{
    if uses.len() > 0 {
        let front = uses.drop_last();
        cancelling_is_for_good(switch, front);
        if front.contains(CancelUse::Cancel) {
            let i = choose|i: int| 0 <= i < front.len() && front[i] == CancelUse::Cancel;
            assert(uses[i] == CancelUse::Cancel);
        }
        if uses.contains(CancelUse::Cancel) {
            let i = choose|i: int| 0 <= i < uses.len() && uses[i] == CancelUse::Cancel;
            if i < uses.len() - 1 {
                assert(front[i] == CancelUse::Cancel);
            }
        }
        assert(uses[uses.len() - 1] == uses.last());
    }
}

// ---- Waiting ----

/// The first wait before an attempt to restore a link, in milliseconds.
pub const RECONNECT_BACKOFF_BASE_MS: u64 = 500;

/// The longest such wait, in milliseconds.
pub const RECONNECT_BACKOFF_CAP_MS: u64 = 15_000;

/// How many attempts are made.
pub const RECONNECT_MAX_ATTEMPTS: u32 = 8;

/// How often a wait looks whether it is cancelled, in milliseconds.
pub const RECONNECT_CANCEL_POLL_MS: u64 = 150;

/// How long a dial may take, in milliseconds.
pub const REMOTE_CONNECT_TIMEOUT_MS: u64 = 5_000;

/// The wait before an attempt, in milliseconds: it doubles from one attempt to the
/// next, up to the longest.
pub open spec fn backoff(attempt: nat) -> nat {
    let doublings: nat = if attempt == 0 {
        0
    } else if attempt > 17 {
        16
    } else {
        (attempt - 1) as nat
    };
    let millis = RECONNECT_BACKOFF_BASE_MS as nat * pow2(doublings);
    if millis <= RECONNECT_BACKOFF_CAP_MS {
        millis
    } else {
        RECONNECT_BACKOFF_CAP_MS as nat
    }
}

/// The wait before an attempt, in milliseconds.
pub fn backoff_delay(attempt: u32) -> (r: u64)
    ensures
        r == backoff(attempt as nat),
        r <= RECONNECT_BACKOFF_CAP_MS,
{
    let doublings: u32 = if attempt == 0 {
        0
    } else if attempt > 17 {
        16
    } else {
        attempt - 1
    };
    let mut millis: u64 = RECONNECT_BACKOFF_BASE_MS;
    let mut i: u32 = 0;
    proof {
        lemma2_to64();
    }
    while i < doublings
        invariant
            i <= doublings <= 16,
            millis == RECONNECT_BACKOFF_BASE_MS as nat * pow2(i as nat),
        decreases doublings - i,
    {
        proof {
            lemma2_to64();
            lemma_pow2_unfold((i + 1) as nat);
            lemma_pow2_strictly_increases(i as nat, 16);
        }
        millis = millis * 2;
        i += 1;
    }
    if millis <= RECONNECT_BACKOFF_CAP_MS {
        millis
    } else {
        RECONNECT_BACKOFF_CAP_MS
    }
}

/// A later attempt never waits less than an earlier one, and every wait is between
/// the first and the longest.
pub proof fn waits_grow(earlier: nat, later: nat)
    requires
        earlier <= later,
    ensures
        RECONNECT_BACKOFF_BASE_MS <= backoff(earlier) <= backoff(later)
            <= RECONNECT_BACKOFF_CAP_MS,
{
    let d = |n: nat|
        if n == 0 {
            0nat
        } else if n > 17 {
            16nat
        } else {
            (n - 1) as nat
        };
    lemma2_to64();
    if d(earlier) < d(later) {
        lemma_pow2_strictly_increases(d(earlier), d(later));
    }
    if d(earlier) > 0 {
        lemma_pow2_strictly_increases(0, d(earlier));
    }
}

/// How much longer a wait sleeps, so that it notices soon when it is cancelled: the
/// rest of the wait, in pieces. Nothing where it is over or cancelled.
pub fn nap(elapsed_ms: u64, delay_ms: u64, cancelled: bool) -> (r: Option<u64>)
    ensures
        r == if cancelled || elapsed_ms >= delay_ms {
            None
        } else if delay_ms - elapsed_ms <= RECONNECT_CANCEL_POLL_MS {
            Some((delay_ms - elapsed_ms) as u64)
        } else {
            Some(RECONNECT_CANCEL_POLL_MS)
        },
{
    if cancelled || elapsed_ms >= delay_ms {
        None
    } else {
        let rest: u64 = delay_ms - elapsed_ms;
        if rest <= RECONNECT_CANCEL_POLL_MS {
            Some(rest)
        } else {
            Some(RECONNECT_CANCEL_POLL_MS)
        }
    }
}

// ---- The handshakes ----

/// How a peer is greeted on the tailnet.
pub fn remote_preamble(version: u32, scribe_version: String, device_name: String) -> (r:
    ClientMessage)
    ensures
        r == (ClientMessage::RemoteHandshake {
            remote_protocol_version: version,
            scribe_version,
            device_name,
        }),
{
    ClientMessage::RemoteHandshake {
        remote_protocol_version: version,
        scribe_version,
        device_name,
    }
}

/// How a peer is greeted on the local network.
pub fn lan_preamble(version: u32, device_name: String) -> (r: ClientMessage)
    ensures
        r == (ClientMessage::LanHello { device_name, remote_protocol_version: version }),
{
    ClientMessage::LanHello { device_name, remote_protocol_version: version }
}

/// What the first message of a peer on the tailnet comes to.
pub open spec fn remote_verdict(reply: ServerMessage) -> RemoteConnectOutcome {
    match reply {
        ServerMessage::RemoteHandshakeReply { accepted, refusal, .. } => if accepted {
            RemoteConnectOutcome::Accepted
        } else {
            match refusal {
                Some(reason) => RemoteConnectOutcome::Refused(reason),
                None => RemoteConnectOutcome::ConnectionFailure,
            }
        },
        _ => RemoteConnectOutcome::ConnectionFailure,
    }
}

/// What the first message of a peer on the tailnet comes to.
pub fn remote_handshake(reply: &ServerMessage) -> (r: RemoteConnectOutcome)
    ensures
        r == remote_verdict(*reply),
{
    match reply {
        ServerMessage::RemoteHandshakeReply { accepted, refusal, .. } => match (
            *accepted,
            *refusal,
        ) {
            (true, _) => RemoteConnectOutcome::Accepted,
            (false, Some(reason)) => RemoteConnectOutcome::Refused(reason),
            (false, None) => RemoteConnectOutcome::ConnectionFailure,
        },
        _ => RemoteConnectOutcome::ConnectionFailure,
    }
}

/// What a message of a peer on the local network comes to; nothing yet where the
/// peer's user still decides.
pub open spec fn lan_verdict(reply: ServerMessage) -> Option<LanConnectOutcome> {
    match reply {
        ServerMessage::LanApprovalPending => None,
        ServerMessage::LanApprovalResult { approved, refusal } => Some(
            if approved {
                LanConnectOutcome::Accepted
            } else {
                match refusal {
                    Some(reason) => LanConnectOutcome::Refused(reason),
                    None => LanConnectOutcome::ConnectionFailure,
                }
            },
        ),
        _ => Some(LanConnectOutcome::ConnectionFailure),
    }
}

/// What a message of a peer on the local network comes to.
pub fn lan_handshake(reply: &ServerMessage) -> (r: Option<LanConnectOutcome>)
    ensures
        r == lan_verdict(*reply),
{
    match reply {
        ServerMessage::LanApprovalPending => None,
        ServerMessage::LanApprovalResult { approved, refusal } => match (*approved, *refusal) {
            (true, _) => Some(LanConnectOutcome::Accepted),
            (false, Some(reason)) => Some(LanConnectOutcome::Refused(reason)),
            (false, None) => Some(LanConnectOutcome::ConnectionFailure),
        },
        _ => Some(LanConnectOutcome::ConnectionFailure),
    }
}

// ---- The machine ----

/// How a server is reached.
#[derive(Debug, Clone, Copy, PartialEq, Eq, Structural)]
pub enum Transport {
    /// On this machine.
    Local,
    /// On the tailnet.
    Tailnet,
    /// On the local network, encrypted and after an approval.
    Lan,
}

/// How far a connection is. The first dial is attempt 0; attempts to restore a link
/// are counted from one.
#[derive(Debug, Clone, Copy, PartialEq, Eq, Structural)]
#[allow(inconsistent_fields)]
pub enum Phase {
    /// This device's identity is being fetched.
    Identity,
    /// The peer is being dialled.
    Dialing { attempt: u32 },
    /// The greeting is being sent.
    Greeting { attempt: u32 },
    /// The peer's answer is awaited.
    Deciding { attempt: u32 },
    /// The window is being claimed.
    Attaching { attempt: u32 },
    /// Messages flow.
    Live,
    /// The wait before an attempt.
    Waiting { attempt: u32 },
    /// It is over.
    Ended,
}

/// What happened.
#[derive(Debug)]
pub enum LinkEvent {
    IdentityReady,
    IdentityFailed,
    Connected,
    ConnectFailed,
    Sent,
    SendFailed,
    Received(ServerMessage),
    ReadFailed,
    /// The link is gone, for reading or for writing.
    LinkLost,
    /// The window is closing.
    CommandsClosed,
    /// The wait is over.
    Waited,
    /// The user cancelled.
    Cancelled,
}

/// What to do next.
#[derive(Debug)]
pub enum LinkAction {
    FetchIdentity,
    Connect,
    /// Send the greeting.
    Greet,
    /// Read a message.
    Read,
    Send(ClientMessage),
    /// Pass messages in both directions until the link is gone or the window closes.
    Converse,
    Wait { millis: u64 },
    Stop,
}

/// What an event leads to.
#[derive(Debug)]
pub struct LinkStep {
    /// What to tell the window, in order.
    pub events: Vec<UiEvent>,
    pub action: LinkAction,
}

/// What a step amounts to, and how far the connection is then.
#[verifier::ext_equal]
pub struct NextModel {
    pub phase: Phase,
    pub events: Seq<UiEvent>,
    pub action: LinkAction,
}

/// A connection.
#[derive(Debug)]
pub struct Link {
    pub transport: Transport,
    /// The window that the first dial claims.
    pub window_id: Option<WindowId>,
    /// Whether the first dial may displace another client.
    pub takeover: bool,
    /// The window that an attempt to restore the link claims.
    pub assigned: Option<WindowId>,
    pub phase: Phase,
}

/// What a handshake came to.
#[derive(Debug, Clone, Copy, PartialEq, Eq, Structural)]
pub enum Verdict {
    Remote(RemoteConnectOutcome),
    Lan(LanConnectOutcome),
}

impl Verdict {
    pub open spec fn accepts(self) -> bool {
        self == Verdict::Remote(RemoteConnectOutcome::Accepted) || self == Verdict::Lan(
            LanConnectOutcome::Accepted,
        )
    }

    /// How the window is told of the first dial.
    pub open spec fn told(self) -> UiEvent {
        match self {
            Verdict::Remote(outcome) => UiEvent::RemoteDialOutcome { outcome },
            Verdict::Lan(outcome) => UiEvent::LanDialOutcome { outcome },
        }
    }

    fn event(self) -> (r: UiEvent)
        ensures
            r == self.told(),
    {
        match self {
            Verdict::Remote(outcome) => UiEvent::RemoteDialOutcome { outcome },
            Verdict::Lan(outcome) => UiEvent::LanDialOutcome { outcome },
        }
    }

    fn is_accepted(self) -> (r: bool)
        ensures
            r == self.accepts(),
    {
        match self {
            Verdict::Remote(RemoteConnectOutcome::Accepted) => true,
            Verdict::Lan(LanConnectOutcome::Accepted) => true,
            _ => false,
        }
    }
}

/// That a dial failed.
pub open spec fn failure(transport: Transport) -> Verdict {
    match transport {
        Transport::Lan => Verdict::Lan(LanConnectOutcome::ConnectionFailure),
        _ => Verdict::Remote(RemoteConnectOutcome::ConnectionFailure),
    }
}

/// What a message during a handshake comes to; nothing yet where the peer's user
/// still decides.
pub open spec fn verdict(transport: Transport, reply: ServerMessage) -> Option<Verdict> {
    match transport {
        Transport::Lan => match lan_verdict(reply) {
            Some(outcome) => Some(Verdict::Lan(outcome)),
            None => None,
        },
        _ => Some(Verdict::Remote(remote_verdict(reply))),
    }
}

fn failure_of(transport: Transport) -> (r: Verdict)
    ensures
        r == failure(transport),
{
    match transport {
        Transport::Lan => Verdict::Lan(LanConnectOutcome::ConnectionFailure),
        _ => Verdict::Remote(RemoteConnectOutcome::ConnectionFailure),
    }
}

fn verdict_of(transport: Transport, reply: &ServerMessage) -> (r: Option<Verdict>)
    ensures
        r == verdict(transport, *reply),
{
    match transport {
        Transport::Lan => match lan_handshake(reply) {
            Some(outcome) => Some(Verdict::Lan(outcome)),
            None => None,
        },
        _ => Some(Verdict::Remote(remote_handshake(reply))),
    }
}

/// It is over, and the window is told so.
pub open spec fn over(events: Seq<UiEvent>) -> NextModel {
    NextModel { phase: Phase::Ended, events, action: LinkAction::Stop }
}

/// Something goes on, and there is nothing to tell.
pub open spec fn quietly(phase: Phase, action: LinkAction) -> NextModel {
    NextModel { phase, events: Seq::empty(), action }
}

/// An attempt to restore the link is announced, and waits.
pub open spec fn announced(attempt: u32) -> NextModel {
    NextModel {
        phase: Phase::Waiting { attempt },
        events: seq![UiEvent::RemoteReconnecting { attempt }],
        action: LinkAction::Wait { millis: backoff(attempt as nat) as u64 },
    }
}

/// An attempt to restore the link failed: there is another, or it was the last.
pub open spec fn failed_again(attempt: u32) -> NextModel {
    if attempt >= RECONNECT_MAX_ATTEMPTS {
        over(seq![UiEvent::RemoteReconnectFailed])
    } else {
        announced((attempt + 1) as u32)
    }
}

impl Link {
    /// The number of attempts is within its bound.
    pub open spec fn wf(&self) -> bool {
        match self.phase {
            Phase::Dialing { attempt } => attempt <= RECONNECT_MAX_ATTEMPTS,
            Phase::Greeting { attempt } => attempt <= RECONNECT_MAX_ATTEMPTS,
            Phase::Deciding { attempt } => attempt <= RECONNECT_MAX_ATTEMPTS,
            Phase::Attaching { attempt } => attempt <= RECONNECT_MAX_ATTEMPTS,
            Phase::Waiting { attempt } => 1 <= attempt <= RECONNECT_MAX_ATTEMPTS,
            _ => true,
        }
    }

    /// Whether the user's cancelling ends the connection at once: while it is being
    /// restored, and while a peer's user decides about the first dial.
    pub open spec fn interruptible(&self) -> bool {
        match self.phase {
            Phase::Dialing { attempt } => attempt > 0,
            Phase::Greeting { attempt } => attempt > 0 || self.transport == Transport::Lan,
            Phase::Deciding { attempt } => attempt > 0 || self.transport == Transport::Lan,
            Phase::Attaching { attempt } => attempt > 0,
            Phase::Waiting { .. } => true,
            _ => false,
        }
    }

    /// The claim of an attempt: the first may displace another client where it was
    /// told to; one that restores a link claims the same window and never does.
    pub open spec fn claims(&self, attempt: u32) -> ClientMessage {
        if attempt == 0 {
            ClientMessage::Hello {
                window_id: self.window_id,
                clipboard_gating: true,
                takeover: self.takeover,
            }
        } else {
            ClientMessage::Hello {
                window_id: claim(self.assigned, self.window_id),
                clipboard_gating: true,
                takeover: false,
            }
        }
    }

    /// What a dial that failed leads to.
    pub open spec fn dial_failed(&self, attempt: u32) -> NextModel {
        if attempt > 0 {
            failed_again(attempt)
        } else if self.transport == Transport::Local {
            over(seq![UiEvent::ServerDisconnected])
        } else {
            over(seq![failure(self.transport).told()])
        }
    }

    /// What the end of a handshake leads to.
    pub open spec fn decided(&self, attempt: u32, v: Verdict) -> NextModel {
        if v.accepts() {
            NextModel {
                phase: Phase::Attaching { attempt },
                events: if attempt == 0 {
                    seq![v.told()]
                } else {
                    Seq::empty()
                },
                action: LinkAction::Send(self.claims(attempt)),
            }
        } else if attempt == 0 {
            over(seq![v.told()])
        } else {
            match v {
                Verdict::Remote(RemoteConnectOutcome::Refused(reason)) => over(
                    seq![UiEvent::RemoteSevered { reason }],
                ),
                Verdict::Lan(LanConnectOutcome::Refused(_)) => over(
                    seq![UiEvent::RemoteReconnectFailed],
                ),
                _ => failed_again(attempt),
            }
        }
    }

    /// What an event leads to.
    pub open spec fn next(&self, event: LinkEvent, cancelled: bool) -> NextModel {
        if cancelled && self.interruptible() {
            over(Seq::empty())
        } else {
            match (self.phase, event) {
                (Phase::Identity, LinkEvent::IdentityReady) => quietly(
                    Phase::Dialing { attempt: 0 },
                    LinkAction::Connect,
                ),
                (Phase::Identity, LinkEvent::IdentityFailed) => self.dial_failed(0),
                (Phase::Dialing { attempt }, LinkEvent::Connected) => if self.transport
                    == Transport::Local {
                    quietly(Phase::Attaching { attempt }, LinkAction::Send(self.claims(attempt)))
                } else {
                    quietly(Phase::Greeting { attempt }, LinkAction::Greet)
                },
                (Phase::Dialing { attempt }, LinkEvent::ConnectFailed) => self.dial_failed(attempt),
                (Phase::Greeting { attempt }, LinkEvent::Sent) => quietly(
                    Phase::Deciding { attempt },
                    LinkAction::Read,
                ),
                (Phase::Greeting { attempt }, LinkEvent::SendFailed) => self.decided(
                    attempt,
                    failure(self.transport),
                ),
                (Phase::Deciding { attempt }, LinkEvent::Received(reply)) => match verdict(
                    self.transport,
                    reply,
                ) {
                    Some(v) => self.decided(attempt, v),
                    None => NextModel {
                        phase: self.phase,
                        events: if attempt == 0 {
                            seq![UiEvent::LanAwaitingApproval]
                        } else {
                            Seq::empty()
                        },
                        action: LinkAction::Read,
                    },
                },
                (Phase::Deciding { attempt }, LinkEvent::ReadFailed) => self.decided(
                    attempt,
                    failure(self.transport),
                ),
                (Phase::Attaching { attempt }, LinkEvent::Sent) => NextModel {
                    phase: Phase::Live,
                    events: if attempt == 0 {
                        Seq::empty()
                    } else {
                        seq![UiEvent::RemoteReconnected]
                    },
                    action: LinkAction::Converse,
                },
                (Phase::Attaching { attempt }, LinkEvent::SendFailed) => if attempt == 0 {
                    over(seq![UiEvent::ServerDisconnected])
                } else {
                    failed_again(attempt)
                },
                (Phase::Live, LinkEvent::LinkLost) => if self.transport == Transport::Local {
                    over(seq![UiEvent::ServerDisconnected])
                } else if cancelled {
                    over(Seq::empty())
                } else {
                    announced(1)
                },
                (Phase::Waiting { attempt }, LinkEvent::Waited) => quietly(
                    Phase::Dialing { attempt },
                    LinkAction::Connect,
                ),
                _ => over(Seq::empty()),
            }
        }
    }

    /// A connection that begins, and what to do first.
    pub fn new(transport: Transport, window_id: Option<WindowId>, takeover: bool) -> (r: (
        Self,
        LinkAction,
    ))
        ensures
            r.0.wf(),
            r.0 == (Link {
                transport,
                window_id,
                takeover,
                assigned: window_id,
                phase: if transport == Transport::Lan {
                    Phase::Identity
                } else {
                    Phase::Dialing { attempt: 0 }
                },
            }),
            r.1 == if transport == Transport::Lan {
                LinkAction::FetchIdentity
            } else {
                LinkAction::Connect
            },
    {
        let (phase, action) = match transport {
            Transport::Lan => (Phase::Identity, LinkAction::FetchIdentity),
            _ => (Phase::Dialing { attempt: 0 }, LinkAction::Connect),
        };
        (Link { transport, window_id, takeover, assigned: window_id, phase }, action)
    }

    /// A message arrived: where a peer assigns a window, an attempt to restore the
    /// link claims that one.
    pub fn capture_assigned_window(&mut self, message: &ServerMessage)
        ensures
            *final(self) == (Link {
                assigned: match *message {
                    ServerMessage::Welcome { window_id, .. } => if old(self).transport
                        == Transport::Local {
                        old(self).assigned
                    } else {
                        Some(window_id)
                    },
                    _ => old(self).assigned,
                },
                ..*old(self)
            }),
    {
        match self.transport {
            Transport::Local => {},
            _ => {
                if let ServerMessage::Welcome { window_id, .. } = message {
                    self.assigned = Some(*window_id);
                }
            },
        }
    }

    fn claim_of(&self, attempt: u32) -> (r: ClientMessage)
        ensures
            r == self.claims(attempt),
    {
        if attempt == 0 {
            hello(self.window_id, self.takeover)
        } else {
            let window = match self.assigned {
                Some(window) => Some(window),
                None => self.window_id,
            };
            hello(window, false)
        }
    }

    fn go(&mut self, phase: Phase, events: Vec<UiEvent>, action: LinkAction) -> (r: LinkStep)
        ensures
            *final(self) == (Link { phase, ..*old(self) }),
            r.events == events,
            r.action == action,
    {
        self.phase = phase;
        LinkStep { events, action }
    }

    fn stop_with(&mut self, event: UiEvent) -> (r: LinkStep)
        ensures
            *final(self) == (Link { phase: Phase::Ended, ..*old(self) }),
            r.events@ == seq![event],
            r.action == LinkAction::Stop,
    {
        let mut events: Vec<UiEvent> = Vec::new();
        events.push(event);
        self.go(Phase::Ended, events, LinkAction::Stop)
    }

    fn announce(&mut self, attempt: u32) -> (r: LinkStep)
        ensures
            *final(self) == (Link { phase: announced(attempt).phase, ..*old(self) }),
            r.events@ == announced(attempt).events,
            r.action == announced(attempt).action,
    {
        let mut events: Vec<UiEvent> = Vec::new();
        events.push(UiEvent::RemoteReconnecting { attempt });
        let millis: u64 = backoff_delay(attempt);
        self.go(Phase::Waiting { attempt }, events, LinkAction::Wait { millis })
    }

    fn fail_again(&mut self, attempt: u32) -> (r: LinkStep)
        ensures
            *final(self) == (Link { phase: failed_again(attempt).phase, ..*old(self) }),
            r.events@ == failed_again(attempt).events,
            r.action == failed_again(attempt).action,
    {
        if attempt >= RECONNECT_MAX_ATTEMPTS {
            self.stop_with(UiEvent::RemoteReconnectFailed)
        } else {
            self.announce(attempt + 1)
        }
    }

    fn fail_dial(&mut self, attempt: u32) -> (r: LinkStep)
        ensures
            *final(self) == (Link { phase: old(self).dial_failed(attempt).phase, ..*old(self) }),
            r.events@ == old(self).dial_failed(attempt).events,
            r.action == old(self).dial_failed(attempt).action,
    {
        if attempt > 0 {
            return self.fail_again(attempt);
        }
        match self.transport {
            Transport::Local => self.stop_with(UiEvent::ServerDisconnected),
            _ => {
                let v = failure_of(self.transport);
                self.stop_with(v.event())
            },
        }
    }

    fn decide(&mut self, attempt: u32, v: Verdict) -> (r: LinkStep)
        ensures
            *final(self) == (Link { phase: old(self).decided(attempt, v).phase, ..*old(self) }),
            r.events@ == old(self).decided(attempt, v).events,
            r.action == old(self).decided(attempt, v).action,
    {
        if v.is_accepted() {
            let mut events: Vec<UiEvent> = Vec::new();
            if attempt == 0 {
                events.push(v.event());
            }
            let claim = self.claim_of(attempt);
            return self.go(Phase::Attaching { attempt }, events, LinkAction::Send(claim));
        }
        if attempt == 0 {
            return self.stop_with(v.event());
        }
        match v {
            Verdict::Remote(RemoteConnectOutcome::Refused(reason)) => {
                self.stop_with(UiEvent::RemoteSevered { reason })
            },
            Verdict::Lan(LanConnectOutcome::Refused(_)) => {
                self.stop_with(UiEvent::RemoteReconnectFailed)
            },
            _ => self.fail_again(attempt),
        }
    }

    /// Whether the user's cancelling ends the connection at once.
    pub fn is_interruptible(&self) -> (r: bool)
        ensures
            r == self.interruptible(),
    {
        let lan = match self.transport {
            Transport::Lan => true,
            _ => false,
        };
        match self.phase {
            Phase::Dialing { attempt } => attempt > 0,
            Phase::Greeting { attempt } => attempt > 0 || lan,
            Phase::Deciding { attempt } => attempt > 0 || lan,
            Phase::Attaching { attempt } => attempt > 0,
            Phase::Waiting { .. } => true,
            _ => false,
        }
    }

    /// An event happened; `cancelled` is the state of the user's switch.
    pub fn step(&mut self, event: LinkEvent, cancelled: bool) -> (r: LinkStep)
        ensures
            *final(self) == (Link { phase: old(self).next(event, cancelled).phase, ..*old(self) }),
            r.events@ == old(self).next(event, cancelled).events,
            r.action == old(self).next(event, cancelled).action,
    {
        if cancelled && self.is_interruptible() {
            return self.go(Phase::Ended, Vec::new(), LinkAction::Stop);
        }
        let local = match self.transport {
            Transport::Local => true,
            _ => false,
        };
        match (self.phase, event) {
            (Phase::Identity, LinkEvent::IdentityReady) => {
                self.go(Phase::Dialing { attempt: 0 }, Vec::new(), LinkAction::Connect)
            },
            (Phase::Identity, LinkEvent::IdentityFailed) => self.fail_dial(0),
            (Phase::Dialing { attempt }, LinkEvent::Connected) => {
                if local {
                    let claim = self.claim_of(attempt);
                    self.go(Phase::Attaching { attempt }, Vec::new(), LinkAction::Send(claim))
                } else {
                    self.go(Phase::Greeting { attempt }, Vec::new(), LinkAction::Greet)
                }
            },
            (Phase::Dialing { attempt }, LinkEvent::ConnectFailed) => self.fail_dial(attempt),
            (Phase::Greeting { attempt }, LinkEvent::Sent) => {
                self.go(Phase::Deciding { attempt }, Vec::new(), LinkAction::Read)
            },
            (Phase::Greeting { attempt }, LinkEvent::SendFailed) => {
                let v = failure_of(self.transport);
                self.decide(attempt, v)
            },
            (Phase::Deciding { attempt }, LinkEvent::Received(reply)) => {
                match verdict_of(self.transport, &reply) {
                    Some(v) => self.decide(attempt, v),
                    None => {
                        let mut events: Vec<UiEvent> = Vec::new();
                        if attempt == 0 {
                            events.push(UiEvent::LanAwaitingApproval);
                        }
                        self.go(Phase::Deciding { attempt }, events, LinkAction::Read)
                    },
                }
            },
            (Phase::Deciding { attempt }, LinkEvent::ReadFailed) => {
                let v = failure_of(self.transport);
                self.decide(attempt, v)
            },
            (Phase::Attaching { attempt }, LinkEvent::Sent) => {
                let mut events: Vec<UiEvent> = Vec::new();
                if attempt > 0 {
                    events.push(UiEvent::RemoteReconnected);
                }
                self.go(Phase::Live, events, LinkAction::Converse)
            },
            (Phase::Attaching { attempt }, LinkEvent::SendFailed) => {
                if attempt == 0 {
                    self.stop_with(UiEvent::ServerDisconnected)
                } else {
                    self.fail_again(attempt)
                }
            },
            (Phase::Live, LinkEvent::LinkLost) => {
                if local {
                    self.stop_with(UiEvent::ServerDisconnected)
                } else if cancelled {
                    self.go(Phase::Ended, Vec::new(), LinkAction::Stop)
                } else {
                    self.announce(1)
                }
            },
            (Phase::Waiting { attempt }, LinkEvent::Waited) => {
                self.go(Phase::Dialing { attempt }, Vec::new(), LinkAction::Connect)
            },
            _ => self.go(Phase::Ended, Vec::new(), LinkAction::Stop),
        }
    }
}

// ---- What holds of every connection ----

/// The connection after an event.
pub open spec fn after(link: Link, event: LinkEvent, cancelled: bool) -> Link {
    Link { phase: link.next(event, cancelled).phase, ..link }
}

/// The number of attempts never passes its bound, whatever happens.
pub proof fn attempts_are_bounded(link: Link, event: LinkEvent, cancelled: bool)
    requires
        link.wf(),
    ensures
        after(link, event, cancelled).wf(),
{
}

/// Whether the first dial is over and was not merely cancelled.
pub open spec fn restoring(phase: Phase) -> bool {
    match phase {
        Phase::Dialing { attempt } => attempt > 0,
        Phase::Greeting { attempt } => attempt > 0,
        Phase::Deciding { attempt } => attempt > 0,
        Phase::Attaching { attempt } => attempt > 0,
        Phase::Waiting { .. } => true,
        _ => false,
    }
}

/// Restoring a link never takes control away from anyone: only the first dial may,
/// and only where it was told to.
pub proof fn restoring_never_seizes_control(link: Link, event: LinkEvent, cancelled: bool)
    ensures
        link.next(event, cancelled).action matches LinkAction::Send(
            ClientMessage::Hello { takeover, .. },
        ) ==> takeover ==> link.takeover && !restoring(link.phase),
        restoring(link.phase) ==> (link.next(event, cancelled).action matches LinkAction::Send(
            ClientMessage::Hello { takeover, .. },
        ) ==> !takeover),
{
}

/// Restoring a link claims the window that the peer assigned.
pub proof fn restoring_claims_the_same_window(link: Link, event: LinkEvent, cancelled: bool)
    requires
        link.assigned is Some,
        restoring(link.phase),
    ensures
        link.next(event, cancelled).action matches LinkAction::Send(
            ClientMessage::Hello { window_id, .. },
        ) ==> window_id == link.assigned,
{
}

/// Cancelling wins: while a link is being restored, it ends the connection whatever
/// else happened, and the window hears nothing more.
pub proof fn cancelling_wins(link: Link, event: LinkEvent)
    requires
        restoring(link.phase),
    ensures
        link.next(event, true) == over(Seq::empty()),
{
}

/// A cancelled connection is never restored.
pub proof fn cancelled_links_are_not_restored(link: Link, event: LinkEvent)
    ensures
        !restoring(link.next(event, true).phase),
        !link.next(event, true).events.contains(UiEvent::RemoteReconnected),
{
}

/// Whether the window was told what the first dial came to.
pub open spec fn told(phase: Phase) -> bool {
    match phase {
        Phase::Identity => false,
        Phase::Dialing { attempt } => attempt > 0,
        Phase::Greeting { attempt } => attempt > 0,
        Phase::Deciding { attempt } => attempt > 0,
        _ => true,
    }
}

/// Whether an event tells what the first dial came to.
pub open spec fn tells(event: UiEvent) -> bool {
    event is RemoteDialOutcome || event is LanDialOutcome
}

/// The window is told once what a dial to a peer came to: nothing tells it again, and
/// the dial does not get past its handshake without telling it.
pub proof fn outcomes_are_told_once(link: Link, event: LinkEvent, cancelled: bool, i: int)
    requires
        link.wf(),
        link.transport != Transport::Local,
    ensures
        told(link.phase) ==> told(link.next(event, cancelled).phase),
        ({
            let events = link.next(event, cancelled).events;
            &&& 0 <= i < events.len() && tells(events[i]) ==> !told(link.phase) && told(
                link.next(event, cancelled).phase,
            ) && events.len() == 1
            &&& !told(link.phase) && link.next(event, cancelled).phase is Attaching
                ==> events.len() == 1 && tells(events[0])
        }),
{
}

/// Nothing but an end follows an end.
pub proof fn the_end_is_final(link: Link, event: LinkEvent, cancelled: bool)
    requires
        link.phase is Ended,
    ensures
        link.next(event, cancelled) == over(Seq::empty()),
{
}

/// A server on this machine is never dialled again by itself.
pub proof fn local_links_are_not_restored(link: Link, event: LinkEvent, cancelled: bool)
    requires
        link.transport == Transport::Local,
        !restoring(link.phase),
    ensures
        !restoring(link.next(event, cancelled).phase),
{
}

// ---- What restoring a link is for ----

/// Whether an answer to a greeting neither accepts, refuses nor asks for patience.
pub open spec fn useless_reply(transport: Transport, reply: ServerMessage) -> bool {
    match (transport, reply) {
        (Transport::Lan, ServerMessage::LanApprovalPending) => false,
        (Transport::Lan, ServerMessage::LanApprovalResult { approved, refusal }) => !approved
            && refusal is None,
        (Transport::Lan, _) => true,
        (_, ServerMessage::RemoteHandshakeReply { accepted, refusal, .. }) => !accepted
            && refusal is None,
        _ => true,
    }
}

/// Whether an event makes an attempt come to nothing: the dial, the greeting, the
/// answer or the claim fails.
pub open spec fn fails_attempt(link: Link, event: LinkEvent, attempt: u32) -> bool {
    ||| link.phase == (Phase::Dialing { attempt }) && event is ConnectFailed
    ||| link.phase == (Phase::Greeting { attempt }) && event is SendFailed
    ||| link.phase == (Phase::Deciding { attempt }) && event is ReadFailed
    ||| link.phase == (Phase::Deciding { attempt }) && (event matches LinkEvent::Received(reply)
        && useless_reply(link.transport, reply))
    ||| link.phase == (Phase::Attaching { attempt }) && event is SendFailed
}

/// The waits: half a second before the first attempt, then each twice the one before
/// it, and never more than fifteen seconds.
pub proof fn waits_double(attempt: nat)
    ensures
        backoff(0) == 500,
        backoff(1) == 500,
        attempt >= 1 ==> backoff(attempt + 1) == if 2 * backoff(attempt) <= 15_000 {
            2 * backoff(attempt)
        } else {
            15_000
        },
{
    lemma2_to64();
    if 1 <= attempt <= 16 {
        lemma_pow2_unfold(attempt);
        if attempt > 5 {
            lemma_pow2_strictly_increases(5, attempt);
        }
        if attempt > 6 {
            lemma_pow2_strictly_increases(5, (attempt - 1) as nat);
        }
    }
}

/// An attempt that comes to nothing is followed by the next one, which is announced
/// and waits its own time. Only after the eighth does the client give up, and then
/// it says so.
pub proof fn failed_attempts_are_followed_by_the_next(link: Link, event: LinkEvent, attempt: u32)
    requires
        1 <= attempt <= 8,
        fails_attempt(link, event, attempt),
    ensures
        ({
            let n = link.next(event, false);
            if attempt < 8 {
                &&& n.phase == (Phase::Waiting { attempt: (attempt + 1) as u32 })
                &&& n.events == seq![UiEvent::RemoteReconnecting { attempt: (attempt + 1) as u32 }]
                &&& n.action == (LinkAction::Wait { millis: backoff((attempt + 1) as nat) as u64 })
            } else {
                &&& n.phase == Phase::Ended
                &&& n.events == seq![UiEvent::RemoteReconnectFailed]
                &&& n.action == LinkAction::Stop
            }
        }),
{
    waits_grow(0, (attempt + 1) as nat);
}

/// The client gives up only after the eighth attempt came to nothing, or where a
/// peer on the local network refuses.
pub proof fn giving_up_comes_last(link: Link, event: LinkEvent, cancelled: bool)
    requires
        link.transport != Transport::Local,
        link.wf(),
        link.next(event, cancelled).events.contains(UiEvent::RemoteReconnectFailed),
    ensures
        !cancelled,
        fails_attempt(link, event, 8) || {
            &&& link.transport == Transport::Lan
            &&& restoring(link.phase) && link.phase is Deciding
            &&& event matches LinkEvent::Received(ServerMessage::LanApprovalResult {
                approved: false,
                refusal: Some(_),
            })
        },
{
}

/// Whether an answer accepts.
pub open spec fn accepting_reply(transport: Transport, reply: ServerMessage) -> bool {
    match (transport, reply) {
        (Transport::Lan, ServerMessage::LanApprovalResult { approved, .. }) => approved,
        (Transport::Lan, _) => false,
        (_, ServerMessage::RemoteHandshakeReply { accepted, .. }) => accepted,
        _ => false,
    }
}

/// A refusal ends a connection at once. Where it was being restored, a peer on the
/// tailnet severs it with its reason, and one on the local network ends the
/// attempts; where it was not, the window is told the reason as the dial's outcome.
pub proof fn refusals_end_a_connection(link: Link, reply: ServerMessage, attempt: u32)
    requires
        link.phase == (Phase::Deciding { attempt }),
    ensures
        link.next(LinkEvent::Received(reply), false).phase == Phase::Ended
            || accepting_reply(link.transport, reply) || useless_reply(link.transport, reply)
            || link.transport == Transport::Lan && reply is LanApprovalPending,
        link.transport == Transport::Tailnet ==> (reply matches
            ServerMessage::RemoteHandshakeReply { accepted: false, refusal: Some(reason), .. }
            ==> {
            let n = link.next(LinkEvent::Received(reply), false);
            &&& n.phase == Phase::Ended
            &&& n.action == LinkAction::Stop
            &&& n.events == if attempt > 0 {
                seq![UiEvent::RemoteSevered { reason }]
            } else {
                seq![UiEvent::RemoteDialOutcome { outcome: RemoteConnectOutcome::Refused(reason) }]
            }
        }),
        link.transport == Transport::Lan ==> (reply matches ServerMessage::LanApprovalResult {
            approved: false,
            refusal: Some(reason),
        } ==> {
            let n = link.next(LinkEvent::Received(reply), false);
            &&& n.phase == Phase::Ended
            &&& n.action == LinkAction::Stop
            &&& n.events == if attempt > 0 {
                seq![UiEvent::RemoteReconnectFailed]
            } else {
                seq![UiEvent::LanDialOutcome { outcome: LanConnectOutcome::Refused(reason) }]
            }
        }),
{
}

/// While a peer's user decides, the client reads on, and the window hears of it on
/// the first dial only.
pub proof fn approvals_are_waited_for(link: Link, attempt: u32)
    requires
        link.transport == Transport::Lan,
        link.phase == (Phase::Deciding { attempt }),
    ensures
        ({
            let n = link.next(LinkEvent::Received(ServerMessage::LanApprovalPending), false);
            &&& n.phase == link.phase
            &&& n.action == LinkAction::Read
            &&& n.events == if attempt == 0 {
                seq![UiEvent::LanAwaitingApproval]
            } else {
                Seq::empty()
            }
        }),
{
}

/// A first dial that comes to nothing is not tried again: the window is told that
/// the connection failed, in the words of its transport, and that is all.
pub proof fn first_dials_are_not_repeated(link: Link, event: LinkEvent)
    requires
        fails_attempt(link, event, 0) || link.phase == Phase::Identity && event is IdentityFailed,
    ensures
        ({
            let n = link.next(event, false);
            &&& n.phase == Phase::Ended
            &&& n.action == LinkAction::Stop
            &&& n.events == if link.phase is Attaching {
                seq![UiEvent::ServerDisconnected]
            } else {
                match link.transport {
                    Transport::Local => if link.phase is Dialing || link.phase is Identity {
                        seq![UiEvent::ServerDisconnected]
                    } else {
                        n.events
                    },
                    Transport::Tailnet => seq![
                        UiEvent::RemoteDialOutcome {
                            outcome: RemoteConnectOutcome::ConnectionFailure,
                        },
                    ],
                    Transport::Lan => seq![
                        UiEvent::LanDialOutcome { outcome: LanConnectOutcome::ConnectionFailure },
                    ],
                }
            }
        }),
{
}

/// An attempt that succeeds runs its course: wait, dial, greet, listen, claim, and
/// the messages flow again. The window is told at the start and at the end.
pub proof fn attempts_run_their_course(link: Link, reply: ServerMessage, attempt: u32)
    requires
        link.transport != Transport::Local,
        accepting_reply(link.transport, reply),
    ensures
        ({
            let at = |phase: Phase| Link { phase, ..link };
            let waiting = at(Phase::Waiting { attempt }).next(LinkEvent::Waited, false);
            let dialing = at(Phase::Dialing { attempt }).next(LinkEvent::Connected, false);
            let greeting = at(Phase::Greeting { attempt }).next(LinkEvent::Sent, false);
            let deciding = at(Phase::Deciding { attempt }).next(LinkEvent::Received(reply), false);
            let attaching = at(Phase::Attaching { attempt }).next(LinkEvent::Sent, false);
            &&& waiting.phase == (Phase::Dialing { attempt })
            &&& waiting.action == LinkAction::Connect
            &&& waiting.events.len() == 0
            &&& dialing.phase == (Phase::Greeting { attempt })
            &&& dialing.action == LinkAction::Greet
            &&& dialing.events.len() == 0
            &&& greeting.phase == (Phase::Deciding { attempt })
            &&& greeting.action == LinkAction::Read
            &&& greeting.events.len() == 0
            &&& deciding.phase == (Phase::Attaching { attempt })
            &&& deciding.action == LinkAction::Send(
                ClientMessage::Hello {
                    window_id: if attempt > 0 && link.assigned is Some {
                        link.assigned
                    } else {
                        link.window_id
                    },
                    clipboard_gating: true,
                    takeover: attempt == 0 && link.takeover,
                },
            )
            &&& deciding.events == if attempt > 0 {
                Seq::empty()
            } else if link.transport == Transport::Lan {
                seq![UiEvent::LanDialOutcome { outcome: LanConnectOutcome::Accepted }]
            } else {
                seq![UiEvent::RemoteDialOutcome { outcome: RemoteConnectOutcome::Accepted }]
            }
            &&& attaching.phase == Phase::Live
            &&& attaching.action == LinkAction::Converse
            &&& attaching.events == if attempt > 0 {
                seq![UiEvent::RemoteReconnected]
            } else {
                Seq::empty()
            }
        }),
{
}

/// A link to a peer that is lost is restored: the first attempt is announced and
/// waits half a second. A link to the server on this machine is not, and a window
/// that closes ends any link without a word.
pub proof fn lost_links_are_restored(link: Link)
    requires
        link.phase == Phase::Live,
    ensures
        ({
            let n = link.next(LinkEvent::LinkLost, false);
            if link.transport == Transport::Local {
                &&& n.phase == Phase::Ended
                &&& n.events == seq![UiEvent::ServerDisconnected]
                &&& n.action == LinkAction::Stop
            } else {
                &&& n.phase == (Phase::Waiting { attempt: 1 })
                &&& n.events == seq![UiEvent::RemoteReconnecting { attempt: 1 }]
                &&& n.action == (LinkAction::Wait { millis: 500 })
            }
        }),
        link.transport != Transport::Local ==> {
            let n = link.next(LinkEvent::LinkLost, true);
            n.phase == Phase::Ended && n.events.len() == 0 && n.action == LinkAction::Stop
        },
        forall|cancelled: bool|
            {
                let n = #[trigger] link.next(LinkEvent::CommandsClosed, cancelled);
                n.phase == Phase::Ended && n.events.len() == 0 && n.action == LinkAction::Stop
            },
{
    waits_double(1);
}

/// The server on this machine is neither greeted nor asked: once it is reached, the
/// window is claimed as it was asked for.
pub proof fn local_servers_are_claimed_at_once(link: Link)
    requires
        link.transport == Transport::Local,
        link.phase == (Phase::Dialing { attempt: 0 }),
    ensures
        ({
            let n = link.next(LinkEvent::Connected, false);
            &&& n.phase == (Phase::Attaching { attempt: 0 })
            &&& n.events.len() == 0
            &&& n.action == LinkAction::Send(
                ClientMessage::Hello {
                    window_id: link.window_id,
                    clipboard_gating: true,
                    takeover: link.takeover,
                },
            )
        }),
{
}

/// While a peer's user decides about the first dial, the user here may give up; on
/// the tailnet, and before the greeting, the first dial is seen through.
pub proof fn only_approvals_interrupt_a_first_dial(link: Link, event: LinkEvent)
    requires
        !restoring(link.phase),
        !(link.phase is Live),
    ensures
        link.transport == Transport::Lan && (link.phase is Greeting || link.phase is Deciding)
            ==> link.next(event, true).phase == Phase::Ended && link.next(event, true).events.len()
            == 0,
        link.transport != Transport::Lan || link.phase is Identity || link.phase is Dialing
            || link.phase is Attaching ==> link.next(event, true) == link.next(event, false),
{
}

// ---- Listing a peer's windows ----

/// How far the listing is.
#[derive(Debug, Clone, Copy, PartialEq, Eq, Structural)]
pub enum ProbePhase {
    Identity,
    Dialing,
    Greeting,
    Deciding,
    /// The request is being sent.
    Asking,
    /// The list is awaited.
    Listing,
    Ended,
}

/// A dial to a peer that only lists its windows and claims none.
#[derive(Debug)]
pub struct WindowProbe {
    pub transport: Transport,
    pub host: String,
    pub port: u16,
    pub phase: ProbePhase,
}

/// What a step of a listing amounts to, and how far it is then.
#[verifier::ext_equal]
pub struct ProbeModel {
    pub phase: ProbePhase,
    pub events: Seq<UiEvent>,
    pub action: LinkAction,
}

/// The listing is over, and the window is told so.
pub open spec fn listed(event: UiEvent) -> ProbeModel {
    ProbeModel { phase: ProbePhase::Ended, events: seq![event], action: LinkAction::Stop }
}

/// The listing goes on, and there is nothing to tell.
pub open spec fn lists_on(phase: ProbePhase, action: LinkAction) -> ProbeModel {
    ProbeModel { phase, events: Seq::empty(), action }
}

impl WindowProbe {
    /// What an event leads to.
    pub open spec fn next(&self, event: LinkEvent) -> ProbeModel {
        let failed = listed(failure(self.transport).told());
        match (self.phase, event) {
            (ProbePhase::Identity, LinkEvent::IdentityReady) => lists_on(
                ProbePhase::Dialing,
                LinkAction::Connect,
            ),
            (ProbePhase::Identity, LinkEvent::IdentityFailed) => failed,
            (ProbePhase::Dialing, LinkEvent::Connected) => lists_on(
                ProbePhase::Greeting,
                LinkAction::Greet,
            ),
            (ProbePhase::Dialing, LinkEvent::ConnectFailed) => failed,
            (ProbePhase::Greeting, LinkEvent::Sent) => lists_on(
                ProbePhase::Deciding,
                LinkAction::Read,
            ),
            (ProbePhase::Greeting, LinkEvent::SendFailed) => failed,
            (ProbePhase::Deciding, LinkEvent::Received(reply)) => match verdict(
                self.transport,
                reply,
            ) {
                Some(v) => if v.accepts() {
                    lists_on(ProbePhase::Asking, LinkAction::Send(ClientMessage::ListWindows))
                } else {
                    listed(v.told())
                },
                None => ProbeModel {
                    phase: ProbePhase::Deciding,
                    events: seq![UiEvent::LanAwaitingApproval],
                    action: LinkAction::Read,
                },
            },
            (ProbePhase::Deciding, LinkEvent::ReadFailed) => failed,
            (ProbePhase::Asking, LinkEvent::Sent) => lists_on(
                ProbePhase::Listing,
                LinkAction::Read,
            ),
            (ProbePhase::Asking, LinkEvent::SendFailed) => failed,
            (ProbePhase::Listing, LinkEvent::Received(message)) => match message {
                ServerMessage::WindowList { windows } => listed(
                    UiEvent::RemoteWindowList { host: self.host, port: self.port, windows },
                ),
                _ => lists_on(ProbePhase::Listing, LinkAction::Read),
            },
            (ProbePhase::Listing, LinkEvent::ReadFailed) => failed,
            _ => lists_on(ProbePhase::Ended, LinkAction::Stop),
        }
    }

    /// A listing that begins, and what to do first.
    pub fn new(transport: Transport, host: String, port: u16) -> (r: (Self, LinkAction))
        ensures
            r.0 == (WindowProbe {
                transport,
                host,
                port,
                phase: if transport == Transport::Lan {
                    ProbePhase::Identity
                } else {
                    ProbePhase::Dialing
                },
            }),
            r.1 == if transport == Transport::Lan {
                LinkAction::FetchIdentity
            } else {
                LinkAction::Connect
            },
    {
        let (phase, action) = match transport {
            Transport::Lan => (ProbePhase::Identity, LinkAction::FetchIdentity),
            _ => (ProbePhase::Dialing, LinkAction::Connect),
        };
        (WindowProbe { transport, host, port, phase }, action)
    }

    fn go(&mut self, phase: ProbePhase, action: LinkAction) -> (r: LinkStep)
        ensures
            *final(self) == (WindowProbe { phase, ..*old(self) }),
            r.events@ == Seq::<UiEvent>::empty(),
            r.action == action,
    {
        self.phase = phase;
        LinkStep { events: Vec::new(), action }
    }

    fn stop_with(&mut self, event: UiEvent) -> (r: LinkStep)
        ensures
            *final(self) == (WindowProbe { phase: ProbePhase::Ended, ..*old(self) }),
            r.events@ == seq![event],
            r.action == LinkAction::Stop,
    {
        self.phase = ProbePhase::Ended;
        let mut events: Vec<UiEvent> = Vec::new();
        events.push(event);
        LinkStep { events, action: LinkAction::Stop }
    }

    fn fail(&mut self) -> (r: LinkStep)
        ensures
            *final(self) == (WindowProbe { phase: ProbePhase::Ended, ..*old(self) }),
            r.events@ == seq![failure(old(self).transport).told()],
            r.action == LinkAction::Stop,
    {
        let v = failure_of(self.transport);
        self.stop_with(v.event())
    }

    /// An event happened.
    pub fn step(&mut self, event: LinkEvent) -> (r: LinkStep)
        ensures
            *final(self) == (WindowProbe { phase: old(self).next(event).phase, ..*old(self) }),
            r.events@ == old(self).next(event).events,
            r.action == old(self).next(event).action,
    {
        match (self.phase, event) {
            (ProbePhase::Identity, LinkEvent::IdentityReady) => {
                self.go(ProbePhase::Dialing, LinkAction::Connect)
            },
            (ProbePhase::Identity, LinkEvent::IdentityFailed) => self.fail(),
            (ProbePhase::Dialing, LinkEvent::Connected) => {
                self.go(ProbePhase::Greeting, LinkAction::Greet)
            },
            (ProbePhase::Dialing, LinkEvent::ConnectFailed) => self.fail(),
            (ProbePhase::Greeting, LinkEvent::Sent) => {
                self.go(ProbePhase::Deciding, LinkAction::Read)
            },
            (ProbePhase::Greeting, LinkEvent::SendFailed) => self.fail(),
            (ProbePhase::Deciding, LinkEvent::Received(reply)) => {
                match verdict_of(self.transport, &reply) {
                    Some(v) => {
                        if v.is_accepted() {
                            self.go(
                                ProbePhase::Asking,
                                LinkAction::Send(ClientMessage::ListWindows),
                            )
                        } else {
                            self.stop_with(v.event())
                        }
                    },
                    None => {
                        let mut events: Vec<UiEvent> = Vec::new();
                        events.push(UiEvent::LanAwaitingApproval);
                        LinkStep { events, action: LinkAction::Read }
                    },
                }
            },
            (ProbePhase::Deciding, LinkEvent::ReadFailed) => self.fail(),
            (ProbePhase::Asking, LinkEvent::Sent) => {
                self.go(ProbePhase::Listing, LinkAction::Read)
            },
            (ProbePhase::Asking, LinkEvent::SendFailed) => self.fail(),
            (ProbePhase::Listing, LinkEvent::Received(message)) => {
                match message {
                    ServerMessage::WindowList { windows } => {
                        let host = self.host.clone();
                        let port: u16 = self.port;
                        self.stop_with(UiEvent::RemoteWindowList { host, port, windows })
                    },
                    _ => self.go(ProbePhase::Listing, LinkAction::Read),
                }
            },
            (ProbePhase::Listing, LinkEvent::ReadFailed) => self.fail(),
            _ => self.go(ProbePhase::Ended, LinkAction::Stop),
        }
    }
}

/// A listing never claims a window.
pub proof fn listing_claims_nothing(probe: WindowProbe, event: LinkEvent)
    ensures
        probe.next(event).action matches LinkAction::Send(message) ==> message
            == ClientMessage::ListWindows,
{
}

/// Whether an event makes a listing come to nothing.
pub open spec fn fails_listing(probe: WindowProbe, event: LinkEvent) -> bool {
    ||| probe.phase == ProbePhase::Identity && event is IdentityFailed
    ||| probe.phase == ProbePhase::Dialing && event is ConnectFailed
    ||| (probe.phase == ProbePhase::Greeting || probe.phase == ProbePhase::Asking)
        && event is SendFailed
    ||| (probe.phase == ProbePhase::Deciding || probe.phase == ProbePhase::Listing)
        && event is ReadFailed
    ||| probe.phase == ProbePhase::Deciding && (event matches LinkEvent::Received(reply)
        && useless_reply(probe.transport, reply))
}

/// A listing that comes to nothing ends, and the window is told that the connection
/// failed, in the words of its transport.
pub proof fn failed_listings_are_told(probe: WindowProbe, event: LinkEvent)
    requires
        probe.transport != Transport::Local,
        fails_listing(probe, event),
    ensures
        probe.next(event).phase == ProbePhase::Ended,
        probe.next(event).action == LinkAction::Stop,
        probe.next(event).events == if probe.transport == Transport::Lan {
            seq![UiEvent::LanDialOutcome { outcome: LanConnectOutcome::ConnectionFailure }]
        } else {
            seq![UiEvent::RemoteDialOutcome { outcome: RemoteConnectOutcome::ConnectionFailure }]
        },
{
}

/// A listing that succeeds runs its course: dial, greet, listen, ask and listen again
/// until the list comes. The window is told nothing but the list, under the address
/// that was dialled.
pub proof fn listings_run_their_course(
    probe: WindowProbe,
    reply: ServerMessage,
    message: ServerMessage,
)
    requires
        accepting_reply(probe.transport, reply),
    ensures
        ({
            let at = |phase: ProbePhase| WindowProbe { phase, ..probe };
            let identity = at(ProbePhase::Identity).next(LinkEvent::IdentityReady);
            let dialing = at(ProbePhase::Dialing).next(LinkEvent::Connected);
            let greeting = at(ProbePhase::Greeting).next(LinkEvent::Sent);
            let deciding = at(ProbePhase::Deciding).next(LinkEvent::Received(reply));
            let asking = at(ProbePhase::Asking).next(LinkEvent::Sent);
            let listing = at(ProbePhase::Listing).next(LinkEvent::Received(message));
            &&& identity.phase == ProbePhase::Dialing && identity.action == LinkAction::Connect
            &&& dialing.phase == ProbePhase::Greeting && dialing.action == LinkAction::Greet
            &&& greeting.phase == ProbePhase::Deciding && greeting.action == LinkAction::Read
            &&& deciding.phase == ProbePhase::Asking && deciding.action == LinkAction::Send(
                ClientMessage::ListWindows,
            )
            &&& asking.phase == ProbePhase::Listing && asking.action == LinkAction::Read
            &&& identity.events.len() == 0 && dialing.events.len() == 0 && greeting.events.len()
                == 0 && deciding.events.len() == 0 && asking.events.len() == 0
            &&& match message {
                ServerMessage::WindowList { windows } => {
                    &&& listing.phase == ProbePhase::Ended && listing.action == LinkAction::Stop
                    &&& listing.events == seq![
                        UiEvent::RemoteWindowList { host: probe.host, port: probe.port, windows },
                    ]
                },
                _ => {
                    &&& listing.phase == ProbePhase::Listing && listing.action == LinkAction::Read
                    &&& listing.events.len() == 0
                },
            }
        }),
{
}

/// A refused listing ends with the peer's reason, and one that is to be approved
/// listens on.
pub proof fn refused_listings_tell_the_reason(probe: WindowProbe, reply: ServerMessage)
    requires
        probe.phase == ProbePhase::Deciding,
    ensures
        probe.transport == Transport::Tailnet ==> (reply matches
            ServerMessage::RemoteHandshakeReply { accepted: false, refusal: Some(reason), .. }
            ==> {
            let n = probe.next(LinkEvent::Received(reply));
            &&& n.phase == ProbePhase::Ended && n.action == LinkAction::Stop
            &&& n.events == seq![
                UiEvent::RemoteDialOutcome { outcome: RemoteConnectOutcome::Refused(reason) },
            ]
        }),
        probe.transport == Transport::Lan ==> (reply matches ServerMessage::LanApprovalResult {
            approved: false,
            refusal: Some(reason),
        } ==> {
            let n = probe.next(LinkEvent::Received(reply));
            &&& n.phase == ProbePhase::Ended && n.action == LinkAction::Stop
            &&& n.events == seq![
                UiEvent::LanDialOutcome { outcome: LanConnectOutcome::Refused(reason) },
            ]
        }),
        probe.transport == Transport::Lan ==> {
            let n = probe.next(LinkEvent::Received(ServerMessage::LanApprovalPending));
            &&& n.phase == ProbePhase::Deciding && n.action == LinkAction::Read
            &&& n.events == seq![UiEvent::LanAwaitingApproval]
        },
{
}

/// A wait sleeps in naps of a hundred and fifty milliseconds at most, never beyond its end,
/// and no more once it is over or cancelled.
pub proof fn waits_are_slept_in_naps(
    elapsed_ms: u64,
    delay_ms: u64,
    cancelled: bool,
    r: Option<u64>,
)
    requires
        call_ensures(nap, (elapsed_ms, delay_ms, cancelled), r),
    ensures
        r is None <==> cancelled || elapsed_ms >= delay_ms,
        r matches Some(millis) ==> 0 < millis <= 150 && elapsed_ms + millis <= delay_ms && (millis
            < 150 ==> elapsed_ms + millis == delay_ms),
{
}

/// A connection begins with the identity on the local network and with the dial anywhere
/// else, claims the window that was asked for, and is not being restored.
pub proof fn connections_begin(
    transport: Transport,
    window_id: Option<WindowId>,
    takeover: bool,
    r: (Link, LinkAction),
)
    requires
        call_ensures(Link::new, (transport, window_id, takeover), r),
    ensures
        r.0.transport == transport,
        r.0.window_id == window_id,
        r.0.assigned == window_id,
        r.0.takeover == takeover,
        !restoring(r.0.phase) && !told(r.0.phase),
        transport == Transport::Lan ==> r.0.phase == Phase::Identity && r.1
            == LinkAction::FetchIdentity,
        transport != Transport::Lan ==> r.0.phase == (Phase::Dialing { attempt: 0 }) && r.1
            == LinkAction::Connect,
{
}

/// A step goes where the laws say, tells the window what they say, and changes nothing but
/// how far the connection is.
pub proof fn steps_go_where_the_laws_say(event: LinkEvent, cancelled: bool)
    ensures
        forall|link: &mut Link, r: LinkStep|
            #[trigger] call_ensures(Link::step, (link, event, cancelled), r) ==> {
                &&& *final(link) == (Link { phase: link.next(event, cancelled).phase, ..*link })
                &&& r.events@ == link.next(event, cancelled).events
                &&& r.action == link.next(event, cancelled).action
            },
        forall|probe: &mut WindowProbe, r: LinkStep|
            #[trigger] call_ensures(WindowProbe::step, (probe, event), r) ==> {
                &&& *final(probe) == (WindowProbe { phase: probe.next(event).phase, ..*probe })
                &&& r.events@ == probe.next(event).events
                &&& r.action == probe.next(event).action
            },
{
}

/// The window that a peer assigns is the one that is claimed again; no other message, and
/// none of the server on this machine, changes it.
pub proof fn assigned_windows_are_remembered(message: &ServerMessage)
    ensures
        forall|link: &mut Link, r: ()|
            #[trigger] call_ensures(Link::capture_assigned_window, (link, message), r) ==> {
                &&& *message matches ServerMessage::Welcome { window_id, .. }
                    ==> link.transport != Transport::Local ==> final(link).assigned == Some(
                    window_id,
                )
                &&& !(*message is Welcome) || link.transport == Transport::Local
                    ==> final(link).assigned == link.assigned
                &&& final(link).phase == link.phase
                &&& final(link).window_id == link.window_id
                &&& final(link).takeover == link.takeover
            },
{
}

/// The functions read answers as the laws say, and a peer on the local network is told the
/// version and the name.
pub proof fn answers_are_read(
    reply: &ServerMessage,
    remote: RemoteConnectOutcome,
    lan: Option<LanConnectOutcome>,
    version: u32,
    name: String,
    preamble: ClientMessage,
)
    requires
        call_ensures(remote_handshake, (reply,), remote),
        call_ensures(lan_handshake, (reply,), lan),
        call_ensures(lan_preamble, (version, name), preamble),
    ensures
        remote == remote_verdict(*reply),
        lan == lan_verdict(*reply),
        preamble matches ClientMessage::LanHello { device_name, remote_protocol_version }
            && device_name == name && remote_protocol_version == version,
{
}

} // verus!
