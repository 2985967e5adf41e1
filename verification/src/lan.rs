//! What the window knows of the local network: a device that asks to be approved,
//! the peers that were found, this machine's own standing, and how far its own dial
//! to a peer is.

use vstd::prelude::*;

use crate::dialog::LanApprovalDialog;
pub use crate::ipc_client::LanConnectOutcome;
pub use crate::protocol::LanEnvSummary;
use crate::protocol::{LanPeerInfo, LanRefusal};
use crate::text::push_text;

verus! {

/// How far a dial to a peer on the local network is.
#[derive(Debug, Clone, Copy, PartialEq, Eq, Structural)]
pub enum LanDialStatus {
    /// There is none.
    Idle,
    /// The peer's user decides.
    AwaitingApproval,
    /// It is over.
    Settled(LanConnectOutcome),
}

/// What the window knows of the local network.
#[derive(Debug)]
pub struct LanChrome {
    /// The device that asks to be approved, until the window takes it over.
    pub pending_approval: Option<LanApprovalDialog>,
    /// The peers, in the server's order.
    pub peers: Vec<LanPeerInfo>,
    /// This machine's own standing, once it is known.
    pub env: Option<LanEnvSummary>,
    /// How far this client's own dial is.
    pub dial: LanDialStatus,
}

/// How many peers are there now.
pub open spec fn online_peers(peers: Seq<LanPeerInfo>) -> nat
    decreases peers.len(),
{
    if peers.len() == 0 {
        0
    } else {
        online_peers(peers.drop_last()) + (if peers.last().online {
            1nat
        } else {
            0
        })
    }
}

/// Why a peer refused, in words.
pub open spec fn refusal_words(reason: LanRefusal) -> Seq<char> {
    match reason {
        LanRefusal::Declined => "the owner declined this device"@,
        LanRefusal::NotTrustedNetwork => "the peer is not on a trusted network"@,
        LanRefusal::Disabled => "local network access is off on the peer"@,
        LanRefusal::IncompatibleVersion => "the peer runs an incompatible version"@,
        LanRefusal::Busy => "the peer's connection limit was reached"@,
    }
}

/// The line for a dial that is over. One that was accepted needs none.
pub open spec fn outcome_words(outcome: LanConnectOutcome) -> Option<Seq<char>> {
    match outcome {
        LanConnectOutcome::Accepted => None,
        LanConnectOutcome::ConnectionFailure => Some("Local network connection failed"@),
        LanConnectOutcome::Refused(reason) => Some(
            "Local network connection refused: "@ + refusal_words(reason),
        ),
    }
}

/// The line for this machine's own standing: there is one only where its network
/// cannot be recognised.
pub open spec fn standing_words(env: Option<LanEnvSummary>) -> Option<Seq<char>> {
    match env {
        Some(env) => if env.current_network_addable {
            None
        } else {
            Some(
                "Local network dormant: "@ + (match env.current_network_reason {
                    Some(reason) => reason@,
                    None => "network not identifiable"@,
                }),
            )
        },
        None => None,
    }
}

/// What a line amounts to.
pub open spec fn line_view(line: Option<String>) -> Option<Seq<char>> {
    match line {
        Some(text) => Some(text@),
        None => None,
    }
}

/// Why a peer refused, in words.
fn refusal_text(reason: LanRefusal) -> (r: &'static str)
    ensures
        r@ == refusal_words(reason),
{
    match reason {
        LanRefusal::Declined => "the owner declined this device",
        LanRefusal::NotTrustedNetwork => "the peer is not on a trusted network",
        LanRefusal::Disabled => "local network access is off on the peer",
        LanRefusal::IncompatibleVersion => "the peer runs an incompatible version",
        LanRefusal::Busy => "the peer's connection limit was reached",
    }
}

/// The line for a dial that is over.
fn dial_outcome_line(outcome: LanConnectOutcome) -> (r: Option<String>)
    ensures
        line_view(r) == outcome_words(outcome),
{
    match outcome {
        LanConnectOutcome::Accepted => None,
        LanConnectOutcome::ConnectionFailure => {
            Some("Local network connection failed".to_owned())
        },
        LanConnectOutcome::Refused(reason) => {
            let mut line = "Local network connection refused: ".to_owned();
            push_text(&mut line, refusal_text(reason));
            Some(line)
        },
    }
}

impl LanChrome {
    /// Nothing is known yet.
    pub fn new() -> (r: Self)
        ensures
            r.pending_approval is None,
            r.peers@ == Seq::<LanPeerInfo>::empty(),
            r.env is None,
            r.dial == LanDialStatus::Idle,
    {
        LanChrome {
            pending_approval: None,
            peers: Vec::new(),
            env: None,
            dial: LanDialStatus::Idle,
        }
    }

    /// A device asks to be approved. It takes the place of one that the window did
    /// not take over yet.
    pub fn park_approval(&mut self, dialog: LanApprovalDialog)
        ensures
            *final(self) == (LanChrome { pending_approval: Some(dialog), ..*old(self) }),
    {
        self.pending_approval = Some(dialog);
    }

    /// The window takes the prompt over, where there is one.
    pub fn take_approval(&mut self) -> (r: Option<LanApprovalDialog>)
        ensures
            r == old(self).pending_approval,
            *final(self) == (LanChrome { pending_approval: None, ..*old(self) }),
    {
        let mut taken: Option<LanApprovalDialog> = None;
        core::mem::swap(&mut taken, &mut self.pending_approval);
        taken
    }

    /// Whether a prompt waits to be taken over.
    pub fn approval_pending(&self) -> (r: bool)
        ensures
            r == (self.pending_approval is Some),
    {
        self.pending_approval.is_some()
    }

    /// The server listed the peers.
    pub fn set_peers(&mut self, peers: Vec<LanPeerInfo>)
        ensures
            *final(self) == (LanChrome { peers, ..*old(self) }),
    {
        self.peers = peers;
    }

    /// The peers, in the server's order.
    pub fn peers(&self) -> (r: &[LanPeerInfo])
        ensures
            r@ == self.peers@,
    {
        self.peers.as_slice()
    }

    /// How many peers are there now.
    pub fn online_peer_count(&self) -> (r: usize)
        ensures
            r == online_peers(self.peers@),
    {
        let mut count: usize = 0;
        let mut i: usize = 0;
        proof {
            assert(self.peers@.take(0) =~= Seq::<LanPeerInfo>::empty());
        }
        while i < self.peers.len()
            invariant
                i <= self.peers@.len(),
                count <= i,
                count == online_peers(self.peers@.take(i as int)),
            decreases self.peers@.len() - i,
        {
            proof {
                assert(self.peers@.take(i + 1).drop_last() =~= self.peers@.take(i as int));
            }
            if self.peers[i].online {
                count += 1;
            }
            i += 1;
        }
        proof {
            assert(self.peers@.take(self.peers@.len() as int) =~= self.peers@);
        }
        count
    }

    /// The server told this machine's own standing.
    pub fn set_env(&mut self, env: LanEnvSummary)
        ensures
            *final(self) == (LanChrome { env: Some(env), ..*old(self) }),
    {
        self.env = Some(env);
    }

    /// This machine's own standing, once it is known.
    pub fn env(&self) -> (r: Option<&LanEnvSummary>)
        ensures
            r == match self.env {
                Some(env) => Some(&env),
                None => None,
            },
    {
        match &self.env {
            Some(env) => Some(env),
            None => None,
        }
    }

    /// The peer's user decides about this client's dial.
    pub fn awaiting_approval(&mut self)
        ensures
            *final(self) == (LanChrome { dial: LanDialStatus::AwaitingApproval, ..*old(self) }),
    {
        self.dial = LanDialStatus::AwaitingApproval;
    }

    /// This client's dial is over.
    pub fn settle_dial(&mut self, outcome: LanConnectOutcome)
        ensures
            *final(self) == (LanChrome { dial: LanDialStatus::Settled(outcome), ..*old(self) }),
    {
        self.dial = LanDialStatus::Settled(outcome);
    }

    /// How far this client's own dial is.
    pub fn dial(&self) -> (r: LanDialStatus)
        ensures
            r == self.dial,
    {
        self.dial
    }

    /// What the status bar says.
    pub open spec fn status(&self) -> Option<Seq<char>> {
        match self.dial {
            LanDialStatus::AwaitingApproval => Some("Waiting for approval on the peer…"@),
            LanDialStatus::Settled(outcome) => outcome_words(outcome),
            LanDialStatus::Idle => standing_words(self.env),
        }
    }

    /// What the status bar says, where there is something that the user can act on. A
    /// dial goes before this machine's own standing.
    pub fn status_line(&self) -> (r: Option<String>)
        ensures
            line_view(r) == self.status(),
    {
        match self.dial {
            LanDialStatus::AwaitingApproval => {
                Some("Waiting for approval on the peer…".to_owned())
            },
            LanDialStatus::Settled(outcome) => dial_outcome_line(outcome),
            LanDialStatus::Idle => match &self.env {
                Some(env) => {
                    if env.current_network_addable {
                        None
                    } else {
                        let mut line = "Local network dormant: ".to_owned();
                        match &env.current_network_reason {
                            Some(reason) => {
                                push_text(&mut line, reason.as_str());
                            },
                            None => {
                                push_text(&mut line, "network not identifiable");
                            },
                        }
                        Some(line)
                    }
                },
                None => None,
            },
        }
    }
}

/// Each refusal is told apart from the others, and from a dial that failed.
pub proof fn refusals_are_told_apart(a: LanRefusal, b: LanRefusal)
    ensures
        outcome_words(LanConnectOutcome::Refused(a)) == outcome_words(
            LanConnectOutcome::Refused(b),
        ) ==> a == b,
        outcome_words(LanConnectOutcome::Refused(a)) != outcome_words(
            LanConnectOutcome::ConnectionFailure,
        ),
{
    reveal_strlit("the owner declined this device");
    reveal_strlit("the peer is not on a trusted network");
    reveal_strlit("local network access is off on the peer");
    reveal_strlit("the peer runs an incompatible version");
    reveal_strlit("the peer's connection limit was reached");
    reveal_strlit("Local network connection refused: ");
    reveal_strlit("Local network connection failed");
    let front = "Local network connection refused: "@;
    let x = refusal_words(a);
    let y = refusal_words(b);
    if front + x == front + y {
        assert((front + x).skip(front.len() as int) =~= x);
        assert((front + y).skip(front.len() as int) =~= y);
        assert(x == y);
        assert(x.len() == y.len() && x[0] == y[0]);
    }
    assert((front + x).len() != "Local network connection failed"@.len());
}

/// A dial that is under way, refused or failed is what the status bar tells of,
/// whatever else is known.
pub proof fn dials_outrank_the_standing(a: LanChrome, b: LanChrome)
    requires
        a.dial == b.dial,
        a.dial != LanDialStatus::Idle,
    ensures
        a.status() == b.status(),
{
}

/// What the status line says: of a dial its state, and without one why the network is
/// dormant, where it is.
pub proof fn the_status_line(chrome: LanChrome)
    ensures
        chrome.dial == LanDialStatus::AwaitingApproval ==> chrome.status() == Some(
            "Waiting for approval on the peer…"@,
        ),
        chrome.dial == LanDialStatus::Settled(LanConnectOutcome::Accepted) ==> chrome.status()
            is None,
        chrome.dial == LanDialStatus::Settled(LanConnectOutcome::ConnectionFailure)
            ==> chrome.status() == Some("Local network connection failed"@),
        chrome.dial == LanDialStatus::Idle && chrome.env is None ==> chrome.status() is None,
        chrome.dial == LanDialStatus::Idle && (chrome.env matches Some(env)
            && env.current_network_addable) ==> chrome.status() is None,
        chrome.dial == LanDialStatus::Idle ==> (chrome.env matches Some(env)
            ==> !env.current_network_addable ==> chrome.status() == Some(
            "Local network dormant: "@ + (if env.current_network_reason is Some {
                env.current_network_reason->0@
            } else {
                "network not identifiable"@
            }),
        )),
{
}

/// The words of a refusal say its reason.
pub proof fn refusals_say_their_reason(reason: LanRefusal)
    ensures
        outcome_words(LanConnectOutcome::Refused(reason)) == Some(
            "Local network connection refused: "@ + match reason {
                LanRefusal::Declined => "the owner declined this device"@,
                LanRefusal::NotTrustedNetwork => "the peer is not on a trusted network"@,
                LanRefusal::Disabled => "local network access is off on the peer"@,
                LanRefusal::IncompatibleVersion => "the peer runs an incompatible version"@,
                LanRefusal::Busy => "the peer's connection limit was reached"@,
            },
        ),
{
}

/// A peer counts where it is online.
pub proof fn online_peers_count(peers: Seq<LanPeerInfo>, peer: LanPeerInfo)
    ensures
        online_peers(Seq::empty()) == 0,
        online_peers(peers.push(peer)) == online_peers(peers) + (if peer.online {
            1int
        } else {
            0
        }),
{
    assert(peers.push(peer).drop_last() =~= peers);
}

} // verus!
