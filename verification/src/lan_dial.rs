//! Dialling a peer on the local network: this device's identity, which comes from
//! the server on this machine, and the peer's decision about this device.

use vstd::prelude::*;

use crate::dial::{lan_dial_target, named_target, target_view, LAN_DEFAULT_PORT};
use crate::ipc_client::LanConnectOutcome;
use crate::protocol::ServerMessage;
use crate::remote_link::{lan_handshake, lan_verdict};
use crate::text::{decimal, push_decimal, push_text};

verus! {

/// Why a dial did not come about, in words.
#[derive(Debug, PartialEq, Eq)]
pub struct LanDialError {
    pub text: String,
}

impl LanDialError {
    /// The words.
    pub fn message(&self) -> (r: &str)
        ensures
            r@ == self.text@,
    {
        self.text.as_str()
    }

    /// The certificate or key of this device cannot be used.
    pub fn unusable_identity(error: &str) -> (r: Self)
        ensures
            r.text@ == "LAN device identity is unusable: "@ + error@,
    {
        let mut text = "LAN device identity is unusable: ".to_owned();
        push_text(&mut text, error);
        LanDialError { text }
    }

    /// The identity of this device could not be read.
    pub fn from_identity_error(error: &str) -> (r: Self)
        ensures
            r.text@ == "LAN device identity error: "@ + error@,
    {
        let mut text = "LAN device identity error: ".to_owned();
        push_text(&mut text, error);
        LanDialError { text }
    }
}

/// The peer that `SCRIBE_LAN_DIAL` names.
pub fn target_from_env(raw: Option<&str>) -> (r: Option<(String, u16)>)
    ensures
        target_view(r) == named_target(raw, LAN_DEFAULT_PORT),
{
    lan_dial_target(raw)
}

/// The name under which this device is shown to the peer's user: the machine's, or a
/// stand-in where it has none.
pub fn local_device_name(hostname: Option<String>) -> (r: String)
    ensures
        r@ == match hostname {
            Some(name) => name@,
            None => "localhost"@,
        },
{
    match hostname {
        Some(name) => name,
        None => "localhost".to_owned(),
    }
}

/// The address of a peer.
#[derive(Debug)]
pub struct LanDialer {
    pub host: String,
    pub port: u16,
}

impl LanDialer {
    /// The address in words.
    pub open spec fn place(&self) -> Seq<char> {
        self.host@ + ":"@ + decimal(self.port as nat)
    }

    /// The peer that is dialled.
    pub fn target(&self) -> (r: (&str, u16))
        ensures
            r.0@ == self.host@,
            r.1 == self.port,
    {
        (self.host.as_str(), self.port)
    }

    /// The address in words.
    pub fn address(&self) -> (r: String)
        ensures
            r@ == self.place(),
    {
        let mut text = self.host.clone();
        push_text(&mut text, ":");
        push_decimal(&mut text, self.port as u64);
        text
    }

    /// The peer did not answer in time.
    pub fn timed_out(&self) -> (r: LanDialError)
        ensures
            r.text@ == "LAN dial to "@ + self.place() + " timed out"@,
    {
        let mut text = "LAN dial to ".to_owned();
        let address = self.address();
        push_text(&mut text, address.as_str());
        push_text(&mut text, " timed out");
        LanDialError { text }
    }

    /// The peer could not be reached.
    pub fn unreachable(&self, error: &str) -> (r: LanDialError)
        ensures
            r.text@ == "LAN dial to "@ + self.place() + " failed: "@ + error@,
    {
        let mut text = "LAN dial to ".to_owned();
        let address = self.address();
        push_text(&mut text, address.as_str());
        push_text(&mut text, " failed: ");
        push_text(&mut text, error);
        LanDialError { text }
    }

    /// The encryption did not come about.
    pub fn handshake_failed(&self, error: &str) -> (r: LanDialError)
        ensures
            r.text@ == "LAN mutual TLS handshake with "@ + self.place() + " failed: "@ + error@,
    {
        let mut text = "LAN mutual TLS handshake with ".to_owned();
        let address = self.address();
        push_text(&mut text, address.as_str());
        push_text(&mut text, " failed: ");
        push_text(&mut text, error);
        LanDialError { text }
    }
}

/// How far the peer's decision is.
#[derive(Debug, Clone, Copy, PartialEq, Eq, Structural)]
pub enum Handshake {
    /// The peer's user decides; read on.
    Pending,
    Settled(LanConnectOutcome),
}

/// What was read from a peer after the greeting comes to; nothing was where it hung
/// up, or the greeting could not be sent.
pub fn handshake(reply: Option<&ServerMessage>) -> (r: Handshake)
    ensures
        r == match reply {
            Some(message) => match lan_verdict(*message) {
                Some(outcome) => Handshake::Settled(outcome),
                None => Handshake::Pending,
            },
            None => Handshake::Settled(LanConnectOutcome::ConnectionFailure),
        },
{
    match reply {
        Some(message) => match lan_handshake(message) {
            Some(outcome) => Handshake::Settled(outcome),
            None => Handshake::Pending,
        },
        None => Handshake::Settled(LanConnectOutcome::ConnectionFailure),
    }
}

/// The name of a message, without anything of what it holds: it may hold a private
/// key.
pub open spec fn message_name(message: ServerMessage) -> Seq<char> {
    match message {
        ServerMessage::LanEnv { .. } => "LanEnv"@,
        ServerMessage::LanDialIdentity { .. } => "LanDialIdentity"@,
        ServerMessage::Error { .. } => "Error"@,
        _ => "another message"@,
    }
}

/// The name of a message.
fn server_message_name(message: &ServerMessage) -> (r: &'static str)
    ensures
        r@ == message_name(*message),
{
    match message {
        ServerMessage::LanEnv { .. } => "LanEnv",
        ServerMessage::LanDialIdentity { .. } => "LanDialIdentity",
        ServerMessage::Error { .. } => "Error",
        _ => "another message",
    }
}

/// Whether a reply holds an identity that can be used.
pub open spec fn has_identity(reply: ServerMessage) -> bool {
    reply matches ServerMessage::LanDialIdentity { available, cert_der, private_key_pkcs8_der }
        && available && cert_der@.len() > 0 && private_key_pkcs8_der@.len() > 0
}

/// The certificate and the key of this device, from the reply of the server on this
/// machine. A dial never goes on without them.
pub fn fetch_dial_identity(reply: Result<ServerMessage, String>) -> (r: Result<
    (Vec<u8>, Vec<u8>),
    LanDialError,
>)
    ensures
        match reply {
            Ok(message) => match message {
                ServerMessage::LanDialIdentity { cert_der, private_key_pkcs8_der, .. } => {
                    if has_identity(message) {
                        r == Ok::<(Vec<u8>, Vec<u8>), LanDialError>(
                            (cert_der, private_key_pkcs8_der),
                        )
                    } else {
                        r matches Err(error) && error.text@
                            == "the local server reports no LAN device identity available"@
                    }
                },
                _ => r matches Err(error) && error.text@
                    == "expected LanDialIdentity from the local server, got "@ + message_name(
                    message,
                ),
            },
            Err(text) => r == Err::<(Vec<u8>, Vec<u8>), LanDialError>(LanDialError { text }),
        },
{
    match reply {
        Ok(message) => {
            let name = server_message_name(&message);
            match message {
                ServerMessage::LanDialIdentity { available, cert_der, private_key_pkcs8_der } => {
                    if !available || cert_der.len() == 0 || private_key_pkcs8_der.len() == 0 {
                        Err(
                            LanDialError {
                                text: "the local server reports no LAN device identity available"
                                    .to_owned(),
                            },
                        )
                    } else {
                        Ok((cert_der, private_key_pkcs8_der))
                    }
                },
                _ => {
                    let mut text = "expected LanDialIdentity from the local server, got "
                        .to_owned();
                    push_text(&mut text, name);
                    Err(LanDialError { text })
                },
            }
        },
        Err(text) => Err(LanDialError { text }),
    }
}

/// What a message comes to while the identity is awaited: other messages are passed
/// over.
pub fn identity_reply(message: ServerMessage) -> (r: Option<Result<(Vec<u8>, Vec<u8>), String>>)
    ensures
        match message {
            ServerMessage::LanDialIdentity { cert_der, private_key_pkcs8_der, .. } => {
                if has_identity(message) {
                    r == Some(Ok::<(Vec<u8>, Vec<u8>), String>((cert_der, private_key_pkcs8_der)))
                } else {
                    r matches Some(Err(text)) && text@
                        == "the local server reported no LAN device identity available"@
                }
            },
            _ => r is None,
        },
{
    match message {
        ServerMessage::LanDialIdentity { available, cert_der, private_key_pkcs8_der } => {
            if !available || cert_der.len() == 0 || private_key_pkcs8_der.len() == 0 {
                Some(
                    Err(
                        "the local server reported no LAN device identity available".to_owned(),
                    ),
                )
            } else {
                Some(Ok((cert_der, private_key_pkcs8_der)))
            }
        },
        _ => None,
    }
}

/// An identity is one only where the server offers it and neither the certificate nor the
/// key is empty.
pub proof fn identities_are_complete(available: bool, cert: Vec<u8>, key: Vec<u8>)
    ensures
        has_identity(
            ServerMessage::LanDialIdentity {
                available,
                cert_der: cert,
                private_key_pkcs8_der: key,
            },
        ) <==> available && cert@.len() > 0 && key@.len() > 0,
        !has_identity(ServerMessage::LanApprovalPending),
{
}

/// An address is the host, a colon and the port.
pub proof fn addresses_are_host_and_port(dialer: LanDialer)
    ensures
        dialer.place() == dialer.host@ + seq![':'] + decimal(dialer.port as nat),
{
    reveal_strlit(":");
    assert(":"@ =~= seq![':']);
}

/// An identity is handed on as it came. Any other answer is refused, and the refusal names
/// what came and holds nothing of it.
pub proof fn identities_are_handed_on(
    reply: Result<ServerMessage, String>,
    r: Result<(Vec<u8>, Vec<u8>), LanDialError>,
)
    requires
        call_ensures(fetch_dial_identity, (reply,), r),
    ensures
        r is Ok <==> (reply matches Ok(message) && has_identity(message)),
        r matches Ok((cert, key)) ==> reply matches Ok(
            ServerMessage::LanDialIdentity { cert_der, private_key_pkcs8_der, .. },
        ) && cert == cert_der && key == private_key_pkcs8_der,
        reply matches Err(text) ==> r matches Err(error) && error.text == text,
        reply matches Ok(ServerMessage::LanEnv { .. }) ==> r matches Err(error) && error.text@
            == "expected LanDialIdentity from the local server, got "@ + "LanEnv"@,
        reply matches Ok(ServerMessage::Error { .. }) ==> r matches Err(error) && error.text@
            == "expected LanDialIdentity from the local server, got "@ + "Error"@,
        reply matches Ok(message) ==> !(message is LanDialIdentity || message is LanEnv || message
            is Error) ==> (r matches Err(error) && error.text@
            == "expected LanDialIdentity from the local server, got "@ + "another message"@),
{
}

/// A connection that ends before an answer has failed; an answer that settles nothing is
/// waited past.
pub proof fn handshakes_are_settled_by_answers(reply: Option<&ServerMessage>, r: Handshake)
    requires
        call_ensures(handshake, (reply,), r),
    ensures
        reply is None ==> r == Handshake::Settled(LanConnectOutcome::ConnectionFailure),
        r == Handshake::Pending <==> (reply matches Some(message) && lan_verdict(
            *message,
        ) is None),
        r matches Handshake::Settled(outcome) ==> reply matches Some(message) ==> lan_verdict(
            *message,
        ) == Some(outcome),
{
}

/// What went wrong is told with the peer it went wrong with and with the words that came.
pub proof fn failed_dials_are_told(
    dialer: &LanDialer,
    words: &str,
    late: LanDialError,
    unreachable: LanDialError,
    unshaken: LanDialError,
    unusable: LanDialError,
    unknown: LanDialError,
)
    requires
        call_ensures(LanDialer::timed_out, (dialer,), late),
        call_ensures(LanDialer::unreachable, (dialer, words), unreachable),
        call_ensures(LanDialer::handshake_failed, (dialer, words), unshaken),
        call_ensures(LanDialError::unusable_identity, (words,), unusable),
        call_ensures(LanDialError::from_identity_error, (words,), unknown),
    ensures
        late.text@ == "LAN dial to "@ + dialer.place() + " timed out"@,
        unreachable.text@ == "LAN dial to "@ + dialer.place() + " failed: "@ + words@,
        unshaken.text@ == "LAN mutual TLS handshake with "@ + dialer.place() + " failed: "@
            + words@,
        unusable.text@ == "LAN device identity is unusable: "@ + words@,
        unknown.text@ == "LAN device identity error: "@ + words@,
{
}

/// Without a name of its own the machine is called localhost.
pub proof fn nameless_machines_have_a_name(hostname: Option<String>, r: String)
    requires
        call_ensures(local_device_name, (hostname,), r),
    ensures
        hostname matches Some(name) ==> r@ == name@,
        hostname is None ==> r@ == "localhost"@,
{
}

} // verus!
