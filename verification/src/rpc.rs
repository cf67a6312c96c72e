//! Identities on the service bus and the requests that travel over it.

use amplify::Wrapper;
use lnp::p2p::legacy::Messages;
use vstd::prelude::*;
use vstd::string::*;

verus! {

/// Buses that connect the services of a node.
#[derive(Clone, Copy, PartialEq, Eq, Hash, Debug, Structural)]
pub enum Endpoints {
    /// Peer-to-peer protocol messages
    Msg,
    /// Control requests between local services
    Ctl,
    /// Bridge to the peer connection threads
    Bridge,
}

impl Endpoints {
    pub open spec fn label(self) -> Seq<char> {
        match self {
            Endpoints::Msg => "msg"@,
            Endpoints::Ctl => "ctl"@,
            Endpoints::Bridge => "bridge"@,
        }
    }

    /// Name under which the bus is known.
    pub fn name(&self) -> (name: &'static str)
        ensures
            name@ == self.label(),
    {
        match self {
            Endpoints::Msg => "msg",
            Endpoints::Ctl => "ctl",
            Endpoints::Bridge => "bridge",
        }
    }
}

/// Marker of the request and reply vocabulary of the node.
pub struct Rpc {}

/// Logical identity of a service on the bus.
#[derive(Clone, Copy, PartialEq, Eq, Debug)]
pub enum ServiceId {
    Loopback,
    /// Node supervisor
    Lnpd,
    /// Connection to a remote peer, by the node key of that peer
    Peer([u8; 33]),
    /// Channel daemon, by channel id
    Channel([u8; 32]),
    /// Local client
    Client(u64),
}

/// Failure as it is reported to a client: a stable code and an explanation.
#[derive(Clone, PartialEq, Eq, Debug)]
pub struct Failure {
    pub code: u16,
    pub info: String,
}

/// Refusal of the bus to take a message, as the transport words it.
#[derive(Clone, PartialEq, Eq, Debug)]
pub struct BusError {
    pub details: String,
}

/// `lnp::p2p::legacy::Messages`, the protocol messages as the `lnp` library
/// holds them. A value is carried through as it is; what is read of it is
/// read by the functions below.
#[verifier::external_type_specification]
#[verifier::external_body]
pub struct ExMessages(Messages);

/// What the state machine reads of a protocol message.
#[derive(Clone, Copy, PartialEq, Eq, Debug)]
pub enum MessageKind {
    OpenChannel { temporary_channel_id: [u8; 32], funding_satoshis: u64, push_msat: u64 },
    AcceptChannel,
    FundingCreated,
    FundingSigned,
    FundingLocked,
    /// Any message outside of channel establishment
    Other,
}

impl MessageKind {
    /// Whether an `open_channel` leaves the funder a non-negative balance that
    /// fits the machine: `push_msat` is at most `funding_satoshis * 1000`.
    /// True of every other kind.
    pub open spec fn is_sound(self) -> bool {
        match self {
            MessageKind::OpenChannel { funding_satoshis, push_msat, .. } => {
                &&& funding_satoshis * 1000 <= u64::MAX
                &&& push_msat <= funding_satoshis * 1000
            },
            _ => true,
        }
    }

    pub fn check_sound(&self) -> (sound: bool)
        ensures
            sound == self.is_sound(),
    {
        match self {
            MessageKind::OpenChannel { funding_satoshis, push_msat, .. } => {
                match funding_satoshis.checked_mul(1000) {
                    Some(funding_msat) => *push_msat <= funding_msat,
                    None => false,
                }
            },
            _ => true,
        }
    }
}

/// Kind of a protocol message, with the channel id and the amounts of an
/// `open_channel`.
pub uninterp spec fn wire_kind(wire: Messages) -> MessageKind;

/// Text that a protocol message displays as.
pub uninterp spec fn wire_text(wire: Messages) -> Seq<char>;

/// Tells the variants of `lnp::p2p::legacy::Messages` apart. For
/// `OpenChannel` the kind carries the bytes of the message's
/// `temporary_channel_id` and its `funding_satoshis` and `push_msat` fields;
/// every variant that is not named here is `Other`.
#[verifier::external_body]
fn kind_of_wire(wire: &Messages) -> (kind: MessageKind)
    ensures
        kind == wire_kind(*wire),
{
    match wire {
        Messages::OpenChannel(open) => MessageKind::OpenChannel {
            temporary_channel_id: open.temporary_channel_id.into_inner().into_inner(),
            funding_satoshis: open.funding_satoshis,
            push_msat: open.push_msat,
        },
        Messages::AcceptChannel(_) => MessageKind::AcceptChannel,
        Messages::FundingCreated(_) => MessageKind::FundingCreated,
        Messages::FundingSigned(_) => MessageKind::FundingSigned,
        Messages::FundingLocked(_) => MessageKind::FundingLocked,
        _ => MessageKind::Other,
    }
}

/// `Display` of `lnp::p2p::legacy::Messages`: the text depends on the message
/// alone.
#[verifier::external_body]
fn text_of_wire(wire: &Messages) -> (text: String)
    ensures
        text@ == wire_text(*wire),
{
    wire.to_string()
}

/// Protocol message exchanged with the remote peer.
#[derive(Debug)]
pub struct PeerMessage {
    pub(crate) wire: Messages,
}

impl PeerMessage {
    pub open(crate) spec fn wire(&self) -> Messages {
        self.wire
    }

    pub open spec fn kind(&self) -> MessageKind {
        wire_kind(self.wire())
    }

    pub open spec fn text(&self) -> Seq<char> {
        wire_text(self.wire())
    }

    pub fn new(wire: Messages) -> (message: PeerMessage)
        ensures
            message.wire() == wire,
    {
        PeerMessage { wire }
    }

    pub fn as_wire(&self) -> (wire: &Messages)
        ensures
            *wire == self.wire(),
    {
        &self.wire
    }

    pub fn into_wire(self) -> (wire: Messages)
        ensures
            wire == self.wire(),
    {
        self.wire
    }

    pub fn classify(&self) -> (kind: MessageKind)
        ensures
            kind == self.kind(),
    {
        kind_of_wire(&self.wire)
    }

    pub fn describe(&self) -> (text: String)
        ensures
            text@ == self.text(),
    {
        text_of_wire(&self.wire)
    }
}

/// Request of a local client to open a channel with a remote peer.
#[derive(Debug)]
pub struct CreateChannel {
    /// The `open_channel` message to propose the channel with
    pub channel_req: PeerMessage,
    /// Connection to the peer that the channel is proposed to
    pub peerd: ServiceId,
}

/// Everything that a channel daemon receives or sends over the bus.
#[derive(Debug)]
pub enum Request {
    /// Local client asks to open a channel
    OpenChannelWith(CreateChannel),
    /// Protocol message from or to the remote peer
    PeerMessage(PeerMessage),
    /// The funding transaction is constructed and signed locally; carries the
    /// `funding_created` message for the peer
    FundingConstructed(PeerMessage),
    /// The funding transaction is seen confirmed on chain
    FundingConfirmed,
    /// Both sides have acknowledged the funding lock
    LockAcknowledged,
}

impl Request {
    pub open spec fn text(&self) -> Seq<char> {
        match self {
            Request::OpenChannelWith(create) => "open_channel_with("@ + create.channel_req.text()
                + ")"@,
            Request::PeerMessage(message) => "send_message("@ + message.text() + ")"@,
            Request::FundingConstructed(message) => "funding_constructed("@ + message.text()
                + ")"@,
            Request::FundingConfirmed => "funding_confirmed"@,
            Request::LockAcknowledged => "lock_acknowledged"@,
        }
    }

    /// Text of the request for reports and diagnostics.
    pub fn describe(&self) -> (text: String)
        ensures
            text@ == self.text(),
    {
        match self {
            Request::OpenChannelWith(create) => {
                let inner = create.channel_req.describe();
                String::from_str("open_channel_with(").concat(inner.as_str()).concat(")")
            },
            Request::PeerMessage(message) => {
                let inner = message.describe();
                String::from_str("send_message(").concat(inner.as_str()).concat(")")
            },
            Request::FundingConstructed(message) => {
                let inner = message.describe();
                String::from_str("funding_constructed(").concat(inner.as_str()).concat(")")
            },
            Request::FundingConfirmed => String::from_str("funding_confirmed"),
            Request::LockAcknowledged => String::from_str("lock_acknowledged"),
        }
    }
}

/// Message handed to the bus together with its destination.
#[derive(Debug)]
pub struct Envelope {
    pub to: ServiceId,
    pub message: Request,
}

} // verus!
