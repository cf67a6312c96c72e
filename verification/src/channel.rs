//! The channel itself: its identity and its cryptographic state, which is
//! kept by the `lnp` library and is opaque here.

use amplify::Wrapper;
use crate::rpc::{MessageKind, PeerMessage};
use lnp::channel::bolt::BoltExt;
use lnp::channel::Channel;
use lnp::p2p::legacy::Messages;
use lnp::Extension;
use vstd::prelude::*;

verus! {

/// Identifier under which a channel is currently known: a temporary one
/// until the funding outpoint is known, a final one after.
#[derive(Clone, Copy, PartialEq, Eq, Debug)]
pub enum ActiveChannelId {
    Temporary([u8; 32]),
    Static([u8; 32]),
}

pub open spec fn hex_digit(nibble: int) -> char {
    seq!['0', '1', '2', '3', '4', '5', '6', '7', '8', '9', 'a', 'b', 'c', 'd', 'e', 'f'][nibble]
}

/// Lower-case hexadecimal text of bytes, two digits for each byte.
pub open spec fn hex(bytes: Seq<u8>) -> Seq<char> {
    Seq::new(
        2 * bytes.len(),
        |i: int|
            if i % 2 == 0 {
                hex_digit(bytes[i / 2] as int / 16)
            } else {
                hex_digit(bytes[i / 2] as int % 16)
            },
    )
}

/// Short form of a 32-byte identifier: the first four bytes and the last four
/// in hexadecimal, with two dots between.
pub open spec fn short_hex(bytes: Seq<u8>) -> Seq<char> {
    hex(bytes.subrange(0, 4)) + seq!['.', '.'] + hex(bytes.subrange(28, 32))
}

/// `LowerHex` of `amplify::Slice32` in its alternate form, which writes the
/// hexadecimal digits of the first four bytes, two dots, and the digits of
/// the last four bytes.
#[verifier::external_body]
fn slice32_short_hex(bytes: &[u8; 32]) -> (text: String)
    ensures
        text@ == short_hex(bytes@),
{
    format!("{:#x}", amplify::Slice32::from(*bytes))
}

impl ActiveChannelId {
    pub open spec fn bytes(self) -> Seq<u8> {
        match self {
            ActiveChannelId::Temporary(id) => id@,
            ActiveChannelId::Static(id) => id@,
        }
    }

    /// The 32 bytes of the identifier, whether temporary or final.
    pub fn as_slice32(&self) -> (id: [u8; 32])
        ensures
            id@ == self.bytes(),
    {
        match self {
            ActiveChannelId::Temporary(id) => *id,
            ActiveChannelId::Static(id) => *id,
        }
    }

    /// Short text of the identifier for messages to a user.
    pub fn abbreviated(&self) -> (text: String)
        ensures
            text@ == short_hex(self.bytes()),
    {
        let id = self.as_slice32();
        slice32_short_hex(&id)
    }
}

/// Reason for which the channel refused a message.
#[derive(Clone, PartialEq, Eq, Debug)]
pub enum ChannelError {
    /// The channel or one of its extensions rejected the message
    Extension(String),
    /// The message violates the rules of HTLCs
    Htlc(String),
}

impl ChannelError {
    pub open spec fn text(&self) -> Seq<char> {
        match self {
            ChannelError::Extension(details) => details@,
            ChannelError::Htlc(details) => details@,
        }
    }

    pub fn describe(&self) -> (text: String)
        ensures
            text@ == self.text(),
    {
        match self {
            ChannelError::Extension(details) => details.clone(),
            ChannelError::Htlc(details) => details.clone(),
        }
    }
}

/// Cryptographic state of the channel: commitments, keys, policy and HTLCs,
/// as `lnp::channel::Channel` keeps them. Nothing of it is read here but the
/// channel id and the verdict on each applied message.
#[verifier::external_body]
pub struct ChannelExtension {
    inner: Channel<BoltExt>,
}

/// Identifier that the channel state holds.
pub uninterp spec fn channel_id_of(channel: ChannelExtension) -> ActiveChannelId;

/// `Default` of `lnp::channel::Channel`: a channel with default policy and
/// parameters under a temporary id drawn at random.
#[verifier::external_body]
fn default_channel() -> (channel: ChannelExtension)
    ensures
        channel_id_of(channel) is Temporary,
{
    ChannelExtension { inner: Channel::default() }
}

/// `Channel::active_channel_id`, with the identifier unwrapped to its bytes.
#[verifier::external_body]
fn channel_active_id(channel: &ChannelExtension) -> (id: ActiveChannelId)
    ensures
        id == channel_id_of(*channel),
{
    match channel.inner.active_channel_id() {
        lnp::p2p::legacy::ActiveChannelId::Temporary(id) => ActiveChannelId::Temporary(
            id.into_inner().into_inner(),
        ),
        lnp::p2p::legacy::ActiveChannelId::Static(id) => ActiveChannelId::Static(
            id.into_inner().into_inner(),
        ),
    }
}

/// What the channel answers to a protocol message: it takes the message, or
/// it refuses it for a reason. The answer depends on the message and on the
/// policy, parameters and state that the channel holds, and on nothing else.
pub uninterp spec fn channel_verdict(channel: ChannelExtension, wire: Messages) -> Result<
    (),
    ChannelError,
>;

/// The channel as one protocol message leaves it, taken or refused.
pub uninterp spec fn channel_after(channel: ChannelExtension, wire: Messages) -> ChannelExtension;

/// `Extension::update_from_peer` of `lnp::channel::Channel`, called once with
/// the message. The channel, its extensions and its policy read nothing but
/// the message and what the channel holds, so the verdict and the channel
/// after the call are functions of the two. An error of the HTLC domain keeps
/// its text; any other error of the channel is given as its displayed text.
/// Whatever the verdict, the channel takes the temporary id of an
/// `open_channel` before it checks anything else.
///
/// The call computes `funding_satoshis * 1000 - push_msat` for an
/// `open_channel`; amounts for which that does not fit are left out.
#[verifier::external_body]
fn channel_update_from_peer(channel: &mut ChannelExtension, message: &PeerMessage) -> (verdict:
    Result<(), ChannelError>)
    requires
        message.kind().is_sound(),
    ensures
        verdict == channel_verdict(*old(channel), message.wire()),
        *final(channel) == channel_after(*old(channel), message.wire()),
        message.kind() matches MessageKind::OpenChannel { temporary_channel_id, .. }
            ==> channel_id_of(*final(channel)) == ActiveChannelId::Temporary(temporary_channel_id),
{
    match channel.inner.update_from_peer(message.as_wire()) {
        Ok(()) => Ok(()),
        Err(lnp::channel::bolt::Error::Htlc(details)) => Err(ChannelError::Htlc(details)),
        Err(other) => Err(ChannelError::Extension(other.to_string())),
    }
}

impl ChannelExtension {
    pub open spec fn channel_id(&self) -> ActiveChannelId {
        channel_id_of(*self)
    }

    /// A fresh channel with default policy and a random temporary id.
    pub fn new() -> (channel: ChannelExtension)
        ensures
            channel.channel_id() is Temporary,
    {
        default_channel()
    }

    /// Returns the identifier which the channel is known under at this moment.
    pub fn active_channel_id(&self) -> (id: ActiveChannelId)
        ensures
            id == self.channel_id(),
    {
        channel_active_id(self)
    }

    /// What the channel answers to the message.
    pub open spec fn verdict(&self, message: PeerMessage) -> Result<(), ChannelError> {
        channel_verdict(*self, message.wire())
    }

    /// The channel after it was given the message once.
    pub open spec fn updated(&self, message: PeerMessage) -> ChannelExtension {
        channel_after(*self, message.wire())
    }

    /// Lets the channel update itself from a protocol message. The channel
    /// may refuse the message; it is then left as the `lnp` library leaves it.
    pub fn update_from_peer(&mut self, message: &PeerMessage) -> (verdict: Result<
        (),
        ChannelError,
    >)
        requires
            message.kind().is_sound(),
        ensures
            verdict == old(self).verdict(*message),
            *final(self) == old(self).updated(*message),
            message.kind() matches MessageKind::OpenChannel { temporary_channel_id, .. }
                ==> final(self).channel_id() == ActiveChannelId::Temporary(temporary_channel_id),
    {
        channel_update_from_peer(self, message)
    }
}

} // verus!
