//! Workflow of proposing a channel to a remote peer.

use crate::channel::{short_hex, ActiveChannelId, ChannelError};
use crate::lifecycle::Lifecycle;
use crate::rpc::{CreateChannel, Envelope, MessageKind, PeerMessage, Request, ServiceId};
use crate::runtime::Runtime;
use crate::state_machine::{Event, StateMachine};
use crate::state_machines::Error;
use vstd::prelude::*;
use vstd::string::*;

verus! {

/// Channel proposal workflow
#[derive(Clone, Copy, PartialEq, Eq, Debug, Structural)]
pub enum ChannelPropose {
    /// asked remote peer to accept a new channel
    Proposed,
    /// remote peer accepted our channel proposal
    Accepted,
    /// sent funding txid and commitment signature to the remote peer
    Funding,
    /// received signed commitment from the remote peer
    Signed,
    /// awaiting funding transaction to be mined
    Funded,
    /// funding transaction is mined, awaiting for the other peer confirmation of this fact
    Locked,
}

impl ChannelPropose {
    pub open spec fn tag(self) -> Seq<char> {
        match self {
            ChannelPropose::Proposed => "PROPOSED"@,
            ChannelPropose::Accepted => "ACCEPTED"@,
            ChannelPropose::Funding => "FUNDING"@,
            ChannelPropose::Signed => "SIGNED"@,
            ChannelPropose::Funded => "FUNDED"@,
            ChannelPropose::Locked => "LOCKED"@,
        }
    }

    /// Name of the phase.
    pub fn name(&self) -> (name: &'static str)
        ensures
            name@ == self.tag(),
    {
        match self {
            ChannelPropose::Proposed => "PROPOSED",
            ChannelPropose::Accepted => "ACCEPTED",
            ChannelPropose::Funding => "FUNDING",
            ChannelPropose::Signed => "SIGNED",
            ChannelPropose::Funded => "FUNDED",
            ChannelPropose::Locked => "LOCKED",
        }
    }

    pub open spec fn stage(self) -> Lifecycle {
        match self {
            ChannelPropose::Proposed => Lifecycle::Proposed,
            ChannelPropose::Accepted => Lifecycle::Accepted,
            ChannelPropose::Funding => Lifecycle::Funding,
            ChannelPropose::Signed => Lifecycle::Signed,
            ChannelPropose::Funded => Lifecycle::Funded,
            ChannelPropose::Locked => Lifecycle::Locked,
        }
    }

    /// What the progress message says before it names the channel.
    pub open spec fn info_prefix(self) -> Seq<char> {
        match self {
            ChannelPropose::Proposed => "Proposing remote peer to open a channel with temp id "@,
            ChannelPropose::Accepted => "Remote peer accepted the channel with temp id "@,
            ChannelPropose::Funding => "Sent funding and commitment signature to the remote peer for channel "@,
            ChannelPropose::Signed => "Received signed commitment from the remote peer for channel "@,
            ChannelPropose::Funded => "Funding transaction is mined for channel "@,
            ChannelPropose::Locked => "Remote peer confirmed the funding lock for channel "@,
        }
    }

    pub open spec fn info_text(self, channel_id: ActiveChannelId) -> Seq<char> {
        self.info_prefix() + short_hex(channel_id.bytes())
    }

    /// Computes channel lifecycle stage for the current channel proposal workflow stage
    pub fn lifecycle(&self) -> (stage: Lifecycle)
        ensures
            stage == self.stage(),
    {
        match self {
            ChannelPropose::Proposed => Lifecycle::Proposed,
            ChannelPropose::Accepted => Lifecycle::Accepted,
            ChannelPropose::Funding => Lifecycle::Funding,
            ChannelPropose::Signed => Lifecycle::Signed,
            ChannelPropose::Funded => Lifecycle::Funded,
            ChannelPropose::Locked => Lifecycle::Locked,
        }
    }

    /// Construct information message for error and client reporting
    pub fn info_message(&self, channel_id: ActiveChannelId) -> (text: String)
        ensures
            text@ == self.info_text(channel_id),
    {
        let prefix = match self {
            ChannelPropose::Proposed => "Proposing remote peer to open a channel with temp id ",
            ChannelPropose::Accepted => "Remote peer accepted the channel with temp id ",
            ChannelPropose::Funding => "Sent funding and commitment signature to the remote peer for channel ",
            ChannelPropose::Signed => "Received signed commitment from the remote peer for channel ",
            ChannelPropose::Funded => "Funding transaction is mined for channel ",
            ChannelPropose::Locked => "Remote peer confirmed the funding lock for channel ",
        };
        let id = channel_id.abbreviated();
        String::from_str(prefix).concat(id.as_str())
    }
}

// State transitions:

impl ChannelPropose {
    /// The one class of requests which moves the workflow on from this phase.
    pub open spec fn expects(self, request: Request) -> bool {
        match self {
            ChannelPropose::Proposed => request matches Request::PeerMessage(message)
                && message.kind() is AcceptChannel,
            ChannelPropose::Accepted => request matches Request::FundingConstructed(message)
                && message.kind() is FundingCreated,
            ChannelPropose::Funding => request matches Request::PeerMessage(message)
                && message.kind() is FundingSigned,
            ChannelPropose::Signed => request is FundingConfirmed,
            ChannelPropose::Funded => request matches Request::PeerMessage(message)
                && message.kind() is FundingLocked,
            ChannelPropose::Locked => request is LockAcknowledged,
        }
    }

    /// Phase that follows this one; none follows the last.
    pub open spec fn successor(self) -> Option<ChannelPropose> {
        match self {
            ChannelPropose::Proposed => Some(ChannelPropose::Accepted),
            ChannelPropose::Accepted => Some(ChannelPropose::Funding),
            ChannelPropose::Funding => Some(ChannelPropose::Signed),
            ChannelPropose::Signed => Some(ChannelPropose::Funded),
            ChannelPropose::Funded => Some(ChannelPropose::Locked),
            ChannelPropose::Locked => None,
        }
    }

    /// Protocol message which the transition out of this phase gives to the
    /// channel, if the request is of the class that the phase expects.
    pub open spec fn consulted(self, request: Request) -> Option<PeerMessage> {
        match (self, request) {
            (ChannelPropose::Proposed, Request::PeerMessage(message)) => Some(message),
            (ChannelPropose::Accepted, Request::FundingConstructed(message)) => Some(message),
            (ChannelPropose::Funding, Request::PeerMessage(message)) => Some(message),
            (ChannelPropose::Funded, Request::PeerMessage(message)) => Some(message),
            _ => None,
        }
    }

    /// Messages which the transition out of this phase hands to the bus.
    pub open spec fn emits(self, request: Request, peer: Option<ServiceId>) -> Seq<Envelope> {
        match (self, request, peer) {
            (ChannelPropose::Accepted, Request::FundingConstructed(message), Some(to)) => seq![
                (Envelope { to, message: Request::PeerMessage(message) }),
            ],
            _ => Seq::empty(),
        }
    }

    /// What holds of a transition out of phase `self` on `request`, which took
    /// the runtime from `before` to `after`.
    pub open spec fn stepped(
        self,
        request: Request,
        before: Runtime,
        after: Runtime,
        outcome: Result<Option<ChannelPropose>, Error>,
    ) -> bool {
        if !self.expects(request) {
            &&& outcome == Err::<Option<ChannelPropose>, Error>(
                Error::UnexpectedMessage(request, self.stage()),
            )
            &&& after == before
        } else {
            match self.consulted(request) {
                Some(message) => {
                    &&& after.channel() == before.channel().updated(message)
                    &&& after.identity() == before.identity()
                    &&& after.state() == before.state()
                    &&& after.remote_peer() == before.remote_peer()
                    &&& after.pending() == before.pending()
                    &&& match before.channel().verdict(message) {
                        Ok(_) => {
                            &&& outcome == Ok::<Option<ChannelPropose>, Error>(self.successor())
                            &&& after.queued() == before.queued() + self.emits(
                                request,
                                before.remote_peer(),
                            )
                        },
                        Err(refusal) => {
                            &&& outcome == Err::<Option<ChannelPropose>, Error>(
                                Error::Channel(refusal),
                            )
                            &&& after.queued() == before.queued()
                        },
                    }
                },
                None => {
                    &&& outcome == Ok::<Option<ChannelPropose>, Error>(self.successor())
                    &&& after == before
                },
            }
        }
    }

    /// A proposal is in order when it carries an `open_channel` message with
    /// sound amounts.
    pub open spec fn proposable(create: CreateChannel) -> bool {
        create.channel_req.kind() is OpenChannel && create.channel_req.kind().is_sound()
    }

    /// Identifier which the channel is known under once it took the proposal.
    pub open spec fn proposed_id(create: CreateChannel) -> ActiveChannelId {
        ActiveChannelId::Temporary(create.channel_req.kind()->temporary_channel_id)
    }

    pub open spec fn malformed_proposal() -> Seq<char> {
        "channel proposal is not a well-formed open_channel message"@
    }

    /// Constructs channel proposal state machine
    ///
    /// The proposal is checked, then the channel is given the `open_channel`
    /// message once; if the channel takes it, the message is queued for the
    /// peer that the request names.
    pub fn with(event: Event<Request>, runtime: &mut Runtime) -> (outcome: Result<
        ChannelPropose,
        Error,
    >)
        requires
            event.message is OpenChannelWith,
        ensures
            ({
                let create = event.message->OpenChannelWith_0;
                if !Self::proposable(create) {
                    &&& outcome matches Err(Error::Channel(ChannelError::Extension(details)))
                    &&& details@ == Self::malformed_proposal()
                    &&& *final(runtime) == *old(runtime)
                } else {
                    &&& final(runtime).channel() == old(runtime).channel().updated(
                        create.channel_req,
                    )
                    &&& final(runtime).channel().channel_id() == Self::proposed_id(create)
                    &&& final(runtime).identity() == old(runtime).identity()
                    &&& final(runtime).state() == old(runtime).state()
                    &&& final(runtime).pending() == old(runtime).pending()
                    &&& match old(runtime).channel().verdict(create.channel_req) {
                        Ok(_) => {
                            &&& outcome == Ok::<ChannelPropose, Error>(ChannelPropose::Proposed)
                            &&& final(runtime).remote_peer() == Some(create.peerd)
                            &&& final(runtime).queued() == old(runtime).queued().push(
                                (Envelope {
                                    to: create.peerd,
                                    message: Request::PeerMessage(create.channel_req),
                                }),
                            )
                        },
                        Err(refusal) => {
                            &&& outcome == Err::<ChannelPropose, Error>(Error::Channel(refusal))
                            &&& final(runtime).remote_peer() == old(runtime).remote_peer()
                            &&& final(runtime).queued() == old(runtime).queued()
                        },
                    }
                }
            }),
    {
        match event.message {
            Request::OpenChannelWith(create) => {
                let kind = create.channel_req.classify();
                let sound = match kind {
                    MessageKind::OpenChannel { .. } => kind.check_sound(),
                    _ => false,
                };
                if !sound {
                    return Err(
                        Error::Channel(
                            ChannelError::Extension(
                                String::from_str(
                                    "channel proposal is not a well-formed open_channel message",
                                ),
                            ),
                        ),
                    );
                }
                let verdict = runtime.channel.update_from_peer(&create.channel_req);
                let peerd = create.peerd;
                match settle_sending(
                    verdict,
                    ChannelPropose::Proposed,
                    peerd,
                    create.channel_req,
                    runtime,
                ) {
                    Ok(proposed) => {
                        runtime.remote_peer = Some(peerd);
                        Ok(proposed)
                    },
                    Err(error) => Err(error),
                }
            },
            _ => vstd::pervasive::unreached(),
        }
    }
}

/// Result of a transition once the channel gave its verdict on the message:
/// the next phase if the channel took it, the channel's error if not.
pub fn settle(verdict: Result<(), ChannelError>, next: ChannelPropose) -> (outcome: Result<
    ChannelPropose,
    Error,
>)
    ensures
        verdict is Ok ==> outcome == Ok::<ChannelPropose, Error>(next),
        verdict matches Err(refusal) ==> outcome == Err::<ChannelPropose, Error>(
            Error::Channel(refusal),
        ),
{
    match verdict {
        Ok(()) => Ok(next),
        Err(refusal) => Err(Error::Channel(refusal)),
    }
}

/// Result of a transition which has a protocol message to send, once the
/// channel gave its verdict on that message: if the channel took it, the
/// message is queued for `to` and the next phase is returned; if not, nothing
/// is queued and the channel's error is returned.
pub fn settle_sending(
    verdict: Result<(), ChannelError>,
    next: ChannelPropose,
    to: ServiceId,
    message: PeerMessage,
    runtime: &mut Runtime,
) -> (outcome: Result<ChannelPropose, Error>)
    ensures
        verdict is Ok ==> {
            &&& outcome == Ok::<ChannelPropose, Error>(next)
            &&& final(runtime).queued() == old(runtime).queued().push(
                (Envelope { to, message: Request::PeerMessage(message) }),
            )
            &&& final(runtime).identity() == old(runtime).identity()
            &&& final(runtime).channel() == old(runtime).channel()
            &&& final(runtime).state() == old(runtime).state()
            &&& final(runtime).remote_peer() == old(runtime).remote_peer()
            &&& final(runtime).pending() == old(runtime).pending()
        },
        verdict matches Err(refusal) ==> {
            &&& outcome == Err::<ChannelPropose, Error>(Error::Channel(refusal))
            &&& *final(runtime) == *old(runtime)
        },
{
    match verdict {
        Ok(()) => {
            runtime.send_to(to, Request::PeerMessage(message));
            Ok(next)
        },
        Err(refusal) => Err(Error::Channel(refusal)),
    }
}

/// `Proposed` to `Accepted`, on `accept_channel` from the remote peer.
pub fn finish_proposed(event: Event<Request>, runtime: &mut Runtime) -> (outcome: Result<
    ChannelPropose,
    Error,
>)
    ensures
        ChannelPropose::Proposed.stepped(
            event.message,
            *old(runtime),
            *final(runtime),
            lift(outcome),
        ),
{
    match event.message {
        Request::PeerMessage(message) => {
            match message.classify() {
                MessageKind::AcceptChannel => {
                    let verdict = runtime.channel.update_from_peer(&message);
                    settle(verdict, ChannelPropose::Accepted)
                },
                _ => Err(
                    Error::UnexpectedMessage(Request::PeerMessage(message), Lifecycle::Proposed),
                ),
            }
        },
        other => Err(Error::UnexpectedMessage(other, Lifecycle::Proposed)),
    }
}

/// `Accepted` to `Funding`, once the funding transaction is constructed and
/// signed locally. The `funding_created` message, which names the funding
/// outpoint and holds the signature of the first commitment, is queued for
/// the remote peer.
pub fn finish_accepted(event: Event<Request>, runtime: &mut Runtime) -> (outcome: Result<
    ChannelPropose,
    Error,
>)
    requires
        old(runtime).remote_peer() is Some,
    ensures
        ChannelPropose::Accepted.stepped(
            event.message,
            *old(runtime),
            *final(runtime),
            lift(outcome),
        ),
{
    let ghost request = event.message;
    match event.message {
        Request::FundingConstructed(message) => {
            match message.classify() {
                MessageKind::FundingCreated => {
                    let verdict = runtime.channel.update_from_peer(&message);
                    match runtime.remote_peer {
                        Some(peer) => {
                            let outcome = settle_sending(
                                verdict,
                                ChannelPropose::Funding,
                                peer,
                                message,
                                runtime,
                            );
                            assert(outcome is Ok ==> runtime.queued() =~= old(runtime).queued()
                                + ChannelPropose::Accepted.emits(request, Some(peer)));
                            outcome
                        },
                        None => vstd::pervasive::unreached(),
                    }
                },
                _ => Err(
                    Error::UnexpectedMessage(
                        Request::FundingConstructed(message),
                        Lifecycle::Accepted,
                    ),
                ),
            }
        },
        other => Err(Error::UnexpectedMessage(other, Lifecycle::Accepted)),
    }
}

/// `Funding` to `Signed`, on `funding_signed` from the remote peer.
pub fn finish_funding(event: Event<Request>, runtime: &mut Runtime) -> (outcome: Result<
    ChannelPropose,
    Error,
>)
    ensures
        ChannelPropose::Funding.stepped(
            event.message,
            *old(runtime),
            *final(runtime),
            lift(outcome),
        ),
{
    match event.message {
        Request::PeerMessage(message) => {
            match message.classify() {
                MessageKind::FundingSigned => {
                    let verdict = runtime.channel.update_from_peer(&message);
                    settle(verdict, ChannelPropose::Signed)
                },
                _ => Err(
                    Error::UnexpectedMessage(Request::PeerMessage(message), Lifecycle::Funding),
                ),
            }
        },
        other => Err(Error::UnexpectedMessage(other, Lifecycle::Funding)),
    }
}

/// `Signed` to `Funded`, once the funding transaction is confirmed on chain.
pub fn finish_signed(event: Event<Request>, runtime: &mut Runtime) -> (outcome: Result<
    ChannelPropose,
    Error,
>)
    ensures
        ChannelPropose::Signed.stepped(
            event.message,
            *old(runtime),
            *final(runtime),
            lift(outcome),
        ),
{
    match event.message {
        Request::FundingConfirmed => Ok(ChannelPropose::Funded),
        other => Err(Error::UnexpectedMessage(other, Lifecycle::Signed)),
    }
}

/// `Funded` to `Locked`, on `funding_locked` from the remote peer.
pub fn finish_funded(event: Event<Request>, runtime: &mut Runtime) -> (outcome: Result<
    ChannelPropose,
    Error,
>)
    ensures
        ChannelPropose::Funded.stepped(
            event.message,
            *old(runtime),
            *final(runtime),
            lift(outcome),
        ),
{
    match event.message {
        Request::PeerMessage(message) => {
            match message.classify() {
                MessageKind::FundingLocked => {
                    let verdict = runtime.channel.update_from_peer(&message);
                    settle(verdict, ChannelPropose::Locked)
                },
                _ => Err(
                    Error::UnexpectedMessage(Request::PeerMessage(message), Lifecycle::Funded),
                ),
            }
        },
        other => Err(Error::UnexpectedMessage(other, Lifecycle::Funded)),
    }
}

/// Out of `Locked`, once both sides have acknowledged the funding lock: the
/// workflow is complete.
pub fn finish_locked(event: Event<Request>, runtime: &mut Runtime) -> (outcome: Result<(), Error>)
    ensures
        ChannelPropose::Locked.stepped(
            event.message,
            *old(runtime),
            *final(runtime),
            match outcome {
                Ok(()) => Ok(None),
                Err(error) => Err(error),
            },
        ),
{
    match event.message {
        Request::LockAcknowledged => Ok(()),
        other => Err(Error::UnexpectedMessage(other, Lifecycle::Locked)),
    }
}

/// Result of a transition which ends in a phase, as a result of a step of
/// the workflow.
pub open spec fn lift(outcome: Result<ChannelPropose, Error>) -> Result<
    Option<ChannelPropose>,
    Error,
> {
    match outcome {
        Ok(next) => Ok(Some(next)),
        Err(error) => Err(error),
    }
}

impl StateMachine<Request, Runtime> for ChannelPropose {
    type Error = Error;

    open spec fn operable(&self, runtime: &Runtime) -> bool {
        *self is Accepted ==> runtime.remote_peer() is Some
    }

    fn next(self, event: Event<Request>, runtime: &mut Runtime) -> (outcome: Result<
        Option<Self>,
        Self::Error,
    >)
        ensures
            self.stepped(event.message, *old(runtime), *final(runtime), outcome),
    {
        let state = match self {
            ChannelPropose::Proposed => finish_proposed(event, runtime),
            ChannelPropose::Accepted => finish_accepted(event, runtime),
            ChannelPropose::Funding => finish_funding(event, runtime),
            ChannelPropose::Signed => finish_signed(event, runtime),
            ChannelPropose::Funded => finish_funded(event, runtime),
            ChannelPropose::Locked => {
                return match finish_locked(event, runtime) {
                    Ok(()) => Ok(None),
                    Err(error) => Err(error),
                };
            },
        };
        match state {
            Ok(next) => Ok(Some(next)),
            Err(error) => Err(error),
        }
    }
}

} // verus!
