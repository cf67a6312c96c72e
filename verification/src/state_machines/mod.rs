//! State machines of the channel daemon and the errors of their transitions.

pub mod channel_propose;
pub mod laws;

use self::channel_propose::ChannelPropose;
use crate::channel::{ActiveChannelId, ChannelError, ChannelExtension};
use crate::lifecycle::Lifecycle;
use crate::rpc::{BusError, Envelope, Failure, PeerMessage, Request, ServiceId};
use crate::runtime::Runtime;
use crate::state_machine::{Event, StateMachine};
use vstd::prelude::*;
use vstd::string::*;

verus! {

/// Errors of the channel workflows.
#[derive(Debug)]
pub enum Error {
    /// A message arrived which the current state does not expect
    UnexpectedMessage(Request, Lifecycle),
    /// The channel refused a message
    Channel(ChannelError),
    /// The bus did not take a message that a transition had to send
    Bus(BusError),
}

impl Error {
    pub open spec fn code(&self) -> u16 {
        match self {
            Error::UnexpectedMessage(_, _) => 1001,
            Error::Channel(ChannelError::Extension(_)) => 2001,
            Error::Channel(ChannelError::Htlc(_)) => 2002,
            Error::Bus(_) => 3001,
        }
    }

    pub open spec fn text(&self) -> Seq<char> {
        match self {
            Error::UnexpectedMessage(request, stage) => "unexpected message for a channel state "@
                + stage.tag() + ". Message details: "@ + request.text(),
            Error::Channel(error) => error.text(),
            Error::Bus(error) => "error sending RPC request during state transition. Details: "@
                + error.details@,
        }
    }

    /// Returns unique error number sent to the client alongside text message
    /// to help run client-side diagnostics
    pub fn errno(&self) -> (code: u16)
        ensures
            code == self.code(),
    {
        match self {
            Error::UnexpectedMessage(_, _) => 1001,
            Error::Channel(ChannelError::Extension(_)) => 2001,
            Error::Channel(ChannelError::Htlc(_)) => 2002,
            Error::Bus(_) => 3001,
        }
    }

    /// Text of the error as a client reads it.
    pub fn message(&self) -> (text: String)
        ensures
            text@ == self.text(),
    {
        match self {
            Error::UnexpectedMessage(request, stage) => {
                let state = stage.name();
                let details = request.describe();
                String::from_str("unexpected message for a channel state ").concat(
                    state.as_str(),
                ).concat(". Message details: ").concat(details.as_str())
            },
            Error::Channel(error) => error.describe(),
            Error::Bus(error) => String::from_str(
                "error sending RPC request during state transition. Details: ",
            ).concat(error.details.as_str()),
        }
    }

    /// Failure to report to the client for this error.
    pub fn failure(&self) -> (failure: Failure)
        ensures
            failure.code == self.code(),
            failure.info@ == self.text(),
    {
        Failure { code: self.errno(), info: self.message() }
    }
}

/// State machine of the whole life of a channel.
#[derive(Clone, Copy, PartialEq, Eq, Debug, Structural)]
pub enum ChannelStateMachine {
    /// launching channel daemon
    Launch,
    /// proposing remote peer to open channel
    Propose(ChannelPropose),
    /// accepting channel proposed by a remote peer
    Accept,
    /// active channel operations
    Active,
    /// reestablishing channel
    Reestablishing,
    /// cooperatively closing channel
    Closing,
    /// uncooperative channel closing initiated by thyself
    Abort,
    /// reacting to an uncooperative channel close from remote
    Penalize,
}

impl Default for ChannelStateMachine {
    fn default() -> (state: ChannelStateMachine)
        ensures
            state == ChannelStateMachine::Launch,
    {
        ChannelStateMachine::Launch
    }
}

impl ChannelStateMachine {
    pub open spec fn tag(self) -> Seq<char> {
        match self {
            ChannelStateMachine::Launch => "LAUNCH"@,
            ChannelStateMachine::Propose(workflow) => workflow.tag(),
            ChannelStateMachine::Accept => "ACCEPT"@,
            ChannelStateMachine::Active => "ACTIVE"@,
            ChannelStateMachine::Reestablishing => "REESTABLISHING"@,
            ChannelStateMachine::Closing => "CLOSING"@,
            ChannelStateMachine::Abort => "ABORT"@,
            ChannelStateMachine::Penalize => "PENALIZE"@,
        }
    }

    /// Name of the state; that of a workflow is the name of its phase.
    pub fn name(&self) -> (name: &'static str)
        ensures
            name@ == self.tag(),
    {
        match self {
            ChannelStateMachine::Launch => "LAUNCH",
            ChannelStateMachine::Propose(workflow) => workflow.name(),
            ChannelStateMachine::Accept => "ACCEPT",
            ChannelStateMachine::Active => "ACTIVE",
            ChannelStateMachine::Reestablishing => "REESTABLISHING",
            ChannelStateMachine::Closing => "CLOSING",
            ChannelStateMachine::Abort => "ABORT",
            ChannelStateMachine::Penalize => "PENALIZE",
        }
    }

    pub open spec fn stage(self) -> Lifecycle {
        match self {
            ChannelStateMachine::Launch => Lifecycle::Initial,
            ChannelStateMachine::Propose(workflow) => workflow.stage(),
            ChannelStateMachine::Accept => Lifecycle::Accepted,
            ChannelStateMachine::Active => Lifecycle::Active,
            ChannelStateMachine::Reestablishing => Lifecycle::Reestablishing,
            ChannelStateMachine::Closing => Lifecycle::Closing { round: 0 },
            ChannelStateMachine::Abort => Lifecycle::Aborting,
            ChannelStateMachine::Penalize => Lifecycle::Penalize,
        }
    }

    pub open spec fn info_text(self, channel_id: ActiveChannelId) -> Seq<char> {
        match self {
            ChannelStateMachine::Launch => "Launching channel daemon"@,
            ChannelStateMachine::Propose(workflow) => workflow.info_text(channel_id),
            ChannelStateMachine::Accept => "Accepting channel proposed by a remote peer"@,
            ChannelStateMachine::Active => "Operating active channel"@,
            ChannelStateMachine::Reestablishing => "Reestablishing channel"@,
            ChannelStateMachine::Closing => "Cooperatively closing channel"@,
            ChannelStateMachine::Abort => "Unilaterally closing channel"@,
            ChannelStateMachine::Penalize => "Reacting to an uncooperative channel close from remote"@,
        }
    }

    /// Computes channel lifecycle stage for the current state
    pub fn lifecycle(&self) -> (stage: Lifecycle)
        ensures
            stage == self.stage(),
    {
        match self {
            ChannelStateMachine::Launch => Lifecycle::Initial,
            ChannelStateMachine::Propose(workflow) => workflow.lifecycle(),
            ChannelStateMachine::Accept => Lifecycle::Accepted,
            ChannelStateMachine::Active => Lifecycle::Active,
            ChannelStateMachine::Reestablishing => Lifecycle::Reestablishing,
            ChannelStateMachine::Closing => Lifecycle::Closing { round: 0 },
            ChannelStateMachine::Abort => Lifecycle::Aborting,
            ChannelStateMachine::Penalize => Lifecycle::Penalize,
        }
    }

    /// Constructs the progress message for client reporting
    pub fn info_message(&self, channel_id: ActiveChannelId) -> (text: String)
        ensures
            text@ == self.info_text(channel_id),
    {
        match self {
            ChannelStateMachine::Launch => String::from_str("Launching channel daemon"),
            ChannelStateMachine::Propose(workflow) => workflow.info_message(channel_id),
            ChannelStateMachine::Accept => String::from_str(
                "Accepting channel proposed by a remote peer",
            ),
            ChannelStateMachine::Active => String::from_str("Operating active channel"),
            ChannelStateMachine::Reestablishing => String::from_str("Reestablishing channel"),
            ChannelStateMachine::Closing => String::from_str("Cooperatively closing channel"),
            ChannelStateMachine::Abort => String::from_str("Unilaterally closing channel"),
            ChannelStateMachine::Penalize => String::from_str(
                "Reacting to an uncooperative channel close from remote",
            ),
        }
    }
}

// Dispatch of events:

impl ChannelStateMachine {
    /// Whether the state takes the request as the trigger of its transition.
    /// The states past channel establishment take none yet.
    pub open spec fn accepts(self, request: Request) -> bool {
        match self {
            ChannelStateMachine::Launch => request matches Request::OpenChannelWith(create)
                && ChannelPropose::proposable(create),
            ChannelStateMachine::Propose(workflow) => workflow.expects(request),
            _ => false,
        }
    }

    /// State which the transition out of this state leads to.
    pub open spec fn target(self) -> ChannelStateMachine {
        match self {
            ChannelStateMachine::Launch => ChannelStateMachine::Propose(ChannelPropose::Proposed),
            ChannelStateMachine::Propose(workflow) => match workflow.successor() {
                Some(next) => ChannelStateMachine::Propose(next),
                None => ChannelStateMachine::Active,
            },
            other => other,
        }
    }

    /// Protocol message which the transition on `request` gives to the
    /// channel, if it gives one.
    pub open spec fn consulted(self, request: Request) -> Option<PeerMessage> {
        match (self, request) {
            (ChannelStateMachine::Launch, Request::OpenChannelWith(create)) => Some(
                create.channel_req,
            ),
            (ChannelStateMachine::Propose(workflow), _) => workflow.consulted(request),
            _ => None,
        }
    }

    /// What the channel answers to the transition on `request`; a transition
    /// which gives the channel nothing goes ahead.
    pub open spec fn verdict(self, request: Request, channel: ChannelExtension) -> Result<
        (),
        ChannelError,
    > {
        match self.consulted(request) {
            Some(message) => channel.verdict(message),
            None => Ok(()),
        }
    }

    /// The channel after the transition on `request`: given the message of
    /// the request once, or left alone.
    pub open spec fn channel_after(self, request: Request, channel: ChannelExtension)
        -> ChannelExtension {
        match self.consulted(request) {
            Some(message) => channel.updated(message),
            None => channel,
        }
    }

    /// Messages which the transition on `request` hands to the bus; `peer` is
    /// the peer known before the transition.
    pub open spec fn outbound(self, request: Request, peer: Option<ServiceId>) -> Seq<Envelope> {
        match (self, request) {
            (ChannelStateMachine::Launch, Request::OpenChannelWith(create)) => seq![
                (Envelope { to: create.peerd, message: Request::PeerMessage(create.channel_req) }),
            ],
            (ChannelStateMachine::Propose(workflow), _) => workflow.emits(request, peer),
            _ => Seq::empty(),
        }
    }

    /// Peer known after the transition on `request`.
    pub open spec fn peer_after(self, request: Request, peer: Option<ServiceId>) -> Option<
        ServiceId,
    > {
        match (self, request) {
            (ChannelStateMachine::Launch, Request::OpenChannelWith(create)) => Some(create.peerd),
            _ => peer,
        }
    }

    /// Identifier which the channel takes from the request; none if the
    /// request leaves the one in use.
    pub open spec fn adopted_id(self, request: Request) -> Option<ActiveChannelId> {
        match (self, request) {
            (ChannelStateMachine::Launch, Request::OpenChannelWith(create)) => Some(
                ChannelPropose::proposed_id(create),
            ),
            _ => None,
        }
    }

    /// Code of the failure reported for a request which the state does not
    /// accept.
    pub open spec fn refusal_code(self) -> u16 {
        if self is Launch {
            2001
        } else {
            1001
        }
    }

    /// Text of the failure reported for a request which the state does not
    /// accept.
    pub open spec fn refusal_text(self, request: Request) -> Seq<char> {
        if self is Launch {
            ChannelPropose::malformed_proposal()
        } else {
            Error::UnexpectedMessage(request, self.stage()).text()
        }
    }
}

/// Report for the client which controls the channel.
#[derive(Debug)]
pub enum Report {
    /// A transition was made; the text says where the channel stands
    Progress(String),
    /// An event failed
    Failure(Failure),
}

/// How the handling of an event ended.
#[derive(Debug)]
pub struct Outcome {
    /// Whether the state machine has moved; a failure of the bus is given as
    /// an error, on which the channel must be failed
    pub result: Result<bool, Error>,
    /// What to tell the client; a report that cannot be delivered is dropped
    pub report: Report,
}

/// What the runtime asks of its driver after it took an event.
#[derive(Debug)]
pub enum Step {
    /// The event is handled
    Settled(Outcome),
    /// The messages are to be handed to the bus, in this order; the driver
    /// then tells the runtime how that went
    Deliver(Vec<Envelope>),
}

impl Runtime {
    /// What a runtime must be like to take an event: well-formed, with no
    /// transition in progress, and launched by a request to open a channel.
    pub open spec fn takes(&self, request: Request) -> bool {
        &&& self.wf()
        &&& self.is_idle()
        &&& self.state() is Launch ==> request is OpenChannelWith
    }

    /// What holds when the runtime `self` took `request` and came out as
    /// `after`, asking `step` of its driver.
    pub open spec fn processed(&self, request: Request, after: Runtime, step: Step) -> bool {
        &&& after.wf()
        &&& after.identity() == self.identity()
        &&& if !self.state().accepts(request) {
            &&& step matches Step::Settled(outcome)
            &&& outcome.result == Ok::<bool, Error>(false)
            &&& outcome.report matches Report::Failure(failure)
            &&& failure.code == self.state().refusal_code()
            &&& failure.info@ == self.state().refusal_text(request)
            &&& after == *self
        } else {
            &&& after.channel() == self.state().channel_after(request, self.channel())
            &&& self.state().adopted_id(request) matches Some(id) ==> after.channel().channel_id()
                == id
            &&& match self.state().verdict(request, self.channel()) {
                Err(refusal) => {
                    &&& step matches Step::Settled(outcome)
                    &&& outcome.result == Ok::<bool, Error>(false)
                    &&& outcome.report matches Report::Failure(failure)
                    &&& failure.code == Error::Channel(refusal).code()
                    &&& failure.info@ == refusal.text()
                    &&& after.keeps_all_but_channel(self)
                },
                Ok(_) => if self.state().outbound(request, self.remote_peer()).len() == 0 {
                    &&& step matches Step::Settled(outcome)
                    &&& outcome.result == Ok::<bool, Error>(true)
                    &&& outcome.report matches Report::Progress(text)
                    &&& text@ == after.state().info_text(after.channel().channel_id())
                    &&& after.state() == self.state().target()
                    &&& after.remote_peer() == self.remote_peer()
                    &&& after.is_idle()
                } else {
                    &&& step matches Step::Deliver(envelopes)
                    &&& envelopes@ == self.state().outbound(request, self.remote_peer())
                    &&& after.state() == self.state()
                    &&& after.pending() == Some(self.state().target())
                    &&& after.queued().len() == 0
                    &&& after.remote_peer() == self.state().peer_after(
                        request,
                        self.remote_peer(),
                    )
                },
            }
        }
    }

    /// What holds when the runtime `self` was told how the delivery went and
    /// came out as `after`, with `outcome` for its driver.
    pub open spec fn completed(
        &self,
        delivery: Result<(), BusError>,
        after: Runtime,
        outcome: Outcome,
    ) -> bool {
        &&& after.wf()
        &&& after.is_idle()
        &&& after.identity() == self.identity()
        &&& after.channel() == self.channel()
        &&& after.remote_peer() == self.remote_peer()
        &&& match delivery {
            Ok(_) => {
                &&& after.state() == self.pending()->0
                &&& outcome.result == Ok::<bool, Error>(true)
                &&& outcome.report matches Report::Progress(text)
                &&& text@ == after.state().info_text(after.channel().channel_id())
            },
            Err(refusal) => {
                &&& after.state() == self.state()
                &&& outcome.result == Err::<bool, Error>(Error::Bus(refusal))
                &&& outcome.report matches Report::Failure(failure)
                &&& failure.code == 3001
                &&& failure.info@ == Error::Bus(refusal).text()
            },
        }
    }

    /// Runs the transition of the current state on the event. The state that
    /// the transition leads to is kept aside and the messages it emits are
    /// queued; the state machine itself stays until the transition is
    /// completed.
    pub fn process_event(&mut self, event: Event<Request>) -> (outcome: Result<(), Error>)
        requires
            old(self).takes(event.message),
        ensures
            final(self).wf(),
            final(self).identity() == old(self).identity(),
            final(self).state() == old(self).state(),
            !(outcome matches Err(Error::Bus(_))),
            !old(self).state().accepts(event.message) ==> {
                &&& outcome matches Err(error)
                &&& error.code() == old(self).state().refusal_code()
                &&& error.text() == old(self).state().refusal_text(event.message)
                &&& !(old(self).state() is Launch) ==> error == Error::UnexpectedMessage(
                    event.message,
                    old(self).stage(),
                )
                &&& *final(self) == *old(self)
            },
            old(self).state().accepts(event.message) ==> {
                &&& final(self).channel() == old(self).state().channel_after(
                    event.message,
                    old(self).channel(),
                )
                &&& old(self).state().adopted_id(event.message) matches Some(id)
                    ==> final(self).channel().channel_id() == id
                &&& match old(self).state().verdict(event.message, old(self).channel()) {
                    Ok(_) => {
                        &&& outcome is Ok
                        &&& final(self).pending() == Some(old(self).state().target())
                        &&& final(self).queued() == old(self).state().outbound(
                            event.message,
                            old(self).remote_peer(),
                        )
                        &&& final(self).remote_peer() == old(self).state().peer_after(
                            event.message,
                            old(self).remote_peer(),
                        )
                    },
                    Err(refusal) => {
                        &&& outcome == Err::<(), Error>(Error::Channel(refusal))
                        &&& final(self).keeps_all_but_channel(old(self))
                    },
                }
            },
    {
        let ghost request = event.message;
        match self.state_machine {
            ChannelStateMachine::Launch => {
                match ChannelPropose::with(event, self) {
                    Ok(workflow) => {
                        self.pending = Some(ChannelStateMachine::Propose(workflow));
                        assert(self.queued() =~= old(self).state().outbound(
                            request,
                            old(self).remote_peer(),
                        ));
                        Ok(())
                    },
                    Err(error) => Err(error),
                }
            },
            ChannelStateMachine::Propose(workflow) => {
                match workflow.next(event, self) {
                    Ok(Some(next)) => {
                        self.pending = Some(ChannelStateMachine::Propose(next));
                        assert(self.queued() =~= old(self).state().outbound(
                            request,
                            old(self).remote_peer(),
                        ));
                        Ok(())
                    },
                    Ok(None) => {
                        self.pending = Some(ChannelStateMachine::Active);
                        assert(self.queued() =~= old(self).state().outbound(
                            request,
                            old(self).remote_peer(),
                        ));
                        Ok(())
                    },
                    Err(error) => Err(error),
                }
            },
            _ => Err(Error::UnexpectedMessage(event.message, self.state_machine.lifecycle())),
        }
    }

    /// Completes the transition in progress, given what the bus made of its
    /// messages.
    ///
    /// If the bus took them, the state machine moves and the progress is
    /// reported. If it did not, the state machine stays, the failure is
    /// reported, and the error is returned for the caller to fail the channel.
    pub fn complete(&mut self, delivery: Result<(), BusError>) -> (outcome: Outcome)
        requires
            old(self).wf(),
            old(self).pending() is Some,
        ensures
            old(self).completed(delivery, *final(self), outcome),
    {
        let target = match self.pending {
            Some(target) => target,
            None => vstd::pervasive::unreached(),
        };
        self.pending = None;
        self.outbox.clear();
        match delivery {
            Ok(()) => {
                self.state_machine = target;
                let channel_id = self.channel.active_channel_id();
                let text = self.state_machine.info_message(channel_id);
                Outcome { result: Ok(true), report: Report::Progress(text) }
            },
            Err(refusal) => {
                let error = Error::Bus(refusal);
                let failure = error.failure();
                Outcome { result: Err(error), report: Report::Failure(failure) }
            },
        }
    }

    /// Processes incoming RPC or peer requests updating state - and
    /// switching to a new state, if necessary.
    ///
    /// A request which the current state does not accept, or which the
    /// channel refuses, is reported as a failure and changes nothing in the
    /// state machine. A transition which emits nothing is made at once.
    /// Otherwise the messages are given out for delivery, and the transition
    /// waits for [`Runtime::complete`].
    pub fn process(&mut self, source: ServiceId, request: Request) -> (step: Step)
        requires
            old(self).takes(request),
        ensures
            old(self).processed(request, *final(self), step),
    {
        let event = Event::with(self.identity, source, request);
        match self.process_event(event) {
            Err(error) => Step::Settled(
                Outcome { result: Ok(false), report: Report::Failure(error.failure()) },
            ),
            Ok(()) => {
                if self.outbox.len() == 0 {
                    Step::Settled(self.complete(Ok(())))
                } else {
                    let mut envelopes = Vec::new();
                    core::mem::swap(&mut self.outbox, &mut envelopes);
                    Step::Deliver(envelopes)
                }
            },
        }
    }
}

} // verus!
