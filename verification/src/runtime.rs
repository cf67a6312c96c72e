//! State that a channel daemon keeps between events.

use crate::channel::{ActiveChannelId, ChannelExtension};
use crate::lifecycle::Lifecycle;
use crate::rpc::{Envelope, Request, ServiceId};
use crate::state_machines::ChannelStateMachine;
use vstd::prelude::*;

verus! {

/// Runtime of one channel. It owns the channel, the state machine and the
/// messages which the current transition has queued for the bus.
///
/// A transition that queued messages is not complete until the bus took
/// them: until then the state which the transition leads to is kept aside,
/// and the state machine stays where it was.
pub struct Runtime {
    pub(crate) identity: ServiceId,
    pub(crate) channel: ChannelExtension,
    pub(crate) state_machine: ChannelStateMachine,
    pub(crate) remote_peer: Option<ServiceId>,
    pub(crate) outbox: Vec<Envelope>,
    pub(crate) pending: Option<ChannelStateMachine>,
}

impl Runtime {
    /// Identity of the daemon on the bus.
    pub open(crate) spec fn identity(&self) -> ServiceId {
        self.identity
    }

    /// Cryptographic state of the channel.
    pub open(crate) spec fn channel(&self) -> ChannelExtension {
        self.channel
    }

    /// Current state of the channel state machine.
    pub open(crate) spec fn state(&self) -> ChannelStateMachine {
        self.state_machine
    }

    /// Connection to the remote peer, once a channel was proposed to it.
    pub open(crate) spec fn remote_peer(&self) -> Option<ServiceId> {
        self.remote_peer
    }

    /// Messages queued for the bus, oldest first.
    pub open(crate) spec fn queued(&self) -> Seq<Envelope> {
        self.outbox@
    }

    /// State which the transition in progress leads to, if one is in progress.
    pub open(crate) spec fn pending(&self) -> Option<ChannelStateMachine> {
        self.pending
    }

    /// Status that is reported for the channel.
    pub open spec fn stage(&self) -> Lifecycle {
        self.state().stage()
    }

    /// No transition is in progress and nothing waits for the bus.
    pub open spec fn is_idle(&self) -> bool {
        self.pending() is None && self.queued().len() == 0
    }

    /// A workflow with the remote peer knows that peer.
    pub open spec fn wf(&self) -> bool {
        &&& self.state() is Propose ==> self.remote_peer() is Some
        &&& self.pending() matches Some(ChannelStateMachine::Propose(_)) ==> self.remote_peer()
            is Some
    }

    /// Everything but the channel is as in `before`.
    pub open spec fn keeps_all_but_channel(&self, before: &Runtime) -> bool {
        &&& self.identity() == before.identity()
        &&& self.state() == before.state()
        &&& self.remote_peer() == before.remote_peer()
        &&& self.queued() == before.queued()
        &&& self.pending() == before.pending()
    }

    /// Runtime of a channel that is about to be launched.
    pub fn new(identity: ServiceId, channel: ChannelExtension) -> (runtime: Runtime)
        ensures
            runtime.identity() == identity,
            runtime.channel() == channel,
            runtime.state() == ChannelStateMachine::Launch,
            runtime.remote_peer() is None,
            runtime.is_idle(),
            runtime.wf(),
    {
        Runtime {
            identity,
            channel,
            state_machine: ChannelStateMachine::Launch,
            remote_peer: None,
            outbox: Vec::new(),
            pending: None,
        }
    }

    pub fn service_id(&self) -> (identity: ServiceId)
        ensures
            identity == self.identity(),
    {
        self.identity
    }

    pub fn state_machine(&self) -> (state: ChannelStateMachine)
        ensures
            state == self.state(),
    {
        self.state_machine
    }

    /// Computes the reported status from the state machine.
    pub fn lifecycle(&self) -> (stage: Lifecycle)
        ensures
            stage == self.stage(),
    {
        self.state_machine.lifecycle()
    }

    pub fn peer(&self) -> (peer: Option<ServiceId>)
        ensures
            peer == self.remote_peer(),
    {
        self.remote_peer
    }

    /// Identifier under which the channel is known at this moment.
    pub fn active_channel_id(&self) -> (id: ActiveChannelId)
        ensures
            id == self.channel().channel_id(),
    {
        self.channel.active_channel_id()
    }

    /// Whether the runtime is in order, as every runtime is that was made by
    /// [`Runtime::new`] and changed by the functions of this crate only.
    pub fn is_well_formed(&self) -> (ok: bool)
        ensures
            ok == self.wf(),
    {
        let state_knows_peer = match self.state_machine {
            ChannelStateMachine::Propose(_) => self.remote_peer.is_some(),
            _ => true,
        };
        let pending_knows_peer = match self.pending {
            Some(ChannelStateMachine::Propose(_)) => self.remote_peer.is_some(),
            _ => true,
        };
        state_knows_peer && pending_knows_peer
    }

    /// Whether the runtime can take an event: no transition is in progress
    /// and no message waits for the bus.
    pub fn is_ready(&self) -> (ready: bool)
        ensures
            ready == self.is_idle(),
    {
        self.pending.is_none() && self.outbox.len() == 0
    }

    /// Whether a transition waits for the bus to take its messages.
    pub fn is_awaiting_delivery(&self) -> (awaiting: bool)
        ensures
            awaiting == self.pending() is Some,
    {
        self.pending.is_some()
    }

    /// Queues a message for a service, behind those already queued.
    pub fn send_to(&mut self, to: ServiceId, message: Request)
        ensures
            final(self).queued() == old(self).queued().push((Envelope { to, message })),
            final(self).identity() == old(self).identity(),
            final(self).channel() == old(self).channel(),
            final(self).state() == old(self).state(),
            final(self).remote_peer() == old(self).remote_peer(),
            final(self).pending() == old(self).pending(),
    {
        self.outbox.push(Envelope { to, message });
    }
}

} // verus!
