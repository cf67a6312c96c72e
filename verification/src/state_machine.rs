//! State machines driven by events from the service bus.

use crate::rpc::ServiceId;
use vstd::prelude::*;

verus! {

/// One message taken from the bus, with the identity of its sender and of
/// the service that received it. An event is made once for each message and
/// consumed by the transition that handles it.
#[derive(Debug)]
pub struct Event<M> {
    /// Message that triggered the event
    pub message: M,
    /// Service that sent the message
    pub source: ServiceId,
    /// Service that received the message and answers for it
    pub service: ServiceId,
}

impl<M> Event<M> {
    /// Constructs the event for a message which `service` received from
    /// `source`.
    pub fn with(service: ServiceId, source: ServiceId, message: M) -> (event: Event<M>)
        ensures
            event.message == message,
            event.source == source,
            event.service == service,
    {
        Event { message, source, service }
    }
}

/// A state of a workflow which events move forward.
///
/// A transition takes the state by value: it gives back the state that
/// follows, or `None` when the workflow is complete, or an error, in which
/// case the workflow stays where it was. Messages which a transition emits are
/// queued with the runtime.
pub trait StateMachine<M, R>: Sized {
    type Error;

    /// What the state needs of the runtime to handle an event.
    spec fn operable(&self, runtime: &R) -> bool;

    fn next(self, event: Event<M>, runtime: &mut R) -> (outcome: Result<Option<Self>, Self::Error>)
        requires
            self.operable(old(runtime)),
    ;
}

} // verus!
