//! Laws which the state machines of a channel obey.

use crate::channel::short_hex;
use crate::rpc::{BusError, CreateChannel, Envelope, Request};
use crate::runtime::Runtime;
use crate::state_machines::channel_propose::ChannelPropose;
use crate::state_machines::{ChannelStateMachine, Error, Outcome, Report, Step};
use vstd::prelude::*;

verus! {

/// Place of a phase in the order of the proposal workflow.
pub open spec fn rank(phase: ChannelPropose) -> nat {
    match phase {
        ChannelPropose::Proposed => 0,
        ChannelPropose::Accepted => 1,
        ChannelPropose::Funding => 2,
        ChannelPropose::Signed => 3,
        ChannelPropose::Funded => 4,
        ChannelPropose::Locked => 5,
    }
}

/// The reported status is a function of the state machine alone: runtimes
/// whose state machines are equal report the same status, whatever else they
/// hold.
pub proof fn law_lifecycle_follows_state(a: Runtime, b: Runtime)
    requires
        a.state() == b.state(),
    ensures
        a.stage() == b.stage(),
{
}

/// The phases of the proposal workflow report different statuses, so the
/// reported status tells the phase.
pub proof fn law_lifecycle_tells_phase(a: ChannelPropose, b: ChannelPropose)
    requires
        a.stage() == b.stage(),
    ensures
        a == b,
{
}

/// The proposal workflow has no back-edges and skips nothing: each phase is
/// followed by the phase next in order, and only the last phase is followed
/// by none.
pub proof fn law_proposal_moves_forward(phase: ChannelPropose)
    ensures
        match phase.successor() {
            Some(next) => rank(next) == rank(phase) + 1,
            None => phase == ChannelPropose::Locked,
        },
{
}

/// From `Proposed`, the requests that the six phases expect, fed in order,
/// take the workflow through all of its phases and then out of the proposal:
/// the channel state machine ends as `Active`.
pub proof fn law_proposal_runs_to_completion(
    accept: Request,
    fund: Request,
    countersign: Request,
    confirm: Request,
    lock: Request,
    acknowledge: Request,
)
    requires
        ChannelPropose::Proposed.expects(accept),
        ChannelPropose::Accepted.expects(fund),
        ChannelPropose::Funding.expects(countersign),
        ChannelPropose::Signed.expects(confirm),
        ChannelPropose::Funded.expects(lock),
        ChannelPropose::Locked.expects(acknowledge),
    ensures
        ({
            let proposed = ChannelStateMachine::Propose(ChannelPropose::Proposed);
            let accepted = ChannelStateMachine::Propose(ChannelPropose::Accepted);
            let funding = ChannelStateMachine::Propose(ChannelPropose::Funding);
            let signed = ChannelStateMachine::Propose(ChannelPropose::Signed);
            let funded = ChannelStateMachine::Propose(ChannelPropose::Funded);
            let locked = ChannelStateMachine::Propose(ChannelPropose::Locked);
            &&& proposed.accepts(accept) && proposed.target() == accepted
            &&& accepted.accepts(fund) && accepted.target() == funding
            &&& funding.accepts(countersign) && funding.target() == signed
            &&& signed.accepts(confirm) && signed.target() == funded
            &&& funded.accepts(lock) && funded.target() == locked
            &&& locked.accepts(acknowledge) && locked.target() == ChannelStateMachine::Active
            &&& !(locked.target() is Propose)
        }),
{
}

/// An event which counts as not handled has left the state machine, and
/// with it the reported status, as they were.
pub proof fn law_unhandled_event_keeps_state(
    before: Runtime,
    request: Request,
    after: Runtime,
    step: Step,
)
    requires
        before.takes(request),
        before.processed(request, after, step),
        step matches Step::Settled(outcome) && outcome.result == Ok::<bool, Error>(false),
    ensures
        after.state() == before.state(),
        after.stage() == before.stage(),
        after.is_idle(),
{
}

/// A request which the current state accepts is handled if and only if the
/// channel takes its message. If the channel refuses it, the event counts as
/// not handled, the state machine stays, and the failure reported carries the
/// code and the text of the channel's refusal. If the channel takes it, or
/// if the transition gives the channel nothing, the event is handled at once,
/// or its messages are given out for delivery.
pub proof fn law_channel_decides_accepted_request(
    before: Runtime,
    request: Request,
    after: Runtime,
    step: Step,
)
    requires
        before.takes(request),
        before.state().accepts(request),
        before.processed(request, after, step),
    ensures
        after.channel() == before.state().channel_after(request, before.channel()),
        match before.state().verdict(request, before.channel()) {
            Err(refusal) => {
                &&& step matches Step::Settled(outcome)
                &&& outcome.result == Ok::<bool, Error>(false)
                &&& outcome.report matches Report::Failure(failure)
                &&& (failure.code == 2001 || failure.code == 2002)
                &&& failure.info@ == refusal.text()
                &&& after.state() == before.state()
            },
            Ok(_) => {
                ||| step matches Step::Settled(outcome) && outcome.result == Ok::<bool, Error>(
                    true,
                ) && after.state() == before.state().target()
                ||| step is Deliver && after.pending() == Some(before.state().target())
            },
        },
{
}

/// A transition which the driver reports as made has taken the state machine
/// to the target of the state it was in, whether the transition was made at
/// once or after the bus took its messages.
pub proof fn law_made_transition_reaches_target(
    before: Runtime,
    request: Request,
    taken: Runtime,
    step: Step,
    after: Runtime,
    outcome: Outcome,
)
    requires
        before.takes(request),
        before.processed(request, taken, step),
        step is Deliver ==> taken.completed(Ok(()), after, outcome),
    ensures
        step matches Step::Settled(settled) ==> (settled.result == Ok::<bool, Error>(true)
            ==> taken.state() == before.state().target()),
        step is Deliver ==> after.state() == before.state().target(),
        step is Deliver ==> outcome.result == Ok::<bool, Error>(true),
{
}

/// A request which the current state does not accept fails in the same way
/// each time it is fed: both times the state machine stays where it was, the
/// event counts as not handled, and the failures reported carry the same code
/// and the same text.
pub proof fn law_refusal_is_idempotent(
    before: Runtime,
    request: Request,
    once: Runtime,
    first: Step,
    twice: Runtime,
    second: Step,
)
    requires
        before.takes(request),
        !before.state().accepts(request),
        before.processed(request, once, first),
        once.processed(request, twice, second),
    ensures
        once.state() == before.state(),
        twice.state() == before.state(),
        ({
            &&& first matches Step::Settled(one)
            &&& second matches Step::Settled(two)
            &&& one.result == Ok::<bool, Error>(false)
            &&& two.result == Ok::<bool, Error>(false)
            &&& one.report matches Report::Failure(failed_once)
            &&& two.report matches Report::Failure(failed_twice)
            &&& failed_once.code == failed_twice.code
            &&& failed_once.info@ == failed_twice.info@
        }),
{
}

/// A message which a phase of the proposal does not expect is rejected as
/// unexpected, with code 1001, and the runtime is left as it was.
pub proof fn law_unexpected_message_is_rejected(
    phase: ChannelPropose,
    request: Request,
    before: Runtime,
    after: Runtime,
    outcome: Result<Option<ChannelPropose>, Error>,
)
    requires
        !phase.expects(request),
        phase.stepped(request, before, after, outcome),
    ensures
        outcome == Err::<Option<ChannelPropose>, Error>(
            Error::UnexpectedMessage(request, phase.stage()),
        ),
        outcome->Err_0.code() == 1001,
        after == before,
{
}

/// When the bus refuses the messages of a transition, the error is that of
/// the bus, the failure reported has code 3001, and the state machine has not
/// moved.
pub proof fn law_bus_failure_is_fatal(
    before: Runtime,
    refusal: BusError,
    after: Runtime,
    outcome: Outcome,
)
    requires
        before.completed(Err(refusal), after, outcome),
    ensures
        outcome.result == Err::<bool, Error>(Error::Bus(refusal)),
        outcome.report matches Report::Failure(failure) && failure.code == 3001,
        after.state() == before.state(),
        after.is_idle(),
{
}

/// A launched runtime which is asked to open a channel with a sound proposal,
/// and whose channel takes it, hands the `open_channel` message to the peer
/// that the request names, after the channel was given that message once. Once the bus took the message, the
/// channel is proposed, and the progress reported names the temporary id of
/// the proposal.
pub proof fn law_launch_proposes_channel(
    before: Runtime,
    create: CreateChannel,
    taken: Runtime,
    step: Step,
    after: Runtime,
    outcome: Outcome,
)
    requires
        before.takes(Request::OpenChannelWith(create)),
        before.state() == ChannelStateMachine::Launch,
        ChannelPropose::proposable(create),
        before.processed(Request::OpenChannelWith(create), taken, step),
        before.channel().verdict(create.channel_req) is Ok,
        taken.completed(Ok(()), after, outcome),
    ensures
        taken.channel() == before.channel().updated(create.channel_req),
        after.channel() == taken.channel(),
        step matches Step::Deliver(envelopes) && envelopes@ == seq![
            (Envelope { to: create.peerd, message: Request::PeerMessage(create.channel_req) }),
        ],
        taken.state() == ChannelStateMachine::Launch,
        after.state() == ChannelStateMachine::Propose(ChannelPropose::Proposed),
        outcome.result == Ok::<bool, Error>(true),
        outcome.report matches Report::Progress(text) && text@
            == "Proposing remote peer to open a channel with temp id "@ + short_hex(
            create.channel_req.kind()->temporary_channel_id@,
        ),
{
}

} // verus!
