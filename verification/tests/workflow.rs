use amplify::{DumbDefault, Slice32, Wrapper};
use bitcoin::secp256k1::ecdsa::Signature;
use bitcoin::Txid;
use channeld::channel::{ActiveChannelId, ChannelExtension};
use channeld::lifecycle::Lifecycle;
use channeld::rpc::{BusError, CreateChannel, Envelope, MessageKind, PeerMessage, Request, ServiceId};
use channeld::runtime::Runtime;
use channeld::state_machine::{Event, StateMachine};
use channeld::state_machines::channel_propose::{
    finish_accepted, finish_funded, finish_funding, finish_locked, finish_proposed, finish_signed,
    settle, ChannelPropose,
};
use channeld::state_machines::{ChannelStateMachine, Error, Outcome, Report, Step};
use channeld::ChannelError;
use lnp::p2p::legacy::{
    AcceptChannel, ChannelId, FundingCreated, FundingLocked, FundingSigned, Messages, OpenChannel,
    TempChannelId,
};

const TEMP_ID: [u8; 32] = [
    0x01, 0x23, 0x45, 0x67, 0x89, 0xab, 0xcd, 0xef, 0, 0, 0, 0, 0, 0, 0, 0, 0, 0, 0, 0, 0, 0, 0, 0,
    0, 0, 0, 0, 0xfe, 0xdc, 0xba, 0x98,
];

fn daemon() -> ServiceId {
    ServiceId::Channel(TEMP_ID)
}

fn client() -> ServiceId {
    ServiceId::Client(7)
}

fn peer() -> ServiceId {
    ServiceId::Peer([2u8; 33])
}

fn open_channel() -> OpenChannel {
    let mut open = OpenChannel::dumb_default();
    open.temporary_channel_id = TempChannelId::from_inner(Slice32::from_inner(TEMP_ID));
    open.funding_satoshis = 1_000_000;
    open.push_msat = 0;
    open.dust_limit_satoshis = 354;
    open.max_htlc_value_in_flight_msat = 1_000_000_000;
    open.channel_reserve_satoshis = 10_000;
    open.htlc_minimum_msat = 1;
    open.feerate_per_kw = 10;
    open.to_self_delay = 6;
    open.max_accepted_htlcs = 100;
    open
}

fn accept_channel() -> AcceptChannel {
    let mut accept = AcceptChannel::dumb_default();
    accept.temporary_channel_id = TempChannelId::from_inner(Slice32::from_inner(TEMP_ID));
    accept.dust_limit_satoshis = 354;
    accept.max_htlc_value_in_flight_msat = 1_000_000_000;
    accept.channel_reserve_satoshis = 10_000;
    accept.htlc_minimum_msat = 1;
    accept.minimum_depth = 3;
    accept.to_self_delay = 6;
    accept.max_accepted_htlcs = 100;
    accept
}

fn signature() -> Signature {
    let mut compact = [0u8; 64];
    compact[31] = 1;
    compact[63] = 1;
    Signature::from_compact(&compact).expect("r = s = 1 is a signature")
}

fn funding_txid() -> Txid {
    bitcoin::hashes::Hash::from_inner([0x11u8; 32])
}

fn final_id() -> ChannelId {
    ChannelId::with(funding_txid(), 1)
}

fn funding_created() -> Messages {
    Messages::FundingCreated(FundingCreated {
        temporary_channel_id: TempChannelId::from_inner(Slice32::from_inner(TEMP_ID)),
        funding_txid: funding_txid(),
        funding_output_index: 1,
        signature: signature(),
    })
}

fn funding_signed() -> Messages {
    Messages::FundingSigned(FundingSigned { channel_id: final_id(), signature: signature() })
}

fn funding_locked() -> Messages {
    Messages::FundingLocked(FundingLocked {
        channel_id: final_id(),
        next_per_commitment_point: OpenChannel::dumb_default().funding_pubkey,
    })
}

fn open_request() -> Request {
    Request::OpenChannelWith(CreateChannel {
        channel_req: PeerMessage::new(Messages::OpenChannel(open_channel())),
        peerd: peer(),
    })
}

fn from_peer(message: Messages) -> Request {
    Request::PeerMessage(PeerMessage::new(message))
}

fn launched() -> Runtime {
    Runtime::new(daemon(), ChannelExtension::new())
}

fn settled(step: Step) -> Outcome {
    match step {
        Step::Settled(outcome) => outcome,
        Step::Deliver(envelopes) => panic!("asked to deliver {:?}", envelopes),
    }
}

fn delivered(runtime: &mut Runtime, step: Step) -> (Vec<Envelope>, Outcome) {
    match step {
        Step::Deliver(envelopes) => {
            assert!(runtime.is_awaiting_delivery());
            let outcome = runtime.complete(Ok(()));
            (envelopes, outcome)
        }
        Step::Settled(outcome) => panic!("settled with {:?}", outcome),
    }
}

fn progress(outcome: Outcome) -> String {
    assert!(matches!(outcome.result, Ok(true)));
    match outcome.report {
        Report::Progress(text) => text,
        Report::Failure(failure) => panic!("failed with {:?}", failure),
    }
}

fn failure_code(outcome: &Outcome) -> u16 {
    match &outcome.report {
        Report::Failure(failure) => failure.code,
        Report::Progress(text) => panic!("progress {}", text),
    }
}

fn at(phase: ChannelPropose) -> Runtime {
    let mut runtime = launched();
    let step = runtime.process(client(), open_request());
    delivered(&mut runtime, step);
    let feed: Vec<(ChannelPropose, Request)> = vec![
        (ChannelPropose::Proposed, from_peer(Messages::AcceptChannel(accept_channel()))),
        (ChannelPropose::Accepted, Request::FundingConstructed(PeerMessage::new(funding_created()))),
        (ChannelPropose::Funding, from_peer(funding_signed())),
        (ChannelPropose::Signed, Request::FundingConfirmed),
        (ChannelPropose::Funded, from_peer(funding_locked())),
    ];
    for (from, request) in feed {
        if runtime.state_machine() == ChannelStateMachine::Propose(phase) {
            return runtime;
        }
        assert_eq!(runtime.state_machine(), ChannelStateMachine::Propose(from));
        let step = runtime.process(peer(), request);
        if from == ChannelPropose::Accepted {
            delivered(&mut runtime, step);
        } else {
            assert!(matches!(settled(step).result, Ok(true)));
        }
    }
    assert_eq!(runtime.state_machine(), ChannelStateMachine::Propose(phase));
    runtime
}

#[test]
fn launch_proposes_channel_to_peer() {
    let mut runtime = launched();
    assert_eq!(runtime.state_machine(), ChannelStateMachine::Launch);
    assert_eq!(runtime.lifecycle(), Lifecycle::Initial);

    let step = runtime.process(client(), open_request());
    // nothing moves until the bus has taken the message
    assert_eq!(runtime.state_machine(), ChannelStateMachine::Launch);
    let (envelopes, outcome) = delivered(&mut runtime, step);

    assert_eq!(envelopes.len(), 1);
    assert_eq!(envelopes[0].to, peer());
    match &envelopes[0].message {
        Request::PeerMessage(message) => match message.as_wire() {
            Messages::OpenChannel(sent) => assert_eq!(sent, &open_channel()),
            other => panic!("sent {}", other),
        },
        other => panic!("sent {:?}", other),
    }
    assert_eq!(
        progress(outcome),
        "Proposing remote peer to open a channel with temp id 01234567..fedcba98"
    );
    assert_eq!(runtime.state_machine(), ChannelStateMachine::Propose(ChannelPropose::Proposed));
    assert_eq!(runtime.lifecycle(), Lifecycle::Proposed);
    assert_eq!(runtime.peer(), Some(peer()));
    assert_eq!(runtime.active_channel_id(), ActiveChannelId::Temporary(TEMP_ID));
    assert!(!runtime.is_awaiting_delivery());
}

#[test]
fn funded_rejects_other_than_funding_locked() {
    let mut runtime = at(ChannelPropose::Funded);
    let outcome = settled(runtime.process(peer(), from_peer(funding_signed())));
    assert!(matches!(outcome.result, Ok(false)));
    assert_eq!(failure_code(&outcome), 1001);
    assert_eq!(runtime.state_machine(), ChannelStateMachine::Propose(ChannelPropose::Funded));
    assert_eq!(runtime.lifecycle(), Lifecycle::Funded);
}

#[test]
fn valid_sequence_completes_proposal() {
    let mut runtime = launched();
    let step = runtime.process(client(), open_request());
    delivered(&mut runtime, step);
    assert_eq!(runtime.lifecycle(), Lifecycle::Proposed);

    let outcome = settled(runtime.process(peer(), from_peer(Messages::AcceptChannel(accept_channel()))));
    assert_eq!(progress(outcome), "Remote peer accepted the channel with temp id 01234567..fedcba98");
    assert_eq!(runtime.lifecycle(), Lifecycle::Accepted);

    let step = runtime.process(
        ServiceId::Lnpd,
        Request::FundingConstructed(PeerMessage::new(funding_created())),
    );
    assert_eq!(runtime.lifecycle(), Lifecycle::Accepted);
    let (envelopes, _) = delivered(&mut runtime, step);
    assert_eq!(envelopes.len(), 1);
    assert_eq!(envelopes[0].to, peer());
    assert!(matches!(
        &envelopes[0].message,
        Request::PeerMessage(message) if message.classify() == MessageKind::FundingCreated
    ));
    assert_eq!(runtime.lifecycle(), Lifecycle::Funding);

    assert!(matches!(settled(runtime.process(peer(), from_peer(funding_signed()))).result, Ok(true)));
    assert_eq!(runtime.lifecycle(), Lifecycle::Signed);

    assert!(matches!(settled(runtime.process(ServiceId::Lnpd, Request::FundingConfirmed)).result, Ok(true)));
    assert_eq!(runtime.lifecycle(), Lifecycle::Funded);

    assert!(matches!(settled(runtime.process(peer(), from_peer(funding_locked()))).result, Ok(true)));
    assert_eq!(runtime.lifecycle(), Lifecycle::Locked);
    assert_eq!(runtime.state_machine(), ChannelStateMachine::Propose(ChannelPropose::Locked));

    let outcome = settled(runtime.process(ServiceId::Lnpd, Request::LockAcknowledged));
    assert_eq!(progress(outcome), "Operating active channel");
    assert_eq!(runtime.state_machine(), ChannelStateMachine::Active);
    assert_eq!(runtime.lifecycle(), Lifecycle::Active);
}

#[test]
fn channel_learns_its_final_id_from_funding() {
    let runtime = at(ChannelPropose::Funding);
    assert_eq!(
        runtime.active_channel_id(),
        ActiveChannelId::Static(final_id().into_inner().into_inner())
    );
}

#[test]
fn same_invalid_message_fails_the_same_way_twice() {
    let mut runtime = at(ChannelPropose::Proposed);
    let first = settled(runtime.process(peer(), from_peer(funding_locked())));
    assert_eq!(runtime.state_machine(), ChannelStateMachine::Propose(ChannelPropose::Proposed));
    let second = settled(runtime.process(peer(), from_peer(funding_locked())));
    assert_eq!(runtime.state_machine(), ChannelStateMachine::Propose(ChannelPropose::Proposed));
    assert!(matches!(first.result, Ok(false)));
    assert!(matches!(second.result, Ok(false)));
    assert_eq!(failure_code(&first), 1001);
    assert_eq!(failure_code(&second), 1001);
    match (first.report, second.report) {
        (Report::Failure(one), Report::Failure(two)) => assert_eq!(one, two),
        other => panic!("reported {:?}", other),
    }
}

#[test]
fn bus_failure_at_launch_is_fatal() {
    let mut runtime = launched();
    let step = runtime.process(client(), open_request());
    assert!(matches!(step, Step::Deliver(_)));
    let outcome = runtime.complete(Err(BusError { details: "no route to peer".to_string() }));
    match &outcome.result {
        Err(Error::Bus(error)) => assert_eq!(error.details, "no route to peer"),
        other => panic!("resulted in {:?}", other),
    }
    match &outcome.report {
        Report::Failure(failure) => {
            assert_eq!(failure.code, 3001);
            assert_eq!(
                failure.info,
                "error sending RPC request during state transition. Details: no route to peer"
            );
        }
        other => panic!("reported {:?}", other),
    }
    assert_eq!(runtime.state_machine(), ChannelStateMachine::Launch);
    assert!(!runtime.is_awaiting_delivery());
}

#[test]
fn bus_failure_while_funding_is_fatal() {
    let mut runtime = at(ChannelPropose::Accepted);
    let step = runtime.process(
        ServiceId::Lnpd,
        Request::FundingConstructed(PeerMessage::new(funding_created())),
    );
    assert!(matches!(step, Step::Deliver(_)));
    let outcome = runtime.complete(Err(BusError { details: "socket closed".to_string() }));
    assert!(matches!(outcome.result, Err(Error::Bus(_))));
    assert_eq!(failure_code(&outcome), 3001);
    assert_eq!(runtime.state_machine(), ChannelStateMachine::Propose(ChannelPropose::Accepted));
    assert_eq!(runtime.lifecycle(), Lifecycle::Accepted);
}

#[test]
fn every_phase_rejects_what_it_does_not_expect() {
    let phases = [
        (ChannelPropose::Proposed, "PROPOSED"),
        (ChannelPropose::Accepted, "ACCEPTED"),
        (ChannelPropose::Funding, "FUNDING"),
        (ChannelPropose::Signed, "SIGNED"),
        (ChannelPropose::Funded, "FUNDED"),
        (ChannelPropose::Locked, "LOCKED"),
    ];
    for (phase, tag) in phases {
        let mut runtime = at(phase);
        let outcome = settled(runtime.process(peer(), from_peer(Messages::Pong(vec![1, 2, 3]))));
        assert!(matches!(outcome.result, Ok(false)));
        match outcome.report {
            Report::Failure(failure) => {
                assert_eq!(failure.code, 1001);
                assert_eq!(
                    failure.info,
                    format!(
                        "unexpected message for a channel state {}. Message details: send_message(pong(...))",
                        tag
                    )
                );
            }
            other => panic!("reported {:?}", other),
        }
        assert_eq!(runtime.state_machine(), ChannelStateMachine::Propose(phase));
    }
}

#[test]
fn next_returns_the_offending_message() {
    let mut runtime = at(ChannelPropose::Signed);
    let event = Event::with(runtime.service_id(), peer(), from_peer(funding_locked()));
    match ChannelPropose::Signed.next(event, &mut runtime) {
        Err(Error::UnexpectedMessage(Request::PeerMessage(message), stage)) => {
            assert_eq!(message.classify(), MessageKind::FundingLocked);
            assert_eq!(stage, Lifecycle::Signed);
        }
        other => panic!("resulted in {:?}", other),
    }
    assert_eq!(runtime.state_machine(), ChannelStateMachine::Propose(ChannelPropose::Signed));
}

#[test]
fn next_signals_completion_with_none() {
    let mut runtime = at(ChannelPropose::Locked);
    let event = Event::with(runtime.service_id(), ServiceId::Lnpd, Request::LockAcknowledged);
    assert!(matches!(ChannelPropose::Locked.next(event, &mut runtime), Ok(None)));
    let event = Event::with(runtime.service_id(), ServiceId::Lnpd, Request::FundingConfirmed);
    assert!(matches!(
        ChannelPropose::Signed.next(event, &mut runtime),
        Ok(Some(ChannelPropose::Funded))
    ));
}

#[test]
fn transitions_take_only_their_own_trigger() {
    let mut runtime = at(ChannelPropose::Proposed);
    let id = runtime.service_id();
    assert!(matches!(
        finish_proposed(
            Event::with(id, peer(), from_peer(Messages::AcceptChannel(accept_channel()))),
            &mut runtime
        ),
        Ok(ChannelPropose::Accepted)
    ));
    assert!(matches!(
        finish_proposed(Event::with(id, peer(), Request::FundingConfirmed), &mut runtime),
        Err(Error::UnexpectedMessage(Request::FundingConfirmed, Lifecycle::Proposed))
    ));
    assert!(matches!(
        finish_accepted(
            Event::with(id, peer(), Request::FundingConstructed(PeerMessage::new(funding_created()))),
            &mut runtime
        ),
        Ok(ChannelPropose::Funding)
    ));
    assert!(matches!(
        finish_accepted(
            Event::with(id, peer(), Request::FundingConstructed(PeerMessage::new(funding_signed()))),
            &mut runtime
        ),
        Err(Error::UnexpectedMessage(Request::FundingConstructed(_), Lifecycle::Accepted))
    ));
    assert!(matches!(
        finish_funding(Event::with(id, peer(), from_peer(funding_signed())), &mut runtime),
        Ok(ChannelPropose::Signed)
    ));
    assert!(matches!(
        finish_funding(Event::with(id, peer(), from_peer(funding_created())), &mut runtime),
        Err(Error::UnexpectedMessage(Request::PeerMessage(_), Lifecycle::Funding))
    ));
    assert!(matches!(
        finish_signed(Event::with(id, peer(), Request::FundingConfirmed), &mut runtime),
        Ok(ChannelPropose::Funded)
    ));
    assert!(matches!(
        finish_signed(Event::with(id, peer(), Request::LockAcknowledged), &mut runtime),
        Err(Error::UnexpectedMessage(Request::LockAcknowledged, Lifecycle::Signed))
    ));
    assert!(matches!(
        finish_funded(Event::with(id, peer(), from_peer(funding_locked())), &mut runtime),
        Ok(ChannelPropose::Locked)
    ));
    assert!(matches!(
        finish_funded(Event::with(id, peer(), open_request()), &mut runtime),
        Err(Error::UnexpectedMessage(Request::OpenChannelWith(_), Lifecycle::Funded))
    ));
    assert!(matches!(
        finish_locked(Event::with(id, peer(), Request::LockAcknowledged), &mut runtime),
        Ok(())
    ));
    assert!(matches!(
        finish_locked(Event::with(id, peer(), from_peer(funding_locked())), &mut runtime),
        Err(Error::UnexpectedMessage(Request::PeerMessage(_), Lifecycle::Locked))
    ));
}

#[test]
fn settle_follows_the_verdict_of_the_channel() {
    assert!(matches!(settle(Ok(()), ChannelPropose::Signed), Ok(ChannelPropose::Signed)));
    match settle(Err(ChannelError::Htlc("too many".to_string())), ChannelPropose::Signed) {
        Err(Error::Channel(ChannelError::Htlc(details))) => assert_eq!(details, "too many"),
        other => panic!("settled as {:?}", other),
    }
}

#[test]
fn channel_policy_refusal_is_reported_and_survived() {
    let mut runtime = launched();
    let mut open = open_channel();
    open.feerate_per_kw = 0;
    let request = Request::OpenChannelWith(CreateChannel {
        channel_req: PeerMessage::new(Messages::OpenChannel(open)),
        peerd: peer(),
    });
    let outcome = settled(runtime.process(client(), request));
    assert!(matches!(outcome.result, Ok(false)));
    assert_eq!(failure_code(&outcome), 2001);
    // the failure says what the channel said
    let mut refused = open_channel();
    refused.feerate_per_kw = 0;
    let said = ChannelExtension::new()
        .update_from_peer(&PeerMessage::new(Messages::OpenChannel(refused)))
        .expect_err("a fee rate of 0 is against the policy");
    match &outcome.report {
        Report::Failure(failure) => assert_eq!(failure.info, said.describe()),
        other => panic!("reported {:?}", other),
    }
    assert_eq!(runtime.state_machine(), ChannelStateMachine::Launch);
    assert!(!runtime.is_awaiting_delivery());

    // the channel is alive: a sound proposal goes through afterwards
    let step = runtime.process(client(), open_request());
    delivered(&mut runtime, step);
    assert_eq!(runtime.lifecycle(), Lifecycle::Proposed);
}

#[test]
fn accept_channel_against_policy_leaves_phase() {
    let mut runtime = at(ChannelPropose::Proposed);
    let mut accept = accept_channel();
    accept.minimum_depth = 100;
    let outcome = settled(runtime.process(peer(), from_peer(Messages::AcceptChannel(accept))));
    assert!(matches!(outcome.result, Ok(false)));
    assert_eq!(failure_code(&outcome), 2001);
    assert_eq!(runtime.state_machine(), ChannelStateMachine::Propose(ChannelPropose::Proposed));
}

#[test]
fn proposal_without_open_channel_is_malformed() {
    let mut runtime = launched();
    let request = Request::OpenChannelWith(CreateChannel {
        channel_req: PeerMessage::new(Messages::AcceptChannel(accept_channel())),
        peerd: peer(),
    });
    let outcome = settled(runtime.process(client(), request));
    assert!(matches!(outcome.result, Ok(false)));
    match outcome.report {
        Report::Failure(failure) => {
            assert_eq!(failure.code, 2001);
            assert_eq!(failure.info, "channel proposal is not a well-formed open_channel message");
        }
        other => panic!("reported {:?}", other),
    }
    assert_eq!(runtime.state_machine(), ChannelStateMachine::Launch);
    assert_eq!(runtime.peer(), None);
}

#[test]
fn proposal_pushing_more_than_funding_is_malformed() {
    for (funding_satoshis, push_msat) in [(1_000u64, 1_000_001u64), (u64::MAX / 1000 + 1, 0)] {
        let mut runtime = launched();
        let mut open = open_channel();
        open.funding_satoshis = funding_satoshis;
        open.push_msat = push_msat;
        let event = Event::with(
            daemon(),
            client(),
            Request::OpenChannelWith(CreateChannel {
                channel_req: PeerMessage::new(Messages::OpenChannel(open)),
                peerd: peer(),
            }),
        );
        match ChannelPropose::with(event, &mut runtime) {
            Err(Error::Channel(ChannelError::Extension(details))) => {
                assert_eq!(details, "channel proposal is not a well-formed open_channel message")
            }
            other => panic!("resulted in {:?}", other),
        }
        assert_eq!(runtime.peer(), None);
    }
}

#[test]
fn with_queues_open_channel_and_remembers_peer() {
    let mut runtime = launched();
    let event = Event::with(daemon(), client(), open_request());
    assert!(matches!(ChannelPropose::with(event, &mut runtime), Ok(ChannelPropose::Proposed)));
    assert_eq!(runtime.peer(), Some(peer()));
    assert_eq!(runtime.state_machine(), ChannelStateMachine::Launch);
}

#[test]
fn process_event_keeps_transition_aside() {
    let mut runtime = at(ChannelPropose::Signed);
    let event = Event::with(runtime.service_id(), ServiceId::Lnpd, Request::FundingConfirmed);
    assert!(runtime.process_event(event).is_ok());
    assert!(runtime.is_awaiting_delivery());
    assert_eq!(runtime.state_machine(), ChannelStateMachine::Propose(ChannelPropose::Signed));
    let outcome = runtime.complete(Ok(()));
    assert!(matches!(outcome.result, Ok(true)));
    assert_eq!(runtime.state_machine(), ChannelStateMachine::Propose(ChannelPropose::Funded));
}

#[test]
fn process_event_fails_without_moving() {
    let mut runtime = at(ChannelPropose::Signed);
    let event = Event::with(runtime.service_id(), ServiceId::Lnpd, Request::LockAcknowledged);
    assert!(matches!(
        runtime.process_event(event),
        Err(Error::UnexpectedMessage(Request::LockAcknowledged, Lifecycle::Signed))
    ));
    assert!(!runtime.is_awaiting_delivery());
    assert_eq!(runtime.state_machine(), ChannelStateMachine::Propose(ChannelPropose::Signed));
}

#[test]
fn active_channel_takes_no_request_yet() {
    let mut runtime = at(ChannelPropose::Locked);
    assert!(matches!(settled(runtime.process(ServiceId::Lnpd, Request::LockAcknowledged)).result, Ok(true)));
    assert_eq!(runtime.state_machine(), ChannelStateMachine::Active);
    let outcome = settled(runtime.process(peer(), from_peer(funding_locked())));
    assert!(matches!(outcome.result, Ok(false)));
    match outcome.report {
        Report::Failure(failure) => {
            assert_eq!(failure.code, 1001);
            assert!(failure.info.starts_with("unexpected message for a channel state ACTIVE. "));
        }
        other => panic!("reported {:?}", other),
    }
    assert_eq!(runtime.state_machine(), ChannelStateMachine::Active);
}

#[test]
fn lifecycle_is_the_same_when_asked_twice() {
    let runtime = at(ChannelPropose::Funding);
    assert_eq!(runtime.lifecycle(), runtime.lifecycle());
    assert_eq!(runtime.state_machine().lifecycle(), runtime.lifecycle());
    assert_eq!(runtime.lifecycle(), Lifecycle::Funding);
}

#[test]
fn event_keeps_message_and_identities() {
    let event = Event::with(daemon(), client(), 5u8);
    assert_eq!(event.message, 5);
    assert_eq!(event.source, client());
    assert_eq!(event.service, daemon());
}

#[test]
fn send_to_queues_for_delivery() {
    let mut runtime = at(ChannelPropose::Signed);
    runtime.send_to(client(), Request::FundingConfirmed);
    let event = Event::with(runtime.service_id(), ServiceId::Lnpd, Request::FundingConfirmed);
    assert!(finish_signed(event, &mut runtime).is_ok());
}
