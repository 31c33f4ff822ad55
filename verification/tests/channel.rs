use slim_channel::channel::ChannelEndpoint;
use slim_channel::encoder::{Agent, AgentType, DEFAULT_AGENT_ID};
use slim_channel::endpoint::Endpoint;
use slim_channel::kinds::{ProtoSessionType, SessionMessageType};
use slim_channel::message::ProtoMessage;
use slim_channel::mls::MlsState;
use slim_channel::moderator::ChannelModerator;
use slim_channel::participant::ChannelParticipant;
use slim_channel::payload::JoinMessagePayload;
use slim_channel::proto::{SessionHeader, SlimHeader, SlimHeaderFlags};
use slim_channel::session::{
    AddedMember, MlsRequest, Next, Outcome, SessionError, Step, TimerOp, METADATA_MLS_ENABLED,
    METADATA_MLS_INIT_COMMIT_ID,
};
use std::time::Duration;

const SESSION_ID: u32 = 10;
const CONN: u64 = 1;

fn moderator_name() -> Agent {
    Agent::from_strings("org", "default", "moderator", 12345)
}

fn participant_name() -> Agent {
    Agent::from_strings("org", "default", "participant", 5120)
}

fn channel_name() -> AgentType {
    AgentType::from_strings("channel", "channel", "channel")
}

fn new_moderator(mls: bool) -> ChannelModerator {
    ChannelModerator::new(
        moderator_name(),
        channel_name(),
        Some(1234),
        SESSION_ID,
        ProtoSessionType::SessionUnknown,
        3,
        Duration::from_millis(100),
        if mls { Some(MlsState::new(Ok(())).unwrap()) } else { None },
    )
}

fn new_participant(mls: bool) -> ChannelParticipant {
    ChannelParticipant::new(
        participant_name(),
        channel_name(),
        Some(1234),
        SESSION_ID,
        ProtoSessionType::SessionUnknown,
        if mls { Some(MlsState::new(Ok(())).unwrap()) } else { None },
    )
}

/// What an engine that never fails answers.
fn engine(request: MlsRequest) -> Outcome {
    match request {
        MlsRequest::CreateGroup => Outcome::GroupCreated(Ok(())),
        MlsRequest::GenerateKeyPackage => Outcome::KeyPackage(Ok(vec![1, 2, 3])),
        MlsRequest::ProcessWelcome(w) => {
            assert_eq!(w, vec![20, 21]);
            Outcome::WelcomeProcessed(Ok(vec![9, 9]))
        }
        MlsRequest::ProcessCommit(_) => Outcome::CommitProcessed(Ok(())),
        MlsRequest::AddMember(package) => {
            assert_eq!(package, vec![1, 2, 3]);
            Outcome::MemberAdded(Ok(AddedMember {
                commit_message: vec![10, 11],
                welcome_message: vec![20, 21],
                member_identity: vec![30, 31],
            }))
        }
        MlsRequest::RemoveMember(identity) => {
            assert_eq!(identity, vec![30, 31]);
            Outcome::MemberRemoved(Ok(vec![40, 41]))
        }
    }
}

/// An engine that always fails.
fn broken_engine(request: MlsRequest) -> Outcome {
    let e = "engine failure".to_string();
    match request {
        MlsRequest::CreateGroup => Outcome::GroupCreated(Err(e)),
        MlsRequest::GenerateKeyPackage => Outcome::KeyPackage(Err(e)),
        MlsRequest::ProcessWelcome(_) => Outcome::WelcomeProcessed(Err(e)),
        MlsRequest::ProcessCommit(_) => Outcome::CommitProcessed(Err(e)),
        MlsRequest::AddMember(_) => Outcome::MemberAdded(Err(e)),
        MlsRequest::RemoveMember(_) => Outcome::MemberRemoved(Err(e)),
    }
}

struct Run {
    sent: Vec<ProtoMessage>,
    timers: Vec<TimerOp>,
    result: Result<(), SessionError>,
}

/// Runs a participant to the end. The message with a given number cannot be sent.
fn run_participant(
    cp: &mut ChannelParticipant,
    msg: ProtoMessage,
    engine: fn(MlsRequest) -> Outcome,
    unsendable: Option<usize>,
) -> Run {
    let mut run = Run { sent: vec![], timers: vec![], result: Ok(()) };
    let mut step = cp.on_message(msg).unwrap();
    loop {
        run.timers.append(&mut step.timers);
        let outcome = match step.next {
            Next::Send(_) if unsendable == Some(run.sent.len()) => {
                Outcome::Sent(Err(SessionError::Processing("no connection".to_string())))
            }
            Next::Send(m) => {
                run.sent.push(m);
                Outcome::Sent(Ok(()))
            }
            Next::Mls(request) => engine(request),
            Next::Finish(result) => {
                run.result = result;
                return run;
            }
        };
        step = cp.resume(outcome).unwrap();
    }
}

fn follow_moderator(
    cm: &mut ChannelModerator,
    first: Step,
    engine: fn(MlsRequest) -> Outcome,
    unsendable: Option<usize>,
) -> Run {
    let mut run = Run { sent: vec![], timers: vec![], result: Ok(()) };
    let mut step = first;
    loop {
        run.timers.append(&mut step.timers);
        let outcome = match step.next {
            Next::Send(_) if unsendable == Some(run.sent.len()) => {
                Outcome::Sent(Err(SessionError::Processing("no connection".to_string())))
            }
            Next::Send(m) => {
                run.sent.push(m);
                Outcome::Sent(Ok(()))
            }
            Next::Mls(request) => engine(request),
            Next::Finish(result) => {
                run.result = result;
                return run;
            }
        };
        step = cm.resume(outcome).unwrap();
    }
}

/// Runs a moderator to the end. The message with a given number cannot be sent.
fn run_moderator(
    cm: &mut ChannelModerator,
    msg: ProtoMessage,
    engine: fn(MlsRequest) -> Outcome,
    unsendable: Option<usize>,
) -> Run {
    let first = cm.on_message(msg).unwrap();
    follow_moderator(cm, first, engine, unsendable)
}

/// A control message as it comes in on a connection.
fn control(
    source: &Agent,
    destination: &Agent,
    kind: SessionMessageType,
    id: u32,
    payload: Vec<u8>,
) -> ProtoMessage {
    let flags = SlimHeaderFlags::default().with_incoming_conn(CONN);
    ProtoMessage::new_publish_with_headers(
        Some(SlimHeader::new(
            source,
            destination.agent_type(),
            destination.agent_id_option(),
            Some(flags),
        )),
        Some(SessionHeader::new(
            ProtoSessionType::SessionUnknown.into(),
            kind.into(),
            SESSION_ID,
            id,
        )),
        "",
        payload,
    )
}

fn started(timers: &[TimerOp]) -> Vec<u32> {
    timers
        .iter()
        .filter_map(|t| match t {
            TimerOp::Start { key, .. } => Some(*key),
            TimerOp::Stop { .. } => None,
        })
        .collect()
}

fn stopped(timers: &[TimerOp]) -> Vec<u32> {
    timers
        .iter()
        .filter_map(|t| match t {
            TimerOp::Start { .. } => None,
            TimerOp::Stop { key } => Some(*key),
        })
        .collect()
}

#[test]
fn test_full_join_and_leave() {
    let moderator = Agent::from_strings("org", "default", "moderator", 12345);
    let participant = Agent::from_strings("org", "default", "participant", 5120);
    let channel_name = AgentType::from_strings("channel", "channel", "channel");
    let channel_id = Some(1234_u64);
    let conn = 1;

    let moderator_mls = MlsState::new(Ok(())).unwrap();
    let participant_mls = MlsState::new(Ok(())).unwrap();

    let mut cm = ChannelModerator::new(
        moderator.clone(),
        channel_name.clone(),
        channel_id,
        SESSION_ID,
        ProtoSessionType::SessionUnknown,
        3,
        Duration::from_millis(100),
        Some(moderator_mls),
    );
    let mut cp = ChannelParticipant::new(
        participant.clone(),
        channel_name.clone(),
        channel_id,
        SESSION_ID,
        ProtoSessionType::SessionUnknown,
        Some(participant_mls),
    );

    // create a discovery request
    let flags = SlimHeaderFlags::default().with_incoming_conn(conn);

    let slim_header = Some(SlimHeader::new(
        &moderator,
        participant.agent_type(),
        None,
        Some(flags),
    ));

    let session_header = Some(SessionHeader::new(
        ProtoSessionType::SessionUnknown.into(),
        SessionMessageType::ChannelDiscoveryRequest.into(),
        SESSION_ID,
        rand::random::<u32>(),
    ));
    let t = moderator.agent_type();
    let payload: Vec<u8> = bincode::encode_to_vec(
        (
            (
                t.organization(),
                t.namespace(),
                t.agent_type(),
                Some(("org", "default", "moderator")),
            ),
            12345_u64,
        ),
        bincode::config::standard(),
    )
    .unwrap();
    let request = ProtoMessage::new_publish_with_headers(slim_header, session_header, "", payload);

    // receive the request at the session layer
    let run = run_moderator(&mut cm, request.clone(), engine, None);
    run.result.unwrap();

    // the request is forwarded to slim
    let mut moderator_rx = run.sent.into_iter();
    let msg = moderator_rx.next().unwrap();
    assert_eq!(request, msg);

    // this message is handled by the session layer itself
    // so we can create a reply and send it back to the moderator
    let destination = msg.get_source();
    let msg_id = msg.get_id();
    let session_id = msg.get_session_header().get_session_id();

    let slim_header = Some(SlimHeader::new(
        &participant,
        destination.agent_type(),
        destination.agent_id_option(),
        Some(SlimHeaderFlags::default().with_forward_to(msg.get_incoming_conn())),
    ));

    let session_header = Some(SessionHeader::new(
        ProtoSessionType::SessionUnknown.into(),
        SessionMessageType::ChannelDiscoveryReply.into(),
        session_id,
        msg_id,
    ));

    let mut msg = ProtoMessage::new_publish_with_headers(slim_header, session_header, "", vec![]);

    // message reception on moderator side
    msg.set_incoming_conn(Some(conn));
    let run = run_moderator(&mut cm, msg, engine, None);
    run.result.unwrap();
    let mut moderator_rx = run.sent.into_iter();

    // the first message is the subscription for the channel name
    let header = Some(SlimHeaderFlags::default().with_forward_to(conn));
    let sub = ProtoMessage::new_subscribe(&moderator, &channel_name, None, header);
    let msg = moderator_rx.next().unwrap();
    assert_eq!(msg, sub);

    // then we have the set route for the channel name
    let header = Some(SlimHeaderFlags::default().with_recv_from(conn));
    let sub = ProtoMessage::new_subscribe(&moderator, &channel_name, None, header);
    let msg = moderator_rx.next().unwrap();
    assert_eq!(msg, sub);

    // create a request to compare with the output of on_message
    let jp = JoinMessagePayload {
        channel_name: channel_name.clone(),
        moderator_name: moderator.clone(),
    };

    let payload: Vec<u8> = jp.encode();
    let mut request = cm.endpoint.create_channel_message(
        participant.agent_type(),
        participant.agent_id_option(),
        false,
        SessionMessageType::ChannelJoinRequest,
        0,
        payload,
    );

    request.insert_metadata(METADATA_MLS_ENABLED.to_string(), "true".to_owned());

    let mut msg = moderator_rx.next().unwrap();
    let msg_id = msg.get_id();
    request.set_message_id(msg_id);
    assert_eq!(msg, request);

    msg.set_incoming_conn(Some(conn));
    let msg_id = msg.get_id();
    let run = run_participant(&mut cp, msg, engine, None);
    run.result.unwrap();
    let mut participant_rx = run.sent.into_iter();

    // the first message is the set route for moderator name
    let header = Some(SlimHeaderFlags::default().with_recv_from(conn));
    let sub = ProtoMessage::new_subscribe(
        &participant,
        moderator.agent_type(),
        moderator.agent_id_option(),
        header,
    );
    let msg = participant_rx.next().unwrap();
    assert_eq!(msg, sub);

    // create a reply to compare with the output of on_message
    let reply = cp.endpoint.create_channel_message(
        moderator.agent_type(),
        moderator.agent_id_option(),
        false,
        SessionMessageType::ChannelJoinReply,
        msg_id,
        vec![],
    );
    let mut msg = participant_rx.next().unwrap();

    // the payload of the message contains the keypackage, compare only the headers
    assert_eq!(msg.get_slim_header(), reply.get_slim_header());
    assert_eq!(msg.get_session_header(), reply.get_session_header());

    msg.set_incoming_conn(Some(conn));
    let run = run_moderator(&mut cm, msg, engine, None);
    run.result.unwrap();
    let mut moderator_rx = run.sent.into_iter();

    // create a reply to compare with the output of on_message
    let mut reply = cm.endpoint.create_channel_message(
        participant.agent_type(),
        participant.agent_id_option(),
        false,
        SessionMessageType::ChannelMlsWelcome,
        0,
        vec![],
    );

    // this should be the MLS welcome message, compare only the headers like in the
    // previous case
    let mut msg = moderator_rx.next().unwrap();
    reply.set_message_id(msg.get_id());
    assert_eq!(msg.get_slim_header(), reply.get_slim_header());
    assert_eq!(msg.get_session_header(), reply.get_session_header());

    // receive the message on the participant side
    msg.set_incoming_conn(Some(conn));
    let msg_id = msg.get_id();
    let run = run_participant(&mut cp, msg, engine, None);
    run.result.unwrap();
    let mut participant_rx = run.sent.into_iter();

    // the first message generated is a subscription for the channel name
    let header = Some(SlimHeaderFlags::default().with_forward_to(conn));
    let sub = ProtoMessage::new_subscribe(&participant, &channel_name, None, header);
    let msg = participant_rx.next().unwrap();
    assert_eq!(msg, sub);

    // then we have the set route for the channel name
    let header = Some(SlimHeaderFlags::default().with_recv_from(conn));
    let sub = ProtoMessage::new_subscribe(&participant, &channel_name, None, header);
    let msg = participant_rx.next().unwrap();
    assert_eq!(msg, sub);

    // the third is the ack
    // create a reply to compare with the output of on_message
    let reply = cp.endpoint.create_channel_message(
        moderator.agent_type(),
        moderator.agent_id_option(),
        false,
        SessionMessageType::ChannelMlsAck,
        msg_id,
        vec![],
    );

    let msg = participant_rx.next().unwrap();
    assert_eq!(msg, reply);
}

#[test]
fn payload_bytes() {
    let payload = JoinMessagePayload::new(
        AgentType::new(1, 2, 3),
        Agent::new(AgentType::new(4, 5, 6), 7),
    );
    let bytes = payload.clone().encode();
    assert_eq!(bytes, vec![1, 2, 3, 0, 4, 5, 6, 0, 7]);

    let read = JoinMessagePayload::decode(&bytes).unwrap();
    assert_eq!(read.channel_name, payload.channel_name);
    assert_eq!(read.moderator_name, payload.moderator_name);
    assert_eq!(read.moderator_name.agent_id(), 7);
    assert!(read.channel_name.organization_string().is_none());

    let mut named = AgentType::from_strings("a", "bc", "");
    named.organization = 300;
    named.namespace = 0;
    named.agent_type = 250;
    let payload = JoinMessagePayload::new(AgentType::new(1, 2, 3), Agent::new(named, 8));
    let bytes = payload.encode();
    assert_eq!(
        bytes,
        vec![1, 2, 3, 0, 251, 44, 1, 0, 250, 1, 1, 97, 2, 98, 99, 0, 8]
    );
    let read = JoinMessagePayload::decode(&bytes).unwrap().moderator_name;
    assert_eq!(read.agent_type().organization(), 300);
    assert_eq!(read.agent_type().organization_string().unwrap(), "a");
    assert_eq!(read.agent_type().namespace_string().unwrap(), "bc");
    assert_eq!(read.agent_type().agent_type_string().unwrap(), "");
}

#[test]
fn payload_that_cannot_be_read() {
    assert!(JoinMessagePayload::decode(&vec![]).is_err());
    assert!(JoinMessagePayload::decode(&vec![1, 2, 3, 2]).is_err());
    // a text of 200 bytes of which none is there
    assert!(JoinMessagePayload::decode(&vec![1, 2, 3, 1, 200]).is_err());
    // a text longer than any memory
    let mut bytes = vec![1, 2, 3, 1, 253];
    bytes.extend_from_slice(&[255, 255, 255, 255, 255, 255, 255, 255]);
    assert!(JoinMessagePayload::decode(&bytes).is_err());
    // a text that is not UTF-8
    assert!(JoinMessagePayload::decode(&vec![1, 2, 3, 1, 1, 255, 0, 0, 4, 5, 6, 0, 7]).is_err());
    // what follows the payload is not looked at
    assert!(JoinMessagePayload::decode(&vec![1, 2, 3, 0, 4, 5, 6, 0, 7, 99]).is_ok());
}

#[test]
fn payload_by_default() {
    let payload = JoinMessagePayload::default();
    assert_eq!(payload.channel_name, AgentType::new(0, 0, 0));
    assert_eq!(payload.moderator_name, Agent::new(AgentType::new(0, 0, 0), 0));
}

#[test]
fn group_state_needs_an_engine() {
    match MlsState::new(Err("no engine".to_string())) {
        Err(SessionError::MLSInit(e)) => assert_eq!(e, "no engine"),
        _ => panic!("expected MLSInit"),
    }
    let state = MlsState::new(Ok(())).unwrap();
    assert_eq!(state.last_commit_id, 0);
    assert!(state.group.is_empty());
    assert_eq!(state.participants.len(), 0);
}

fn join_request(mls: bool) -> ProtoMessage {
    let payload = JoinMessagePayload::new(channel_name(), moderator_name()).encode();
    let mut msg = control(
        &moderator_name(),
        &participant_name(),
        SessionMessageType::ChannelJoinRequest,
        77,
        payload,
    );
    if mls {
        msg.insert_metadata(METADATA_MLS_ENABLED.to_string(), "true".to_string());
    }
    msg.get_session_header_mut().set_session_id(55);
    msg
}

#[test]
fn participant_joins_without_keys() {
    let mut cp = new_participant(false);
    let run = run_participant(&mut cp, join_request(false), engine, None);
    assert!(run.result.is_ok());
    assert!(run.timers.is_empty());
    assert_eq!(run.sent.len(), 4);

    let name = participant_name();
    let recv_from = Some(SlimHeaderFlags::default().with_recv_from(CONN));
    let forward_to = Some(SlimHeaderFlags::default().with_forward_to(CONN));
    let m = moderator_name();
    assert_eq!(
        run.sent[0],
        ProtoMessage::new_subscribe(&name, m.agent_type(), Some(12345), recv_from)
    );
    assert_eq!(
        run.sent[1],
        ProtoMessage::new_subscribe(&name, &channel_name(), None, forward_to)
    );
    assert_eq!(
        run.sent[2],
        ProtoMessage::new_subscribe(&name, &channel_name(), None, recv_from)
    );
    let reply = &run.sent[3];
    assert_eq!(reply.get_id(), 77);
    assert_eq!(reply.get_session_header().get_session_id(), 55);
    assert_eq!(reply.get_session_message_type(), SessionMessageType::ChannelJoinReply);
    assert_eq!(reply.get_name_as_agent(), m);
    assert_eq!(reply.get_source(), name);
    assert!(reply.get_payload().unwrap().blob.is_empty());

    assert_eq!(cp.moderator_name.clone().unwrap(), m);
    assert_eq!(cp.endpoint.conn, Some(CONN));
    assert!(cp.endpoint.subscribed);
    assert!(cp.waiting.is_none());

    // a second request does not subscribe again
    let run = run_participant(&mut cp, join_request(false), engine, None);
    assert!(run.result.is_ok());
    assert_eq!(run.sent.len(), 2);
    assert!(run.sent[0].is_subscribe());
    assert!(run.sent[1].is_publish());
}

#[test]
fn participant_leaves() {
    let mut cp = new_participant(false);
    run_participant(&mut cp, join_request(false), engine, None);
    let leave = control(
        &moderator_name(),
        &participant_name(),
        SessionMessageType::ChannelLeaveRequest,
        78,
        vec![],
    );
    let run = run_participant(&mut cp, leave, engine, None);
    assert!(run.result.is_ok());
    let name = participant_name();
    let recv_from = Some(SlimHeaderFlags::default().with_recv_from(CONN));
    let forward_to = Some(SlimHeaderFlags::default().with_forward_to(CONN));
    assert_eq!(run.sent.len(), 4);
    assert_eq!(
        run.sent[0],
        ProtoMessage::new_unsubscribe(&name, &channel_name(), None, forward_to)
    );
    assert_eq!(
        run.sent[1],
        ProtoMessage::new_unsubscribe(&name, &channel_name(), None, recv_from)
    );
    assert_eq!(
        run.sent[2].get_session_message_type(),
        SessionMessageType::ChannelLeaveReply
    );
    assert_eq!(run.sent[2].get_id(), 78);
    assert_eq!(
        run.sent[3],
        ProtoMessage::new_unsubscribe(
            &name,
            moderator_name().agent_type(),
            Some(12345),
            recv_from
        )
    );
}

#[test]
fn participant_without_moderator_leaves_the_channel_only() {
    let mut cp = new_participant(false);
    cp.endpoint.conn = Some(CONN);
    let leave = control(
        &moderator_name(),
        &participant_name(),
        SessionMessageType::ChannelLeaveRequest,
        78,
        vec![],
    );
    let run = run_participant(&mut cp, leave, engine, None);
    assert!(run.result.is_ok());
    assert_eq!(run.sent.len(), 3);
}

#[test]
fn participant_refuses_join_requests() {
    // without a payload
    let mut msg = join_request(false);
    if let Some(slim_channel::bodies::MessageType::Publish(p)) = &mut msg.message_type {
        p.msg = None;
    }
    let mut cp = new_participant(false);
    let run = run_participant(&mut cp, msg, engine, None);
    match run.result {
        Err(SessionError::Processing(e)) => {
            assert_eq!(e, "missing payload in a Join Channel request")
        }
        _ => panic!("expected Processing"),
    }
    assert!(run.sent.is_empty());
    assert!(cp.endpoint.conn.is_none());

    // with a payload that cannot be read
    let msg = control(
        &moderator_name(),
        &participant_name(),
        SessionMessageType::ChannelJoinRequest,
        77,
        vec![1],
    );
    let run = run_participant(&mut cp, msg, engine, None);
    match run.result {
        Err(SessionError::JoinChannelPayload(e)) => assert!(e.contains("UnexpectedEnd")),
        _ => panic!("expected JoinChannelPayload"),
    }
    assert!(cp.endpoint.conn.is_none());

    // that asks for a key package where there is no group
    let run = run_participant(&mut cp, join_request(true), engine, None);
    assert!(matches!(run.result, Err(SessionError::NoMls)));
    assert_eq!(run.sent.len(), 1);
    assert!(cp.moderator_name.is_some());

    // that the engine makes no key package for
    let mut cp = new_participant(true);
    let run = run_participant(&mut cp, join_request(true), broken_engine, None);
    match run.result {
        Err(SessionError::MLSInit(e)) => assert_eq!(e, "engine failure"),
        _ => panic!("expected MLSInit"),
    }
}

#[test]
fn participant_cannot_handle_names_without_texts() {
    let payload = JoinMessagePayload::new(
        channel_name(),
        Agent::new(AgentType::new(1, 2, 3), DEFAULT_AGENT_ID),
    )
    .encode();
    let msg = control(
        &moderator_name(),
        &participant_name(),
        SessionMessageType::ChannelJoinRequest,
        77,
        payload,
    );
    let mut cp = new_participant(false);
    assert!(cp.on_message(msg).is_none());
    assert!(cp.endpoint.conn.is_none());

    // nor a message that says not where it came in
    let mut msg = join_request(false);
    msg.set_incoming_conn(None);
    assert!(cp.on_message(msg).is_none());

    // nor one outside any session
    let sub = ProtoMessage::new_subscribe(&moderator_name(), &channel_name(), None, None);
    assert!(cp.on_message(sub).is_none());
}

#[test]
fn failed_send_ends_a_participants_run() {
    for failing in 0..4 {
        let mut cp = new_participant(false);
        let run = run_participant(&mut cp, join_request(false), engine, Some(failing));
        match run.result {
            Err(SessionError::Processing(e)) => assert_eq!(e, "no connection"),
            _ => panic!("expected Processing"),
        }
        assert_eq!(run.sent.len(), failing);
        assert_eq!(cp.moderator_name.is_some(), failing > 0);
        assert_eq!(cp.endpoint.subscribed, failing > 0);
    }
}

fn welcome(id: u32, commit_id: Option<&str>, payload: Vec<u8>) -> ProtoMessage {
    let mut msg = control(
        &moderator_name(),
        &participant_name(),
        SessionMessageType::ChannelMlsWelcome,
        id,
        payload,
    );
    if let Some(c) = commit_id {
        msg.insert_metadata(METADATA_MLS_INIT_COMMIT_ID.to_string(), c.to_string());
    }
    msg
}

fn commit(id: u32) -> ProtoMessage {
    control(
        &moderator_name(),
        &participant_name(),
        SessionMessageType::ChannelMlsCommit,
        id,
        vec![10, 11],
    )
}

fn welcome_error(r: Result<(), SessionError>) -> String {
    match r {
        Err(SessionError::WelcomeMessage(e)) => e,
        _ => panic!("expected WelcomeMessage"),
    }
}

fn commit_error(r: Result<(), SessionError>) -> String {
    match r {
        Err(SessionError::CommitMessage(e)) => e,
        _ => panic!("expected CommitMessage"),
    }
}

#[test]
fn participant_follows_commits_in_order() {
    let mut cp = new_participant(true);
    cp.endpoint.conn = Some(CONN);

    let run = run_participant(&mut cp, commit(1), engine, None);
    assert_eq!(
        commit_error(run.result),
        "welcome message not received yet, drop commit"
    );

    let run = run_participant(&mut cp, welcome(5, Some("7"), vec![20, 21]), engine, None);
    assert!(run.result.is_ok());
    assert_eq!(run.sent.len(), 3);
    let mls = cp.endpoint.mls_state.as_ref().unwrap();
    assert_eq!(mls.last_commit_id, 7);
    assert_eq!(mls.group, vec![9, 9]);

    for wrong in [6, 7, 9] {
        let run = run_participant(&mut cp, commit(wrong), engine, None);
        assert_eq!(commit_error(run.result), "unexpected commit id, drop message");
        assert!(run.sent.is_empty());
    }

    let run = run_participant(&mut cp, commit(8), engine, None);
    assert!(run.result.is_ok());
    assert_eq!(run.sent.len(), 1);
    assert_eq!(run.sent[0].get_id(), 8);
    assert_eq!(
        run.sent[0].get_session_message_type(),
        SessionMessageType::ChannelMlsAck
    );
    assert_eq!(cp.endpoint.mls_state.as_ref().unwrap().last_commit_id, 8);

    // the same commit again
    let run = run_participant(&mut cp, commit(8), engine, None);
    assert_eq!(commit_error(run.result), "unexpected commit id, drop message");

    // a commit without a payload
    let mut msg = commit(9);
    if let Some(slim_channel::bodies::MessageType::Publish(p)) = &mut msg.message_type {
        p.msg = None;
    }
    let run = run_participant(&mut cp, msg, engine, None);
    assert_eq!(
        commit_error(run.result),
        "missing payload in MLS commit, cannot process the commit"
    );

    // a commit that the engine cannot follow
    let run = run_participant(&mut cp, commit(10), broken_engine, None);
    assert_eq!(commit_error(run.result), "engine failure");
}

#[test]
fn participant_is_welcomed_once() {
    let mut cp = new_participant(true);
    cp.endpoint.conn = Some(CONN);

    let run = run_participant(&mut cp, welcome(5, None, vec![20, 21]), engine, None);
    assert_eq!(
        welcome_error(run.result),
        "received welcome message without commit id, drop it"
    );
    let run = run_participant(&mut cp, welcome(5, Some("x"), vec![20, 21]), engine, None);
    assert_eq!(
        welcome_error(run.result),
        "received welcome message with invalid commit id, drop it"
    );
    assert_eq!(cp.endpoint.mls_state.as_ref().unwrap().last_commit_id, 0);

    let run = run_participant(&mut cp, welcome(5, Some("1"), vec![20, 21]), engine, None);
    assert!(run.result.is_ok());
    assert_eq!(run.sent.len(), 3);

    // another welcome is only acknowledged
    let run = run_participant(&mut cp, welcome(6, Some("4"), vec![0]), broken_engine, None);
    assert!(run.result.is_ok());
    assert_eq!(run.sent.len(), 1);
    assert_eq!(run.sent[0].get_id(), 6);
    assert_eq!(cp.endpoint.mls_state.as_ref().unwrap().last_commit_id, 1);
}

#[test]
fn broken_welcome() {
    let mut cp = new_participant(true);
    cp.endpoint.conn = Some(CONN);
    let mut msg = welcome(5, Some("3"), vec![20, 21]);
    if let Some(slim_channel::bodies::MessageType::Publish(p)) = &mut msg.message_type {
        p.msg = None;
    }
    let run = run_participant(&mut cp, msg, engine, None);
    assert_eq!(
        welcome_error(run.result),
        "missing payload in MLS welcome, cannot join the group"
    );
    // the commit id has been taken over all the same
    assert_eq!(cp.endpoint.mls_state.as_ref().unwrap().last_commit_id, 3);

    let mut cp = new_participant(true);
    cp.endpoint.conn = Some(CONN);
    let run = run_participant(
        &mut cp,
        welcome(5, Some("3"), vec![20, 21]),
        broken_engine,
        None,
    );
    assert_eq!(welcome_error(run.result), "engine failure");
    assert!(!cp.endpoint.subscribed);

    let mut cp = new_participant(false);
    let run = run_participant(&mut cp, welcome(5, Some("3"), vec![]), engine, None);
    assert!(matches!(run.result, Err(SessionError::NoMls)));
    let run = run_participant(&mut cp, commit(4), engine, None);
    assert!(matches!(run.result, Err(SessionError::NoMls)));
}

#[test]
fn strange_messages_are_refused() {
    let mut cp = new_participant(false);
    let refused = [
        (
            SessionMessageType::ChannelDiscoveryRequest,
            "Received discovery request message, this should not happen",
        ),
        (
            SessionMessageType::ChannelJoinReply,
            "Received message of type ChannelJoinReply, drop it",
        ),
        (SessionMessageType::FnfMsg, "Received message of type FnfMsg, drop it"),
    ];
    for (kind, text) in refused {
        let msg = control(&moderator_name(), &participant_name(), kind, 1, vec![]);
        match run_participant(&mut cp, msg, engine, None).result {
            Err(SessionError::Processing(e)) => assert_eq!(e, text),
            _ => panic!("expected Processing"),
        }
    }

    let mut cm = new_moderator(false);
    let msg = control(
        &participant_name(),
        &moderator_name(),
        SessionMessageType::ChannelMlsWelcome,
        1,
        vec![],
    );
    match run_moderator(&mut cm, msg, engine, None).result {
        Err(SessionError::Processing(e)) => {
            assert_eq!(e, "received unexpected packet type: ChannelMlsWelcome")
        }
        _ => panic!("expected Processing"),
    }
}

#[test]
fn only_what_is_waited_for_is_taken() {
    let mut cp = new_participant(false);
    assert!(cp.resume(Outcome::Sent(Ok(()))).is_none());
    cp.on_message(join_request(false)).unwrap();
    assert!(cp.resume(Outcome::GroupCreated(Ok(()))).is_none());
    assert!(cp.resume(Outcome::Sent(Ok(()))).is_some());

    let mut cm = new_moderator(false);
    assert!(cm.resume(Outcome::Sent(Ok(()))).is_none());
}

fn discover(cm: &mut ChannelModerator, who: &Agent, id: u32) {
    let request = control(
        &moderator_name(),
        who,
        SessionMessageType::ChannelDiscoveryRequest,
        id,
        vec![],
    );
    let run = run_moderator(cm, request.clone(), engine, None);
    assert!(run.result.is_ok());
    assert_eq!(run.sent, vec![request]);
    assert_eq!(started(&run.timers), vec![id]);
    assert_eq!(cm.pending_requests[&id].expected_acks, 1);
}

fn discovery_reply(who: &Agent, id: u32) -> ProtoMessage {
    control(
        who,
        &moderator_name(),
        SessionMessageType::ChannelDiscoveryReply,
        id,
        vec![],
    )
}

fn join_reply(who: &Agent, id: u32) -> ProtoMessage {
    control(
        who,
        &moderator_name(),
        SessionMessageType::ChannelJoinReply,
        id,
        vec![1, 2, 3],
    )
}

fn ack(who: &Agent, id: u32) -> ProtoMessage {
    control(who, &moderator_name(), SessionMessageType::ChannelMlsAck, id, vec![])
}

/// Has a participant invited and added. Gives the messages sent after its join reply.
fn add(cm: &mut ChannelModerator, who: &Agent, id: u32) -> Vec<ProtoMessage> {
    discover(cm, who, id);
    let run = run_moderator(cm, discovery_reply(who, id), engine, None);
    assert!(run.result.is_ok());
    let invitation = run.sent.last().unwrap();
    let run = run_moderator(cm, join_reply(who, invitation.get_id()), engine, None);
    assert!(run.result.is_ok());
    run.sent
}

#[test]
fn moderator_invites() {
    let mut cm = new_moderator(true);
    let who = participant_name();
    discover(&mut cm, &who, 100);
    let run = run_moderator(&mut cm, discovery_reply(&who, 100), engine, None);
    assert!(run.result.is_ok());
    assert_eq!(run.sent.len(), 3);
    assert_eq!(stopped(&run.timers), vec![100]);
    let invitation = &run.sent[2];
    assert_eq!(started(&run.timers), vec![invitation.get_id()]);
    assert_eq!(
        invitation.get_session_message_type(),
        SessionMessageType::ChannelJoinRequest
    );
    assert_eq!(invitation.get_name_as_agent(), who);
    assert_eq!(invitation.get_metadata(METADATA_MLS_ENABLED).unwrap(), "true");
    let names = JoinMessagePayload::decode(&invitation.get_payload().unwrap().blob).unwrap();
    assert_eq!(names.channel_name, channel_name());
    assert_eq!(names.channel_name.namespace_string().unwrap(), "channel");
    assert_eq!(names.moderator_name, moderator_name());

    // the timer sends the invitation again
    match &run.timers[1] {
        TimerOp::Start { interval, max_retries, observer, .. } => {
            assert_eq!(*interval, Duration::from_millis(100));
            assert_eq!(*max_retries, 3);
            assert_eq!(observer.on_timeout(), *invitation);
            match observer.on_failure() {
                SessionError::Processing(e) => assert_eq!(
                    e,
                    "timer failed on channel endpoint. Stop sending messages"
                ),
                _ => panic!("expected Processing"),
            }
        }
        _ => panic!("expected a timer to start"),
    }

    // the channel is joined only once
    discover(&mut cm, &who, 101);
    let run = run_moderator(&mut cm, discovery_reply(&who, 101), engine, None);
    assert_eq!(run.sent.len(), 1);

    // a reply to nothing
    match run_moderator(&mut cm, discovery_reply(&who, 102), engine, None).result {
        Err(SessionError::TimerNotFound(key)) => assert_eq!(key, "102"),
        _ => panic!("expected TimerNotFound"),
    }
}

#[test]
fn moderator_without_keys() {
    let mut cm = new_moderator(false);
    let who = participant_name();
    discover(&mut cm, &who, 100);
    let run = run_moderator(&mut cm, discovery_reply(&who, 100), engine, None);
    let invitation = &run.sent[2];
    assert!(!invitation.contains_metadata(METADATA_MLS_ENABLED));
    let run = run_moderator(&mut cm, join_reply(&who, invitation.get_id()), engine, None);
    assert!(run.result.is_ok());
    assert!(run.sent.is_empty());
    assert!(cm.pending_requests.is_empty());

    let leave = control(
        &moderator_name(),
        &who,
        SessionMessageType::ChannelLeaveRequest,
        200,
        vec![],
    );
    let run = run_moderator(&mut cm, leave.clone(), engine, None);
    assert_eq!(run.sent, vec![leave]);
    assert_eq!(started(&run.timers), vec![200]);
    let reply = control(
        &who,
        &moderator_name(),
        SessionMessageType::ChannelLeaveReply,
        200,
        vec![],
    );
    let run = run_moderator(&mut cm, reply, engine, None);
    assert!(run.result.is_ok());
    assert_eq!(stopped(&run.timers), vec![200]);
    assert!(cm.pending_requests.is_empty());
}

#[test]
fn moderator_joins_by_itself() {
    let mut cm = new_moderator(true);
    cm.endpoint.conn = Some(CONN);
    let first = cm.join();
    let run = follow_moderator(&mut cm, first, engine, None);
    assert!(run.result.is_ok());
    assert_eq!(run.sent.len(), 2);
    let first = cm.join();
    let run = follow_moderator(&mut cm, first, broken_engine, None);
    assert!(run.result.is_ok());
    assert!(run.sent.is_empty());

    let mut cm = new_moderator(true);
    cm.endpoint.conn = Some(CONN);
    let first = cm.join();
    match follow_moderator(&mut cm, first, broken_engine, None).result {
        Err(SessionError::MLSInit(e)) => assert_eq!(e, "engine failure"),
        _ => panic!("expected MLSInit"),
    }
}

#[test]
fn moderator_tells_the_group_of_changes() {
    let mut cm = new_moderator(true);
    let a = participant_name();
    let b = Agent::from_strings("org", "default", "participant", 5121);
    let c = Agent::from_strings("org", "default", "participant", 5122);

    // the first participant is welcomed; there is nobody else to tell
    let sent = add(&mut cm, &a, 1);
    assert_eq!(sent.len(), 1);
    assert_eq!(sent[0].get_metadata(METADATA_MLS_INIT_COMMIT_ID).unwrap(), "1");
    assert_eq!(sent[0].get_payload().unwrap().blob, vec![20, 21]);
    assert_eq!(sent[0].get_name_as_agent(), a);
    run_moderator(&mut cm, ack(&a, sent[0].get_id()), engine, None);
    assert!(cm.pending_requests.is_empty());

    // the others are told of the next ones
    let sent = add(&mut cm, &b, 2);
    assert_eq!(sent.len(), 2);
    assert_eq!(sent[0].get_metadata(METADATA_MLS_INIT_COMMIT_ID).unwrap(), "2");
    assert_eq!(sent[1].get_id(), 2);
    assert_eq!(sent[1].get_fanout(), 10);
    assert_eq!(sent[1].get_name().0, channel_name());
    assert_eq!(sent[1].get_payload().unwrap().blob, vec![10, 11]);
    assert_eq!(cm.pending_requests[&2].expected_acks, 1);
    run_moderator(&mut cm, ack(&b, sent[0].get_id()), engine, None);
    run_moderator(&mut cm, ack(&a, 2), engine, None);
    assert!(cm.pending_requests.is_empty());

    let sent = add(&mut cm, &c, 3);
    assert_eq!(cm.pending_requests[&3].expected_acks, 2);
    run_moderator(&mut cm, ack(&c, sent[0].get_id()), engine, None);
    run_moderator(&mut cm, ack(&a, 3), engine, None);
    assert_eq!(cm.pending_requests[&3].expected_acks, 1);
    run_moderator(&mut cm, ack(&b, 3), engine, None);
    assert!(cm.pending_requests.is_empty());

    // a participant leaves once all have acknowledged its removal
    let leave = control(
        &moderator_name(),
        &b,
        SessionMessageType::ChannelLeaveRequest,
        300,
        vec![],
    );
    let run = run_moderator(&mut cm, leave.clone(), engine, None);
    assert!(run.result.is_ok());
    assert_eq!(run.sent.len(), 1);
    assert_eq!(run.sent[0].get_id(), 4);
    assert_eq!(run.sent[0].get_payload().unwrap().blob, vec![40, 41]);
    assert_eq!(cm.pending_requests[&4].expected_acks, 3);
    for who in [&a, &b] {
        let run = run_moderator(&mut cm, ack(who, 4), engine, None);
        assert!(run.result.is_ok());
        assert!(run.sent.is_empty());
        assert!(run.timers.is_empty());
    }
    let run = run_moderator(&mut cm, ack(&c, 4), engine, None);
    assert!(run.result.is_ok());
    assert_eq!(run.sent, vec![leave.clone()]);
    assert_eq!(stopped(&run.timers), vec![4]);
    assert_eq!(started(&run.timers), vec![300]);
    match run_moderator(&mut cm, ack(&c, 4), engine, None).result {
        Err(SessionError::TimerNotFound(key)) => assert_eq!(key, "4"),
        _ => panic!("expected TimerNotFound"),
    }

    // it is no longer there to be removed
    match run_moderator(&mut cm, leave, engine, None).result {
        Err(SessionError::RemoveParticipant(e)) => assert_eq!(e, "participant does not exists"),
        _ => panic!("expected RemoveParticipant"),
    }
    assert_eq!(cm.mls_msg_id, 4);
}

#[test]
fn participant_added_again_is_not_counted_twice() {
    let mut cm = new_moderator(true);
    let a = participant_name();
    let b = Agent::from_strings("org", "default", "participant", 5121);
    assert_eq!(add(&mut cm, &a, 1).len(), 1);
    assert_eq!(add(&mut cm, &a, 20).len(), 1);
    assert_eq!(cm.endpoint.mls_state.as_ref().unwrap().participants.len(), 1);
    assert_eq!(cm.mls_msg_id, 2);

    assert_eq!(add(&mut cm, &b, 30).len(), 2);
    assert_eq!(cm.pending_requests[&3].expected_acks, 1);
    assert_eq!(add(&mut cm, &b, 40).len(), 2);
    assert_eq!(cm.pending_requests[&4].expected_acks, 1);
}

#[test]
fn moderator_is_told_of_engine_failures() {
    let mut cm = new_moderator(true);
    let who = participant_name();
    discover(&mut cm, &who, 1);
    let run = run_moderator(&mut cm, discovery_reply(&who, 1), engine, None);
    let id = run.sent.last().unwrap().get_id();
    match run_moderator(&mut cm, join_reply(&who, id), broken_engine, None).result {
        Err(SessionError::AddParticipant(e)) => assert_eq!(e, "engine failure"),
        _ => panic!("expected AddParticipant"),
    }
    assert_eq!(cm.mls_msg_id, 0);

    discover(&mut cm, &who, 2);
    let run = run_moderator(&mut cm, discovery_reply(&who, 2), engine, None);
    let mut reply = join_reply(&who, run.sent.last().unwrap().get_id());
    if let Some(slim_channel::bodies::MessageType::Publish(p)) = &mut reply.message_type {
        p.msg = None;
    }
    match run_moderator(&mut cm, reply, engine, None).result {
        Err(SessionError::AddParticipant(e)) => assert_eq!(
            e,
            "key package is missing. the end point cannot be added to the channel"
        ),
        _ => panic!("expected AddParticipant"),
    }

    add(&mut cm, &who, 3);
    let leave = control(
        &moderator_name(),
        &who,
        SessionMessageType::ChannelLeaveRequest,
        300,
        vec![],
    );
    match run_moderator(&mut cm, leave, broken_engine, None).result {
        Err(SessionError::RemoveParticipant(e)) => assert_eq!(e, "engine failure"),
        _ => panic!("expected RemoveParticipant"),
    }
    assert_eq!(cm.endpoint.mls_state.as_ref().unwrap().participants.len(), 1);
}

#[test]
fn nothing_is_pending_for_an_unsent_message() {
    let mut cm = new_moderator(true);
    let request = control(
        &moderator_name(),
        &participant_name(),
        SessionMessageType::ChannelDiscoveryRequest,
        9,
        vec![],
    );
    let run = run_moderator(&mut cm, request, engine, Some(0));
    assert!(run.result.is_err());
    assert!(run.timers.is_empty());
    assert!(cm.pending_requests.is_empty());
}

#[test]
fn endpoint_of_either_role() {
    let mut endpoint = ChannelEndpoint::ChannelParticipant(new_participant(false));
    let step = endpoint.on_message(join_request(false)).unwrap();
    assert!(matches!(step.next, Next::Send(_)));
    let step = endpoint.resume(Outcome::Sent(Ok(()))).unwrap();
    assert!(matches!(step.next, Next::Send(_)));

    let mut endpoint = ChannelEndpoint::ChannelModerator(new_moderator(false));
    let step = endpoint
        .on_message(control(
            &moderator_name(),
            &participant_name(),
            SessionMessageType::ChannelDiscoveryRequest,
            1,
            vec![],
        ))
        .unwrap();
    assert!(matches!(step.next, Next::Send(_)));
    let step = endpoint.resume(Outcome::Sent(Ok(()))).unwrap();
    assert!(matches!(step.next, Next::Finish(Ok(()))));
    assert_eq!(step.timers.len(), 1);
}

#[test]
fn invitations_get_ids_of_their_own() {
    let mut cm = new_moderator(false);
    let who = participant_name();
    let mut ids = vec![];
    for id in 0..8 {
        discover(&mut cm, &who, id);
        let run = run_moderator(&mut cm, discovery_reply(&who, id), engine, None);
        ids.push(run.sent.last().unwrap().get_id());
    }
    ids.sort();
    ids.dedup();
    assert!(ids.len() > 1);
}

#[test]
fn endpoint_routes() {
    let mut endpoint = Endpoint::new(
        participant_name(),
        channel_name(),
        None,
        SESSION_ID,
        ProtoSessionType::SessionUnknown,
        None,
    );
    endpoint.conn = Some(4);
    let route = endpoint.set_route(&channel_name(), Some(2));
    assert_eq!(route.get_recv_from(), Some(4));
    assert_eq!(route.get_forward_to(), None);
    assert_eq!(route.get_name().1, Some(2));
    assert!(route.is_subscribe());
    assert!(endpoint.delete_route(&channel_name(), None).is_unsubscribe());
    assert_eq!(endpoint.leave().get_forward_to(), Some(4));
    assert_eq!(endpoint.join().unwrap().get_forward_to(), Some(4));
    assert!(endpoint.subscribed);
    // only once
    assert!(endpoint.join().is_none());
    assert!(endpoint.subscribed);
}
