use slim_channel::bodies::{MessageType, ProtoPublish, ProtoSubscribe, ProtoUnsubscribe};
use slim_channel::encoder::{Agent, AgentType, DEFAULT_AGENT_ID};
use slim_channel::kinds::{ProtoSessionType, SessionMessageType, UnknownEnumValue};
use slim_channel::message::ProtoMessage;
use slim_channel::proto::{
    MessageError, ProtoAgent, SessionHeader, SlimHeader, SlimHeaderFlags, SLIM_IDENTITY,
};
use slim_channel::table::Table;
use slim_channel::text::{decimal_text, parse_u32};

fn test_subscription_template(
    subscription: bool,
    source: Agent,
    name: AgentType,
    name_id: Option<u64>,
    flags: Option<SlimHeaderFlags>,
) {
    let sub = {
        if subscription {
            ProtoMessage::new_subscribe(&source, &name, name_id, flags.clone())
        } else {
            ProtoMessage::new_unsubscribe(&source, &name, name_id, flags.clone())
        }
    };

    let flags = if flags.is_none() {
        Some(SlimHeaderFlags::default())
    } else {
        flags
    };

    assert!(!sub.is_publish());
    assert_eq!(sub.is_subscribe(), subscription);
    assert_eq!(sub.is_unsubscribe(), !subscription);
    assert_eq!(flags.as_ref().unwrap().recv_from, sub.get_recv_from());
    assert_eq!(flags.as_ref().unwrap().forward_to, sub.get_forward_to());
    assert_eq!(None, sub.try_get_incoming_conn());
    assert_eq!(source, sub.get_source());
    let (got_name, got_name_id) = sub.get_name();
    assert_eq!(name, got_name);
    assert_eq!(name_id, got_name_id);
}

fn test_publish_template(
    source: Agent,
    name: AgentType,
    name_id: Option<u64>,
    flags: Option<SlimHeaderFlags>,
) {
    let pub_msg = ProtoMessage::new_publish(
        &source,
        &name,
        name_id,
        flags.clone(),
        "str",
        "this is the content of the message".into(),
    );

    let flags = if flags.is_none() {
        Some(SlimHeaderFlags::default())
    } else {
        flags
    };

    assert!(pub_msg.is_publish());
    assert!(!pub_msg.is_subscribe());
    assert!(!pub_msg.is_unsubscribe());
    assert_eq!(flags.as_ref().unwrap().recv_from, pub_msg.get_recv_from());
    assert_eq!(flags.as_ref().unwrap().forward_to, pub_msg.get_forward_to());
    assert_eq!(None, pub_msg.try_get_incoming_conn());
    assert_eq!(source, pub_msg.get_source());
    let (got_name, got_name_id) = pub_msg.get_name();
    assert_eq!(name, got_name);
    assert_eq!(name_id, got_name_id);
    assert_eq!(flags.as_ref().unwrap().fanout, pub_msg.get_fanout());
}

#[test]
fn test_subscription() {
    let source = Agent::from_strings("org", "ns", "type", 1);
    let name = AgentType::from_strings("org", "ns", "type");

    // simple
    test_subscription_template(true, source.clone(), name.clone(), None, None);

    // with name id
    test_subscription_template(true, source.clone(), name.clone(), Some(2), None);

    // with recv from
    test_subscription_template(
        true,
        source.clone(),
        name.clone(),
        None,
        Some(SlimHeaderFlags::default().with_recv_from(50)),
    );

    // with forward to
    test_subscription_template(
        true,
        source.clone(),
        name.clone(),
        None,
        Some(SlimHeaderFlags::default().with_forward_to(30)),
    );
}

#[test]
fn test_unsubscription() {
    let source = Agent::from_strings("org", "ns", "type", 1);
    let name = AgentType::from_strings("org", "ns", "type");

    // simple
    test_subscription_template(false, source.clone(), name.clone(), None, None);

    // with name id
    test_subscription_template(false, source.clone(), name.clone(), Some(2), None);

    // with recv from
    test_subscription_template(
        false,
        source.clone(),
        name.clone(),
        None,
        Some(SlimHeaderFlags::default().with_recv_from(50)),
    );

    // with forward to
    test_subscription_template(
        false,
        source.clone(),
        name.clone(),
        None,
        Some(SlimHeaderFlags::default().with_forward_to(30)),
    );
}

#[test]
fn test_publish() {
    let source = Agent::from_strings("org", "ns", "type", 1);
    let name = AgentType::from_strings("org", "ns", "type");

    // simple
    test_publish_template(
        source.clone(),
        name.clone(),
        None,
        Some(SlimHeaderFlags::default()),
    );

    // with name id
    test_publish_template(
        source.clone(),
        name.clone(),
        Some(2),
        Some(SlimHeaderFlags::default()),
    );

    // with recv from
    test_publish_template(
        source.clone(),
        name.clone(),
        None,
        Some(SlimHeaderFlags::default().with_recv_from(50)),
    );

    // with forward to
    test_publish_template(
        source.clone(),
        name.clone(),
        None,
        Some(SlimHeaderFlags::default().with_forward_to(30)),
    );

    // with fanout
    test_publish_template(
        source.clone(),
        name.clone(),
        None,
        Some(SlimHeaderFlags::default().with_fanout(2)),
    );
}

#[test]
fn test_conversions() {
    // Agent to ProtoAgent
    let agent = Agent::from_strings("org", "ns", "type", 1);
    let proto_agent = ProtoAgent::from(&agent);

    assert_eq!(proto_agent.organization, agent.agent_type().organization());
    assert_eq!(proto_agent.namespace, agent.agent_type().namespace());
    assert_eq!(proto_agent.agent_type, agent.agent_type().agent_type());
    assert_eq!(proto_agent.agent_id.unwrap(), agent.agent_id());

    // ProtoAgent to Agent
    let agent_from_proto = Agent::from(&proto_agent);
    assert_eq!(
        agent_from_proto.agent_type().organization(),
        proto_agent.organization
    );
    assert_eq!(
        agent_from_proto.agent_type().namespace(),
        proto_agent.namespace
    );
    assert_eq!(
        agent_from_proto.agent_type().agent_type(),
        proto_agent.agent_type
    );
    assert_eq!(agent_from_proto.agent_id(), proto_agent.agent_id.unwrap());

    // AgentType to ProtoAgent
    let agent_type = AgentType::from_strings("org", "ns", "type");
    let proto_agent = ProtoAgent::from((&agent_type, Some(1)));

    assert_eq!(proto_agent.organization, agent_type.organization());
    assert_eq!(proto_agent.namespace, agent_type.namespace());
    assert_eq!(proto_agent.agent_type, agent_type.agent_type());
    assert_eq!(proto_agent.agent_id.unwrap(), 1);

    // ProtoMessage to ProtoSubscribe
    let proto_subscribe = ProtoMessage::new_subscribe(
        &agent,
        &agent_type,
        Some(1),
        Some(
            SlimHeaderFlags::default()
                .with_recv_from(2)
                .with_forward_to(3),
        ),
    );
    let proto_subscribe = ProtoSubscribe::from(proto_subscribe);
    assert_eq!(proto_subscribe.header.as_ref().unwrap().get_source(), agent);
    assert_eq!(
        proto_subscribe.header.as_ref().unwrap().get_dst(),
        (agent_type.clone(), Some(1))
    );

    // ProtoMessage to ProtoUnsubscribe
    let proto_unsubscribe = ProtoMessage::new_unsubscribe(
        &agent,
        &agent_type,
        Some(1),
        Some(
            SlimHeaderFlags::default()
                .with_recv_from(2)
                .with_forward_to(3),
        ),
    );
    let proto_unsubscribe = ProtoUnsubscribe::from(proto_unsubscribe);
    assert_eq!(
        proto_unsubscribe.header.as_ref().unwrap().get_source(),
        agent
    );
    assert_eq!(
        proto_unsubscribe.header.as_ref().unwrap().get_dst(),
        (agent_type.clone(), Some(1))
    );

    // ProtoMessage to ProtoPublish
    let proto_publish = ProtoMessage::new_publish(
        &agent,
        &agent_type,
        Some(1),
        Some(
            SlimHeaderFlags::default()
                .with_recv_from(2)
                .with_forward_to(3),
        ),
        "str",
        "this is the content of the message".into(),
    );
    let proto_publish = ProtoPublish::from(proto_publish);
    assert_eq!(proto_publish.header.as_ref().unwrap().get_source(), agent);
    assert_eq!(
        proto_publish.header.as_ref().unwrap().get_dst(),
        (agent_type.clone(), Some(1))
    );
}

#[test]
fn header_without_names_answers_for_connections() {
    // a header without source and destination still answers for its connections
    let header = SlimHeader {
        source: None,
        destination: None,
        fanout: 0,
        recv_from: None,
        forward_to: None,
        incoming_conn: None,
        error: None,
    };
    assert_eq!(header.get_recv_from(), None);
    assert_eq!(header.get_forward_to(), None);
    assert_eq!(header.get_incoming_conn(), None);
    assert_eq!(header.get_error(), None);
}

#[test]
fn test_panic_session_header() {
    let header = SessionHeader::new(0, 0, 0, 0);
    assert_eq!(header.get_session_id(), 0);
    assert_eq!(header.get_message_id(), 0);
}

#[test]
fn test_service_type_to_int() {
    // Get total number of service types
    let total_service_types = SessionMessageType::ChannelMlsAck as i32;

    for i in 0..total_service_types {
        // int -> ServiceType
        let service_type =
            SessionMessageType::try_from(i).expect("failed to convert int to service type");
        let service_type_int = i32::from(service_type);
        assert_eq!(service_type_int, i32::from(service_type),);
    }

    // Test invalid conversion
    let invalid_service_type = SessionMessageType::try_from(total_service_types + 1);
    assert!(invalid_service_type.is_err());
}

#[test]
fn kinds_and_their_numbers() {
    for i in 0..21 {
        let kind = SessionMessageType::try_from(i).unwrap();
        assert_eq!(i32::from(kind), i);
        assert_eq!(kind as i32, i);
        assert_eq!(kind.name(), format!("{:?}", kind));
    }
    assert_eq!(SessionMessageType::try_from(21), Err(UnknownEnumValue(21)));
    assert_eq!(SessionMessageType::try_from(-1), Err(UnknownEnumValue(-1)));
    for i in 0..5 {
        let kind = ProtoSessionType::try_from(i).unwrap();
        assert_eq!(i32::from(kind), i);
        assert_eq!(kind as i32, i);
    }
    assert_eq!(ProtoSessionType::try_from(5), Err(UnknownEnumValue(5)));
    assert_eq!(SessionMessageType::default(), SessionMessageType::Unspecified);
    assert_eq!(ProtoSessionType::default(), ProtoSessionType::SessionUnknown);
}

fn sample_publish() -> ProtoMessage {
    ProtoMessage::new_publish(
        &Agent::from_strings("org", "ns", "type", 1),
        &AgentType::from_strings("org", "ns", "other"),
        Some(7),
        None,
        "text",
        vec![1, 2, 3],
    )
}

#[test]
fn validation_names_what_is_missing_first() {
    let mut msg = sample_publish();
    assert_eq!(msg.validate(), Ok(()));

    let mut no_session = msg.clone();
    if let Some(MessageType::Publish(p)) = &mut no_session.message_type {
        p.session = None;
    }
    assert_eq!(no_session.validate(), Err(MessageError::SessionHeaderNotFound));

    msg.get_slim_header_mut().destination = None;
    assert_eq!(msg.validate(), Err(MessageError::DestinationNotFound));
    msg.get_slim_header_mut().source = None;
    assert_eq!(msg.validate(), Err(MessageError::SourceNotFound));
    if let Some(MessageType::Publish(p)) = &mut msg.message_type {
        p.header = None;
    }
    assert_eq!(msg.validate(), Err(MessageError::SlimHeaderNotFound));
    msg.message_type = None;
    assert_eq!(msg.validate(), Err(MessageError::MessageTypeNotFound));

    let unsubscribe = ProtoMessage {
        metadata: Table::new(),
        message_type: Some(MessageType::Unsubscribe(ProtoUnsubscribe::with_header(None))),
    };
    assert_eq!(unsubscribe.validate(), Err(MessageError::SlimHeaderNotFound));
}

#[test]
fn error_texts() {
    assert_eq!(MessageError::SlimHeaderNotFound.to_string(), "SLIM header not found");
    assert_eq!(MessageError::SourceNotFound.to_string(), "source not found");
    assert_eq!(MessageError::DestinationNotFound.to_string(), "destination not found");
    assert_eq!(MessageError::SessionHeaderNotFound.to_string(), "session header not found");
    assert_eq!(MessageError::MessageTypeNotFound.to_string(), "message type not found");
    assert_eq!(
        MessageError::IncomingConnectionNotFound.to_string(),
        "incoming connection not found"
    );
}

#[test]
fn texts_of_flags_and_bodies() {
    let flags = SlimHeaderFlags::new(10, Some(4), None, Some(u64::MAX), Some(true));
    assert_eq!(
        flags.to_string(),
        "fanout: 10, recv_from: Some(4), forward_to: None, \
         incoming_conn: Some(18446744073709551615), error: Some(true)"
    );
    assert_eq!(
        SlimHeaderFlags::default().with_error(false).to_string(),
        "fanout: 1, recv_from: None, forward_to: None, incoming_conn: None, error: Some(false)"
    );
    let source = Agent::from_strings("org", "ns", "type", 1);
    let name = AgentType::from_strings("org", "ns", "type");
    assert_eq!(sample_publish().get_type().to_string(), "publish");
    assert_eq!(
        ProtoMessage::new_subscribe(&source, &name, None, None).get_type().to_string(),
        "subscribe"
    );
    assert_eq!(
        ProtoMessage::new_unsubscribe(&source, &name, None, None).get_type().to_string(),
        "unsubscribe"
    );
}

#[test]
fn metadata_is_a_map() {
    let mut msg = sample_publish();
    assert!(!msg.contains_metadata(SLIM_IDENTITY));
    assert_eq!(msg.get_metadata(SLIM_IDENTITY), None);

    msg.insert_metadata(SLIM_IDENTITY.to_string(), "a".to_string());
    msg.insert_metadata("other".to_string(), "b".to_string());
    msg.insert_metadata(SLIM_IDENTITY.to_string(), "c".to_string());
    assert!(msg.contains_metadata(SLIM_IDENTITY));
    assert_eq!(msg.get_metadata(SLIM_IDENTITY), Some(&"c".to_string()));
    assert_eq!(msg.get_metadata("other"), Some(&"b".to_string()));
    assert_eq!(msg.metadata.len(), 2);

    // the order of insertion does not matter
    let mut twin = sample_publish();
    twin.insert_metadata(SLIM_IDENTITY.to_string(), "c".to_string());
    assert!(twin != msg);
    twin.insert_metadata("other".to_string(), "b".to_string());
    assert_eq!(twin, msg);
    assert_eq!(twin.clone(), msg);

    msg.remove_metadata(SLIM_IDENTITY);
    assert!(!msg.contains_metadata(SLIM_IDENTITY));
    assert!(msg.contains_metadata("other"));
    msg.remove_metadata(SLIM_IDENTITY);
    assert_eq!(msg.metadata.len(), 1);
}

#[test]
fn connections_of_a_header() {
    let mut header = *sample_publish().get_slim_header();
    header.set_incoming_conn(Some(5));
    assert_eq!(header.get_in_out_connections(), (5, None));
    header.set_forward_to(Some(6));
    assert_eq!(header.get_in_out_connections(), (5, Some(6)));
    header.set_recv_from(Some(7));
    assert_eq!(header.get_in_out_connections(), (7, None));
    header.clear();
    assert_eq!(header.get_in_out_connections(), (5, None));
}

#[test]
fn headers_of_a_message_can_be_changed() {
    let mut msg = sample_publish();
    msg.set_recv_from(Some(1));
    msg.set_forward_to(Some(2));
    msg.set_incoming_conn(Some(3));
    msg.set_fanout(4);
    msg.set_error(Some(true));
    assert_eq!(msg.get_recv_from(), Some(1));
    assert_eq!(msg.get_forward_to(), Some(2));
    assert_eq!(msg.get_incoming_conn(), 3);
    assert_eq!(msg.get_fanout(), 4);
    assert_eq!(msg.get_error(), Some(true));
    msg.set_error_flag(None);
    assert_eq!(msg.get_error(), None);
    msg.clear_slim_header();
    assert_eq!(msg.get_recv_from(), None);
    assert_eq!(msg.get_forward_to(), None);
    assert_eq!(msg.try_get_incoming_conn(), Some(3));

    msg.set_message_id(9);
    msg.set_session_type(ProtoSessionType::SessionPubSub);
    msg.set_session_message_type(SessionMessageType::ChannelMlsCommit);
    assert_eq!(msg.get_id(), 9);
    assert_eq!(msg.get_session_type(), ProtoSessionType::SessionPubSub);
    assert_eq!(msg.get_session_message_type(), SessionMessageType::ChannelMlsCommit);
    msg.try_get_session_header_mut().unwrap().set_session_id(11);
    assert_eq!(msg.get_session_header().get_session_id(), 11);
    msg.get_session_header_mut().clear();
    assert_eq!(msg.get_session_header().get_session_id(), 0);
    assert_eq!(msg.get_id(), 0);
    msg.get_session_header_mut().session_message_type = 1000;
    assert_eq!(msg.get_session_message_type(), SessionMessageType::Unspecified);

    let publish = msg.as_ref();
    assert_eq!(publish.get_payload().blob, vec![1, 2, 3]);
    assert_eq!(msg.get_payload().unwrap().content_type, "text");

    let mut unsubscribe = ProtoMessage::new_unsubscribe(
        &msg.get_source_agent(),
        &AgentType::new(1, 2, 3),
        None,
        None,
    );
    assert!(unsubscribe.try_get_session_header().is_none());
    assert!(unsubscribe.try_get_session_header_mut().is_none());
    assert!(unsubscribe.try_get_slim_header().is_some());
}

#[test]
fn the_default_id_is_left_out_on_the_wire() {
    let agent = Agent::from_strings("org", "ns", "type", DEFAULT_AGENT_ID);
    let wire = ProtoAgent::from(&agent);
    assert_eq!(wire.agent_id, None);
    assert_eq!(Agent::from(&wire), agent);
    assert_eq!(agent.agent_id_option(), None);

    let msg = ProtoMessage::new_publish(&agent, agent.agent_type(), None, None, "", vec![]);
    assert_eq!(msg.get_name_as_agent(), agent);
    assert_eq!(sample_publish().get_name_as_agent().agent_id(), 7);
}

#[test]
fn names_differ_by_their_parts() {
    let name = AgentType::from_strings("org", "ns", "type");
    assert!(name != AgentType::from_strings("org", "type", "ns"));
    assert_eq!(name, AgentType::new(name.organization(), name.namespace(), name.agent_type()));
    assert_eq!(name.organization_string(), Some("org".to_string()));
    assert_eq!(name.namespace_string(), Some("ns".to_string()));
    assert_eq!(name.agent_type_string(), Some("type".to_string()));
    assert_eq!(AgentType::new(1, 2, 3).agent_type_string(), None);
    assert!(Agent::new(name.clone(), 1) != Agent::new(name, 2));
}

#[test]
fn numbers_as_text() {
    assert_eq!(decimal_text(0), "0");
    assert_eq!(decimal_text(90210), "90210");
    assert_eq!(decimal_text(u64::MAX), "18446744073709551615");
    let texts = [
        "", "+", "-0", "0", "+7", "007", "4294967295", "4294967296", " 1", "1 ", "12a", "+-1", "1+",
        "99999999999999999999999", "\u{0661}", "++1",
    ];
    for text in texts {
        assert_eq!(parse_u32(text), text.parse::<u32>().ok(), "{}", text);
    }
}
