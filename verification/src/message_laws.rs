//! What holds of names, headers and messages as a whole.

use vstd::prelude::*;
use vstd::std_specs::hash::DefaultHasherAdditionalSpecFns;

use crate::bodies::{
    Content, ContentView, MessageType, MessageTypeView, ProtoPublish, ProtoSubscribe,
    ProtoUnsubscribe, PublishView, SubscribeView,
};
use crate::encoder::{
    Agent, AgentKey, AgentType, AgentTypeView, AgentView, TypeStrings, TypeStringsView,
    DEFAULT_AGENT_ID,
};
use crate::kinds::{ProtoSessionType, SessionMessageType, UnknownEnumValue};
use crate::message::{MessageView, ProtoMessage};
use crate::proto::{MessageError, ProtoAgent, SessionHeader, SlimHeader, SlimHeaderFlags};
use crate::table::Table;

verus! {

/// The name of an agent survives the wire: what is read back is equal to it, and only
/// the texts are gone.
pub proof fn agent_survives_the_wire(agent: AgentView)
    ensures
        ProtoAgent::of_agent(agent).agent().same(agent),
        ProtoAgent::of_agent(agent).agent().agent_type.strings is None,
        ProtoAgent::of_agent(agent).agent().key() == agent.key(),
{
}

/// A wire form is given back by the agent that it names, unless it spells out the id
/// that stands for none.
pub proof fn wire_form_survives_reading(wire: ProtoAgent)
    requires
        wire.agent_id != Some(DEFAULT_AGENT_ID),
    ensures
        ProtoAgent::of_agent(wire.agent()) == wire,
{
}

/// Two agents are equal exactly when their numbers are, and then so are their wire forms.
pub proof fn equal_agents_have_equal_wire_forms(a: AgentView, b: AgentView)
    ensures
        a.same(b) <==> a.key() == b.key(),
        a.same(b) <==> ProtoAgent::of_agent(a) == ProtoAgent::of_agent(b),
{
}

/// The number of a kind of session reads back as that kind, and no other number does;
/// a number that stands for none reads as `SessionUnknown`.
pub proof fn session_type_numbers(kind: ProtoSessionType, code: i32)
    ensures
        ProtoSessionType::from_code(kind.code()) == Some(kind),
        ProtoSessionType::from_code(code) == Some(kind) <==> code == kind.code(),
        ProtoSessionType::read(kind.code()) == kind,
        ProtoSessionType::from_code(code) is None ==> ProtoSessionType::read(code)
            == ProtoSessionType::SessionUnknown,
{
}

/// The number of a kind of message reads back as that kind, and no other number does; a
/// number that stands for none reads as `Unspecified`.
pub proof fn message_type_numbers(kind: SessionMessageType, code: i32)
    ensures
        SessionMessageType::from_code(kind.code()) == Some(kind),
        SessionMessageType::from_code(code) == Some(kind) <==> code == kind.code(),
        SessionMessageType::read(kind.code()) == kind,
        SessionMessageType::from_code(code) is None ==> SessionMessageType::read(code)
            == SessionMessageType::Unspecified,
{
}

/// A new header says what it was made of: source, destination and flags.
pub proof fn header_says_what_it_was_made_of(
    source: AgentView,
    name: AgentTypeView,
    id: Option<u64>,
    flags: SlimHeaderFlags,
)
    ensures
        ({
            let h = SlimHeader::spec_new(source, name, id, Some(flags));
            &&& h.source->0.agent().same(source)
            &&& h.destination->0.named_type().same(name)
            &&& h.destination->0.agent_id == id
            &&& h.fanout == flags.fanout
            &&& h.recv_from == flags.recv_from
            &&& h.forward_to == flags.forward_to
            &&& h.incoming_conn == flags.incoming_conn
            &&& h.error == flags.error
        }),
        SlimHeader::spec_new(source, name, id, None) == SlimHeader::spec_new(
            source,
            name,
            id,
            Some(crate::proto::default_flags()),
        ),
{
}

/// A new subscription is valid, comes from its source, and is for its name, texts
/// included where the numbers are those of the texts.
pub proof fn subscription_says_what_it_was_made_of(
    source: AgentView,
    name: AgentTypeView,
    id: Option<u64>,
    flags: Option<SlimHeaderFlags>,
)
    requires
        name.strings is Some,
    ensures
        ({
            let m = MessageView::subscribe(source, name, id, flags);
            &&& m.validation() is Ok
            &&& m.source().same(source)
            &&& m.name().1 == id
            &&& name.hashed() ==> m.name().0 == name
            &&& m.slim_header() == Some(SlimHeader::spec_new(source, name, id, flags))
            &&& m.session_header() is None
            &&& m.metadata == Map::<Seq<char>, Seq<char>>::empty()
        }),
{
}

/// A new unsubscription is valid, comes from its source, and is for its name.
pub proof fn unsubscription_says_what_it_was_made_of(
    source: AgentView,
    name: AgentTypeView,
    id: Option<u64>,
    flags: Option<SlimHeaderFlags>,
)
    ensures
        ({
            let m = MessageView::unsubscribe(source, name, id, flags);
            &&& m.validation() is Ok
            &&& m.source().same(source)
            &&& m.name().0.same(name)
            &&& m.name().1 == id
            &&& m.slim_header() == Some(SlimHeader::spec_new(source, name, id, flags))
            &&& m.session_header() is None
            &&& m.metadata == Map::<Seq<char>, Seq<char>>::empty()
        }),
{
}

/// A new publication is valid, comes from its source, is for its name, and carries its
/// payload and its session header.
pub proof fn publication_says_what_it_was_made_of(
    source: AgentView,
    name: AgentTypeView,
    id: Option<u64>,
    flags: Option<SlimHeaderFlags>,
    session: SessionHeader,
    content_type: Seq<char>,
    blob: Seq<u8>,
)
    ensures
        ({
            let h = SlimHeader::spec_new(source, name, id, flags);
            let m = MessageView::publish(Some(h), Some(session), content_type, blob);
            &&& m.validation() is Ok
            &&& m.source().same(source)
            &&& m.name().0.same(name)
            &&& m.name().1 == id
            &&& m.slim_header() == Some(h)
            &&& m.session_header() == Some(session)
            &&& m.id() == session.message_id
            &&& m.payload() == Some(ContentView { content_type, blob })
            &&& m.metadata == Map::<Seq<char>, Seq<char>>::empty()
        }),
{
}

/// A message is valid exactly when it has a body, a source and a destination and, where
/// it is a publication, a session header. So what a valid message is asked for is there.
pub proof fn valid_messages(m: MessageView)
    ensures
        m.validation() is Ok <==> m.has_source() && m.has_destination() && (m.is_publish()
            ==> m.session_header() is Some),
        m.validation() is Ok ==> m.body is Some && m.slim_header() is Some,
{
}

/// A metadata value is found under its key until it is replaced or taken out, and other
/// keys are not touched by that; neither are the headers and the payload.
pub proof fn metadata_keeps_its_values(
    m: MessageView,
    key: Seq<char>,
    val: Seq<char>,
    other: Seq<char>,
)
    requires
        other != key,
    ensures
        ({
            let with = m.with_metadata(key, val);
            let without = MessageView { metadata: with.metadata.remove(key), body: with.body };
            &&& with.metadata.contains_key(key)
            &&& with.metadata[key] == val
            &&& with.metadata.contains_key(other) == m.metadata.contains_key(other)
            &&& m.metadata.contains_key(other) ==> with.metadata[other] == m.metadata[other]
            &&& with.body == m.body
            &&& !without.metadata.contains_key(key)
            &&& without.metadata.contains_key(other) == m.metadata.contains_key(other)
            &&& !m.metadata.contains_key(key) ==> without == m
        }),
{
    let with = m.with_metadata(key, val);
    if !m.metadata.contains_key(key) {
        assert(with.metadata.remove(key) =~= m.metadata);
    }
}

/// Another SLIM header is all that changes with it: the session header, the payload and
/// the metadata stay.
pub proof fn slim_header_stands_alone(m: MessageView, header: SlimHeader)
    requires
        m.slim_header() is Some,
    ensures
        ({
            let n = m.with_slim_header(header);
            &&& n.slim_header() == Some(header)
            &&& n.session_header() == m.session_header()
            &&& n.payload() == m.payload()
            &&& n.metadata == m.metadata
            &&& n.is_publish() == m.is_publish()
            &&& n.with_slim_header(m.slim_header()->0) == m
        }),
{
}

/// Another session header is all that changes with it: the SLIM header, the payload and
/// the metadata stay.
pub proof fn session_header_stands_alone(m: MessageView, header: SessionHeader)
    requires
        m.session_header() is Some,
    ensures
        ({
            let n = m.with_session_header(header);
            &&& n.session_header() == Some(header)
            &&& n.slim_header() == m.slim_header()
            &&& n.payload() == m.payload()
            &&& n.metadata == m.metadata
            &&& n.with_session_header(m.session_header()->0) == m
        }),
{
}

/// The number of each part of a name is the hash of its text: the one that the standard
/// hasher gives for the UTF-8 bytes of the text and an end mark.
pub proof fn names_are_hashed_part_by_part(
    organization: Seq<char>,
    namespace: Seq<char>,
    agent_type: Seq<char>,
)
    ensures
        ({
            let t = AgentTypeView::from_strings(organization, namespace, agent_type);
            &&& t.organization == crate::encoder::text_hash(organization)
            &&& t.namespace == crate::encoder::text_hash(namespace)
            &&& t.agent_type == crate::encoder::text_hash(agent_type)
            &&& t.strings == Some(TypeStringsView { organization, namespace, agent_type })
            &&& t.hashed()
        }),
        crate::encoder::text_hash(organization)
            == std::collections::hash_map::DefaultHasher::spec_finish(
            seq![vstd::utf8::encode_utf8(organization), seq![0xffu8]],
        ),
{
}

/// A name has the numbers of its texts exactly when each of its three numbers is the
/// hash of the text beside it. A name without texts has nothing to agree with.
pub proof fn numbers_of_texts(t: AgentTypeView, s: TypeStringsView)
    ensures
        t.strings is None ==> t.hashed(),
        t.strings == Some(s) ==> (t.hashed() <==> t == AgentTypeView::from_strings(
            s.organization,
            s.namespace,
            s.agent_type,
        )),
{
}

/// Names are equal exactly when their numbers are, one by one; the texts do not count. An
/// agent's name counts its id as well.
pub proof fn equality_goes_by_numbers(a: AgentView, b: AgentView)
    ensures
        a.agent_type.same(b.agent_type) <==> (a.agent_type.organization
            == b.agent_type.organization && a.agent_type.namespace == b.agent_type.namespace
            && a.agent_type.agent_type == b.agent_type.agent_type),
        a.same(b) <==> (a.agent_type.organization == b.agent_type.organization
            && a.agent_type.namespace == b.agent_type.namespace && a.agent_type.agent_type
            == b.agent_type.agent_type && a.agent_id == b.agent_id),
        a.key() == (AgentKey {
            organization: a.agent_type.organization,
            namespace: a.agent_type.namespace,
            agent_type: a.agent_type.agent_type,
            agent_id: a.agent_id,
        }),
{
}

/// The wire form of an agent has its numbers, and its id unless that is the largest
/// number there is, which stands for none. What is read from a wire form has its numbers
/// and no texts.
pub proof fn wire_forms_have_the_numbers(
    agent: AgentView,
    name: AgentTypeView,
    id: Option<u64>,
    wire: ProtoAgent,
)
    ensures
        agent.id_option() == if agent.agent_id == 0xffff_ffff_ffff_ffffu64 {
            None::<u64>
        } else {
            Some(agent.agent_id)
        },
        ProtoAgent::of_agent(agent) == (ProtoAgent {
            organization: agent.agent_type.organization,
            namespace: agent.agent_type.namespace,
            agent_type: agent.agent_type.agent_type,
            agent_id: if agent.agent_id == 0xffff_ffff_ffff_ffffu64 {
                None
            } else {
                Some(agent.agent_id)
            },
        }),
        ProtoAgent::of_type(name, id) == (ProtoAgent {
            organization: name.organization,
            namespace: name.namespace,
            agent_type: name.agent_type,
            agent_id: id,
        }),
        wire.named_type() == (AgentTypeView {
            organization: wire.organization,
            namespace: wire.namespace,
            agent_type: wire.agent_type,
            strings: None,
        }),
        wire.agent() == (AgentView {
            agent_type: AgentTypeView {
                organization: wire.organization,
                namespace: wire.namespace,
                agent_type: wire.agent_type,
                strings: None,
            },
            agent_id: if wire.agent_id is Some {
                wire.agent_id->0
            } else {
                0xffff_ffff_ffff_ffff
            },
        }),
{
}

/// The conversions between names and wire forms give just these.
pub proof fn conversions_of_names(
    agent: &Agent,
    name: &AgentType,
    id: Option<u64>,
    wire: &ProtoAgent,
)
    ensures
        <ProtoAgent as vstd::std_specs::convert::FromSpec<&Agent>>::from_spec(agent)
            == ProtoAgent::of_agent(agent@),
        <ProtoAgent as vstd::std_specs::convert::FromSpec<(&AgentType, Option<u64>)>>::from_spec(
            (name, id),
        ) == ProtoAgent::of_type(name@, id),
        <AgentType as vstd::std_specs::convert::FromSpec<&ProtoAgent>>::from_spec(wire)@
            == wire.named_type(),
        <Agent as vstd::std_specs::convert::FromSpec<&ProtoAgent>>::from_spec(wire)@
            == wire.agent(),
{
}

/// The kinds of sessions are numbered from 0 on, in a fixed order.
pub proof fn session_types_have_fixed_numbers()
    ensures
        ProtoSessionType::SessionUnknown.code() == 0,
        ProtoSessionType::SessionFireForget.code() == 1,
        ProtoSessionType::SessionRequestReply.code() == 2,
        ProtoSessionType::SessionStreaming.code() == 3,
        ProtoSessionType::SessionPubSub.code() == 4,
{
}

/// The kinds of session messages are numbered from 0 on, in a fixed order.
pub proof fn message_types_have_fixed_numbers()
    ensures
        SessionMessageType::Unspecified.code() == 0,
        SessionMessageType::FnfMsg.code() == 1,
        SessionMessageType::FnfReliable.code() == 2,
        SessionMessageType::FnfAck.code() == 3,
        SessionMessageType::Request.code() == 4,
        SessionMessageType::Reply.code() == 5,
        SessionMessageType::Stream.code() == 6,
        SessionMessageType::PubSub.code() == 7,
        SessionMessageType::RtxRequest.code() == 8,
        SessionMessageType::RtxReply.code() == 9,
        SessionMessageType::BeaconStream.code() == 10,
        SessionMessageType::BeaconPubSub.code() == 11,
        SessionMessageType::ChannelDiscoveryRequest.code() == 12,
        SessionMessageType::ChannelDiscoveryReply.code() == 13,
        SessionMessageType::ChannelJoinRequest.code() == 14,
        SessionMessageType::ChannelJoinReply.code() == 15,
        SessionMessageType::ChannelLeaveRequest.code() == 16,
        SessionMessageType::ChannelLeaveReply.code() == 17,
        SessionMessageType::ChannelMlsWelcome.code() == 18,
        SessionMessageType::ChannelMlsCommit.code() == 19,
        SessionMessageType::ChannelMlsAck.code() == 20,
{
}

/// The conversions between kinds and numbers go by those numbers. A number outside them
/// is refused, and named in the refusal.
pub proof fn conversions_of_kinds(
    code: i32,
    session_type: ProtoSessionType,
    message_type: SessionMessageType,
)
    ensures
        <i32 as vstd::std_specs::convert::FromSpec<ProtoSessionType>>::from_spec(session_type)
            == session_type.code(),
        <i32 as vstd::std_specs::convert::FromSpec<SessionMessageType>>::from_spec(message_type)
            == message_type.code(),
        <ProtoSessionType as vstd::std_specs::convert::TryFromSpec<i32>>::try_from_spec(code)
            == Ok::<ProtoSessionType, UnknownEnumValue>(session_type) <==> code
            == session_type.code(),
        <SessionMessageType as vstd::std_specs::convert::TryFromSpec<i32>>::try_from_spec(code)
            == Ok::<SessionMessageType, UnknownEnumValue>(message_type) <==> code
            == message_type.code(),
        code < 0 || code > 4 ==> <ProtoSessionType as vstd::std_specs::convert::TryFromSpec<
            i32,
        >>::try_from_spec(code) == Err::<ProtoSessionType, UnknownEnumValue>(
            UnknownEnumValue(code),
        ) && ProtoSessionType::read(code) == ProtoSessionType::SessionUnknown,
        code < 0 || code > 20 ==> <SessionMessageType as vstd::std_specs::convert::TryFromSpec<
            i32,
        >>::try_from_spec(code) == Err::<SessionMessageType, UnknownEnumValue>(
            UnknownEnumValue(code),
        ) && SessionMessageType::read(code) == SessionMessageType::Unspecified,
{
}

/// Where no flags are given a message goes to one receiver, without commands to the data
/// plane. Outside any session all of the session header is zero.
pub proof fn defaults_are_neutral()
    ensures
        crate::proto::default_flags().fanout == 1,
        crate::proto::default_flags().recv_from is None,
        crate::proto::default_flags().forward_to is None,
        crate::proto::default_flags().incoming_conn is None,
        crate::proto::default_flags().error is None,
        crate::proto::default_session_header().session_type == 0,
        crate::proto::default_session_header().session_message_type == 0,
        crate::proto::default_session_header().session_id == 0,
        crate::proto::default_session_header().message_id == 0,
{
}

/// A new header, part by part.
pub proof fn header_part_by_part(
    source: AgentView,
    name: AgentTypeView,
    id: Option<u64>,
    flags: Option<SlimHeaderFlags>,
)
    ensures
        ({
            let h = SlimHeader::spec_new(source, name, id, flags);
            &&& h.source == Some(ProtoAgent::of_agent(source))
            &&& h.destination == Some(
                ProtoAgent {
                    organization: name.organization,
                    namespace: name.namespace,
                    agent_type: name.agent_type,
                    agent_id: id,
                },
            )
            &&& flags is None ==> h.fanout == 1 && h.recv_from is None && h.forward_to is None
                && h.incoming_conn is None && h.error is None
            &&& flags matches Some(f) ==> h.fanout == f.fanout && h.recv_from == f.recv_from
                && h.forward_to == f.forward_to && h.incoming_conn == f.incoming_conn && h.error
                == f.error
        }),
{
}

/// What a message is asked for is found in its body: the SLIM header in any body, the
/// session header and the payload in a publication only.
pub proof fn messages_are_read_from_their_bodies(
    metadata: Map<Seq<char>, Seq<char>>,
    s: SubscribeView,
    u: ProtoUnsubscribe,
    p: PublishView,
)
    ensures
        ({
            let m = MessageView { metadata, body: Some(MessageTypeView::Subscribe(s)) };
            &&& m.slim_header() == s.header
            &&& m.session_header() is None
            &&& m.payload() is None
            &&& !m.is_publish()
        }),
        ({
            let m = MessageView { metadata, body: Some(MessageTypeView::Unsubscribe(u)) };
            &&& m.slim_header() == u.header
            &&& m.session_header() is None
            &&& m.payload() is None
            &&& !m.is_publish()
        }),
        ({
            let m = MessageView { metadata, body: Some(MessageTypeView::Publish(p)) };
            &&& m.slim_header() == p.header
            &&& m.session_header() == p.session
            &&& m.payload() == p.msg
            &&& m.is_publish()
        }),
        ({
            let m = MessageView { metadata, body: None };
            &&& m.slim_header() is None
            &&& m.session_header() is None
            &&& m.payload() is None
            &&& !m.is_publish()
        }),
{
}

/// What a message says of itself stands in its headers.
pub proof fn messages_are_read_from_their_headers(
    m: MessageView,
    h: SlimHeader,
    s: SessionHeader,
    wire: ProtoAgent,
    conn: u64,
)
    ensures
        m.has_source() <==> m.slim_header() is Some && m.slim_header()->0.source is Some,
        m.has_destination() <==> m.slim_header() is Some && m.slim_header()->0.destination is Some,
        m.has_incoming_conn() <==> m.slim_header() is Some
            && m.slim_header()->0.incoming_conn is Some,
        m.can_answer() <==> m.slim_header() is Some && m.slim_header()->0.source is Some
            && m.session_header() is Some,
        m.slim_header() == Some(h) && h.source == Some(wire) ==> m.source() == wire.agent(),
        m.slim_header() == Some(h) && h.destination == Some(wire) ==> m.destination_agent()
            == wire.agent(),
        m.slim_header() == Some(h) && h.incoming_conn == Some(conn) ==> m.incoming_conn() == conn,
        m.session_header() == Some(s) ==> m.id() == s.message_id && m.kind()
            == SessionMessageType::read(s.session_message_type),
{
}

/// The name that a message is for stands in its header, but for a subscription: there it
/// is made from the texts. The id stands in the header.
pub proof fn names_of_messages(m: MessageView, h: SlimHeader, wire: ProtoAgent, s: SubscribeView)
    requires
        m.slim_header() == Some(h),
        h.destination == Some(wire),
    ensures
        m.name().1 == wire.agent_id,
        m.body == Some(MessageTypeView::Subscribe(s)) ==> m.name().0
            == AgentTypeView::from_strings(s.organization, s.namespace, s.agent_type),
        !(m.body matches Some(MessageTypeView::Subscribe(_))) ==> m.name().0 == wire.named_type(),
{
}

/// A message that lacks something is refused for what comes first: its body, its SLIM
/// header, its source, its destination, and the session header of a publication.
pub proof fn validation_goes_by_order(m: MessageView)
    ensures
        m.body is None ==> m.validation() == Err::<(), MessageError>(
            MessageError::MessageTypeNotFound,
        ),
        m.body is Some && m.slim_header() is None ==> m.validation() == Err::<(), MessageError>(
            MessageError::SlimHeaderNotFound,
        ),
        m.slim_header() matches Some(h) ==> {
            &&& h.source is None ==> m.validation() == Err::<(), MessageError>(
                MessageError::SourceNotFound,
            )
            &&& h.source is Some && h.destination is None ==> m.validation() == Err::<
                (),
                MessageError,
            >(MessageError::DestinationNotFound)
            &&& h.source is Some && h.destination is Some ==> m.validation() == if (m.body matches Some(
                MessageTypeView::Publish(p),
            ) && p.session is None) {
                Err::<(), MessageError>(MessageError::SessionHeaderNotFound)
            } else {
                Ok(())
            }
        },
{
}

/// New messages, part by part: no metadata, the header of source, name and flags, and a
/// body of the right kind with the texts of the name or the payload.
pub proof fn messages_part_by_part(
    source: AgentView,
    name: AgentTypeView,
    id: Option<u64>,
    flags: Option<SlimHeaderFlags>,
    header: Option<SlimHeader>,
    session: Option<SessionHeader>,
    content_type: Seq<char>,
    blob: Seq<u8>,
    texts: TypeStringsView,
)
    ensures
        MessageView::subscribe(source, name, id, flags).metadata == Map::<
            Seq<char>,
            Seq<char>,
        >::empty(),
        name.strings == Some(texts) ==> MessageView::subscribe(source, name, id, flags).body
            == Some(
            MessageTypeView::Subscribe(
                SubscribeView {
                    header: Some(SlimHeader::spec_new(source, name, id, flags)),
                    organization: texts.organization,
                    namespace: texts.namespace,
                    agent_type: texts.agent_type,
                },
            ),
        ),
        name.strings == Some(texts) ==> MessageView::subscribe(source, name, id, flags).body
            == Some(MessageTypeView::Subscribe(SubscribeView::of(source, name, id, flags))),
        MessageView::unsubscribe(source, name, id, flags) == (MessageView {
            metadata: Map::empty(),
            body: Some(
                MessageTypeView::Unsubscribe(
                    ProtoUnsubscribe {
                        header: Some(SlimHeader::spec_new(source, name, id, flags)),
                    },
                ),
            ),
        }),
        MessageView::publish(header, session, content_type, blob) == (MessageView {
            metadata: Map::empty(),
            body: Some(
                MessageTypeView::Publish(
                    PublishView { header, session, msg: Some(ContentView { content_type, blob }) },
                ),
            ),
        }),
{
}

/// Changes to a message, part by part: what is not changed stays.
pub proof fn changes_part_by_part(
    m: MessageView,
    header: SlimHeader,
    session: SessionHeader,
    key: Seq<char>,
    val: Seq<char>,
    s: SubscribeView,
    u: ProtoUnsubscribe,
    p: PublishView,
)
    ensures
        m.with_metadata(key, val) == (MessageView {
            metadata: m.metadata.insert(key, val),
            body: m.body,
        }),
        m.with_slim_header(header).metadata == m.metadata,
        m.body == Some(MessageTypeView::Subscribe(s)) ==> m.with_slim_header(header).body == Some(
            MessageTypeView::Subscribe(
                SubscribeView {
                    header: Some(header),
                    organization: s.organization,
                    namespace: s.namespace,
                    agent_type: s.agent_type,
                },
            ),
        ),
        m.body == Some(MessageTypeView::Unsubscribe(u)) ==> m.with_slim_header(header).body == Some(
            MessageTypeView::Unsubscribe(ProtoUnsubscribe { header: Some(header) }),
        ),
        m.body == Some(MessageTypeView::Publish(p)) ==> m.with_slim_header(header).body == Some(
            MessageTypeView::Publish(
                PublishView { header: Some(header), session: p.session, msg: p.msg },
            ),
        ),
        m.body == Some(MessageTypeView::Publish(p)) ==> m.with_session_header(session) == (
        MessageView {
            metadata: m.metadata,
            body: Some(
                MessageTypeView::Publish(
                    PublishView { header: p.header, session: Some(session), msg: p.msg },
                ),
            ),
        }),
{
}

/// Messages and their parts are compared by all that they hold; names by their numbers.
pub proof fn equality_goes_by_contents(
    m: ProtoMessage,
    n: ProtoMessage,
    s: MessageType,
    t: MessageType,
    p: ProtoPublish,
    q: ProtoPublish,
    c: Content,
    d: Content,
    a: Agent,
    b: Agent,
)
    ensures
        vstd::std_specs::cmp::PartialEqSpec::eq_spec(&m, &n) == (m@ == n@),
        vstd::std_specs::cmp::PartialEqSpec::eq_spec(&s, &t) == (s@ == t@),
        vstd::std_specs::cmp::PartialEqSpec::eq_spec(&p, &q) == (p@ == q@),
        vstd::std_specs::cmp::PartialEqSpec::eq_spec(&c, &d) == (c@ == d@),
        vstd::std_specs::cmp::PartialEqSpec::eq_spec(&a, &b) == a@.same(b@),
        vstd::std_specs::cmp::PartialEqSpec::eq_spec(&a.agent_type, &b.agent_type)
            == a.agent_type@.same(b.agent_type@),
        vstd::std_specs::cmp::PartialEqSpec::eq_spec(&m.metadata, &n.metadata) == (m.metadata@
            == n.metadata@),
{
}

/// Whether what is said of the comparison of a type holds of the function that makes it.
pub open spec fn compared_as_said<T: vstd::std_specs::cmp::PartialEqSpec>() -> bool {
    T::obeys_eq_spec()
}

/// What is said of comparisons holds of the functions that make them.
pub proof fn comparisons_are_as_said()
    ensures
        compared_as_said::<ProtoMessage>(),
        compared_as_said::<MessageType>(),
        compared_as_said::<ProtoPublish>(),
        compared_as_said::<ProtoSubscribe>(),
        compared_as_said::<Content>(),
        compared_as_said::<Agent>(),
        compared_as_said::<AgentType>(),
        compared_as_said::<Table<String, String>>(),
{
}

/// What is said of conversions holds of the functions that make them.
pub proof fn conversions_are_as_said()
    ensures
        <ProtoAgent as vstd::std_specs::convert::FromSpec<&Agent>>::obeys_from_spec(),
        <ProtoAgent as vstd::std_specs::convert::FromSpec<
            (&AgentType, Option<u64>),
        >>::obeys_from_spec(),
        <AgentType as vstd::std_specs::convert::FromSpec<&ProtoAgent>>::obeys_from_spec(),
        <Agent as vstd::std_specs::convert::FromSpec<&ProtoAgent>>::obeys_from_spec(),
        <i32 as vstd::std_specs::convert::FromSpec<ProtoSessionType>>::obeys_from_spec(),
        <i32 as vstd::std_specs::convert::FromSpec<SessionMessageType>>::obeys_from_spec(),
        <ProtoSessionType as vstd::std_specs::convert::TryFromSpec<i32>>::obeys_try_from_spec(),
        <SessionMessageType as vstd::std_specs::convert::TryFromSpec<i32>>::obeys_try_from_spec(),
{
}

/// Subscriptions are compared by all that they hold.
pub proof fn equal_subscriptions(a: ProtoSubscribe, b: ProtoSubscribe)
    ensures
        vstd::std_specs::cmp::PartialEqSpec::eq_spec(&a, &b) <==> (a.header == b.header
            && a.organization@ == b.organization@ && a.namespace@ == b.namespace@
            && a.agent_type@ == b.agent_type@),
{
}

/// The model of a message shows all that the message holds.
pub proof fn models_of_messages(m: ProtoMessage, s: ProtoSubscribe, p: ProtoPublish, c: Content)
    ensures
        m@.metadata == m.metadata@,
        m@.body is None <==> m.message_type is None,
        m.message_type matches Some(MessageType::Publish(b)) ==> m@.body == Some(
            MessageTypeView::Publish(b@),
        ),
        m.message_type matches Some(MessageType::Subscribe(b)) ==> m@.body == Some(
            MessageTypeView::Subscribe(b@),
        ),
        m.message_type matches Some(MessageType::Unsubscribe(b)) ==> m@.body == Some(
            MessageTypeView::Unsubscribe(b),
        ),
        s@ == (SubscribeView {
            header: s.header,
            organization: s.organization@,
            namespace: s.namespace@,
            agent_type: s.agent_type@,
        }),
        p@.header == p.header,
        p@.session == p.session,
        p@.msg is None <==> p.msg is None,
        p.msg matches Some(b) ==> p@.msg == Some(b@),
        c@.content_type == c.content_type@,
        c@.blob == c.blob@,
{
}

/// The model of a name shows all that the name holds.
pub proof fn models_of_names(a: Agent, t: AgentType, s: TypeStrings, k: String)
    ensures
        a@.agent_type == a.agent_type@,
        a@.agent_id == a.agent_id,
        t@.organization == t.organization,
        t@.namespace == t.namespace,
        t@.agent_type == t.agent_type,
        t@.strings is None <==> t.strings is None,
        t.strings matches Some(b) ==> t@.strings == Some(b@),
        s@ == (TypeStringsView {
            organization: s.organization@,
            namespace: s.namespace@,
            agent_type: s.agent_type@,
        }),
        crate::table::TableKey::key(&a) == a@.key(),
        crate::table::TableKey::key(&k) == k@,
{
}

/// A kind of session message is called by its own name.
pub proof fn message_types_have_their_names()
    ensures
        SessionMessageType::Unspecified.spec_name() == "Unspecified"@,
        SessionMessageType::FnfMsg.spec_name() == "FnfMsg"@,
        SessionMessageType::FnfReliable.spec_name() == "FnfReliable"@,
        SessionMessageType::FnfAck.spec_name() == "FnfAck"@,
        SessionMessageType::Request.spec_name() == "Request"@,
        SessionMessageType::Reply.spec_name() == "Reply"@,
        SessionMessageType::Stream.spec_name() == "Stream"@,
        SessionMessageType::PubSub.spec_name() == "PubSub"@,
        SessionMessageType::RtxRequest.spec_name() == "RtxRequest"@,
        SessionMessageType::RtxReply.spec_name() == "RtxReply"@,
        SessionMessageType::BeaconStream.spec_name() == "BeaconStream"@,
        SessionMessageType::BeaconPubSub.spec_name() == "BeaconPubSub"@,
        SessionMessageType::ChannelDiscoveryRequest.spec_name() == "ChannelDiscoveryRequest"@,
        SessionMessageType::ChannelDiscoveryReply.spec_name() == "ChannelDiscoveryReply"@,
        SessionMessageType::ChannelJoinRequest.spec_name() == "ChannelJoinRequest"@,
        SessionMessageType::ChannelJoinReply.spec_name() == "ChannelJoinReply"@,
        SessionMessageType::ChannelLeaveRequest.spec_name() == "ChannelLeaveRequest"@,
        SessionMessageType::ChannelLeaveReply.spec_name() == "ChannelLeaveReply"@,
        SessionMessageType::ChannelMlsWelcome.spec_name() == "ChannelMlsWelcome"@,
        SessionMessageType::ChannelMlsCommit.spec_name() == "ChannelMlsCommit"@,
        SessionMessageType::ChannelMlsAck.spec_name() == "ChannelMlsAck"@,
{
}

/// The text of an error says what is not found.
pub proof fn texts_of_message_errors()
    ensures
        MessageError::SlimHeaderNotFound.text() == "SLIM header not found"@,
        MessageError::SourceNotFound.text() == "source not found"@,
        MessageError::DestinationNotFound.text() == "destination not found"@,
        MessageError::SessionHeaderNotFound.text() == "session header not found"@,
        MessageError::MessageTypeNotFound.text() == "message type not found"@,
        MessageError::IncomingConnectionNotFound.text() == "incoming connection not found"@,
{
}

/// The text of a message's body is the name of its kind, whatever it holds.
pub proof fn texts_of_bodies(s: SubscribeView, u: ProtoUnsubscribe, p: PublishView)
    ensures
        MessageTypeView::Publish(p).text() == "publish"@,
        MessageTypeView::Subscribe(s).text() == "subscribe"@,
        MessageTypeView::Unsubscribe(u).text() == "unsubscribe"@,
{
}

/// The text of flags names each of them with its value, in a fixed order.
pub proof fn texts_of_flags(f: SlimHeaderFlags, n: u64, b: bool)
    ensures
        f.text() == "fanout: "@ + crate::text::decimal(f.fanout as nat) + ", recv_from: "@
            + crate::proto::option_number_text(f.recv_from) + ", forward_to: "@
            + crate::proto::option_number_text(f.forward_to) + ", incoming_conn: "@
            + crate::proto::option_number_text(f.incoming_conn) + ", error: "@
            + crate::proto::option_bool_text(f.error),
        crate::proto::option_number_text(None) == "None"@,
        crate::proto::option_number_text(Some(n)) == "Some("@ + crate::text::decimal(n as nat)
            + ")"@,
        crate::proto::option_bool_text(None) == "None"@,
        crate::proto::option_bool_text(Some(b)) == if b {
            "Some(true)"@
        } else {
            "Some(false)"@
        },
{
}

} // verus!
