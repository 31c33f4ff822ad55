//! Messages: metadata and a body.

use vstd::prelude::*;
use vstd::string::*;

use crate::bodies::{
    Content, ContentView, MessageType, MessageTypeView, ProtoPublish, ProtoSubscribe,
    ProtoUnsubscribe, PublishView, SubscribeView,
};
use crate::encoder::{Agent, AgentType, AgentTypeView, AgentView, DEFAULT_AGENT_ID};
use crate::kinds::{ProtoSessionType, SessionMessageType};
use crate::proto::{MessageError, SessionHeader, SlimHeader, SlimHeaderFlags};
use crate::table::Table;

verus! {

/// The model of a message.
#[verifier::ext_equal]
pub struct MessageView {
    pub metadata: Map<Seq<char>, Seq<char>>,
    pub body: Option<MessageTypeView>,
}

/// A message that can be sent over the network.
#[derive(Debug)]
pub struct ProtoMessage {
    pub metadata: Table<String, String>,
    pub message_type: Option<MessageType>,
}

impl View for ProtoMessage {
    type V = MessageView;

    open spec fn view(&self) -> MessageView {
        MessageView {
            metadata: self.metadata@,
            body: match self.message_type {
                Some(t) => Some(t@),
                None => None,
            },
        }
    }
}

impl Clone for ProtoMessage {
    fn clone(&self) -> (r: Self)
        ensures
            r@ == self@,
    {
        ProtoMessage {
            metadata: self.metadata.clone(),
            message_type: match &self.message_type {
                Some(t) => Some(t.clone()),
                None => None,
            },
        }
    }
}

impl PartialEq for ProtoMessage {
    fn eq(&self, other: &Self) -> (r: bool) {
        self.metadata == other.metadata && match (&self.message_type, &other.message_type) {
            (Some(a), Some(b)) => *a == *b,
            (None, None) => true,
            _ => false,
        }
    }
}

impl vstd::std_specs::cmp::PartialEqSpecImpl for ProtoMessage {
    open spec fn obeys_eq_spec() -> bool {
        true
    }

    open spec fn eq_spec(&self, other: &Self) -> bool {
        self@ == other@
    }
}

impl MessageView {
    /// The SLIM header, where there is one.
    pub open spec fn slim_header(self) -> Option<SlimHeader> {
        match self.body {
            Some(MessageTypeView::Publish(p)) => p.header,
            Some(MessageTypeView::Subscribe(s)) => s.header,
            Some(MessageTypeView::Unsubscribe(u)) => u.header,
            None => None,
        }
    }

    /// The session header, where there is one: only a publication can have it.
    pub open spec fn session_header(self) -> Option<SessionHeader> {
        match self.body {
            Some(MessageTypeView::Publish(p)) => p.session,
            _ => None,
        }
    }

    /// Whether the message is a publication.
    pub open spec fn is_publish(self) -> bool {
        self.body matches Some(MessageTypeView::Publish(_))
    }

    /// The payload, where there is one: only a publication can have it.
    pub open spec fn payload(self) -> Option<ContentView> {
        match self.body {
            Some(MessageTypeView::Publish(p)) => p.msg,
            _ => None,
        }
    }

    /// The message with another SLIM header.
    pub open spec fn with_slim_header(self, header: SlimHeader) -> MessageView {
        MessageView {
            metadata: self.metadata,
            body: match self.body {
                Some(MessageTypeView::Publish(p)) => Some(
                    MessageTypeView::Publish(PublishView { header: Some(header), ..p }),
                ),
                Some(MessageTypeView::Subscribe(s)) => Some(
                    MessageTypeView::Subscribe(SubscribeView { header: Some(header), ..s }),
                ),
                Some(MessageTypeView::Unsubscribe(u)) => Some(
                    MessageTypeView::Unsubscribe(ProtoUnsubscribe { header: Some(header) }),
                ),
                None => None,
            },
        }
    }

    /// The publication with another session header.
    pub open spec fn with_session_header(self, header: SessionHeader) -> MessageView {
        MessageView {
            metadata: self.metadata,
            body: match self.body {
                Some(MessageTypeView::Publish(p)) => Some(
                    MessageTypeView::Publish(PublishView { session: Some(header), ..p }),
                ),
                body => body,
            },
        }
    }

    /// The message with a metadata entry added or replaced.
    pub open spec fn with_metadata(self, key: Seq<char>, val: Seq<char>) -> MessageView {
        MessageView { metadata: self.metadata.insert(key, val), body: self.body }
    }

    /// Whether the message names the agent that sent it.
    pub open spec fn has_source(self) -> bool {
        self.slim_header() matches Some(h) && h.source is Some
    }

    /// The agent that sent the message.
    pub open spec fn source(self) -> AgentView {
        self.slim_header()->0.source->0.agent()
    }

    /// Whether the message names a destination.
    pub open spec fn has_destination(self) -> bool {
        self.slim_header() matches Some(h) && h.destination is Some
    }

    /// The agent that the message is for; without an id it has the default one.
    pub open spec fn destination_agent(self) -> AgentView {
        self.slim_header()->0.destination->0.agent()
    }

    /// Whether the message says on which connection it came in.
    pub open spec fn has_incoming_conn(self) -> bool {
        self.slim_header() matches Some(h) && h.incoming_conn is Some
    }

    /// The connection that the message came in on.
    pub open spec fn incoming_conn(self) -> u64 {
        self.slim_header()->0.incoming_conn->0
    }

    /// The id of the message within its session.
    pub open spec fn id(self) -> u32 {
        self.session_header()->0.message_id
    }

    /// The kind of the message; a number that stands for none is read as unspecified.
    pub open spec fn kind(self) -> SessionMessageType {
        SessionMessageType::read(self.session_header()->0.session_message_type)
    }

    /// Whether the message can be answered: it names its source and has an id.
    pub open spec fn can_answer(self) -> bool {
        self.has_source() && self.session_header() is Some
    }

    /// The name that the message is for. A subscription names it by its texts.
    pub open spec fn name(self) -> (AgentTypeView, Option<u64>) {
        let destination = self.slim_header()->0.destination->0;
        match self.body {
            Some(MessageTypeView::Subscribe(s)) => (
                AgentTypeView::from_strings(s.organization, s.namespace, s.agent_type),
                destination.agent_id,
            ),
            _ => (destination.named_type(), destination.agent_id),
        }
    }

    /// What the message lacks first, if anything: a body, a SLIM header, a source, a
    /// destination and, where it is a publication, a session header.
    pub open spec fn validation(self) -> Result<(), MessageError> {
        if self.body is None {
            Err(MessageError::MessageTypeNotFound)
        } else if self.slim_header() is None {
            Err(MessageError::SlimHeaderNotFound)
        } else if !self.has_source() {
            Err(MessageError::SourceNotFound)
        } else if !self.has_destination() {
            Err(MessageError::DestinationNotFound)
        } else if self.is_publish() && self.session_header() is None {
            Err(MessageError::SessionHeaderNotFound)
        } else {
            Ok(())
        }
    }

    /// A subscription without metadata.
    pub open spec fn subscribe(
        source: AgentView,
        agent_type: AgentTypeView,
        agent_id: Option<u64>,
        flags: Option<SlimHeaderFlags>,
    ) -> MessageView {
        MessageView {
            metadata: Map::empty(),
            body: Some(
                MessageTypeView::Subscribe(
                    SubscribeView::of(source, agent_type, agent_id, flags),
                ),
            ),
        }
    }

    /// The end of a subscription, without metadata.
    pub open spec fn unsubscribe(
        source: AgentView,
        agent_type: AgentTypeView,
        agent_id: Option<u64>,
        flags: Option<SlimHeaderFlags>,
    ) -> MessageView {
        MessageView {
            metadata: Map::empty(),
            body: Some(
                MessageTypeView::Unsubscribe(
                    ProtoUnsubscribe {
                        header: Some(SlimHeader::spec_new(source, agent_type, agent_id, flags)),
                    },
                ),
            ),
        }
    }

    /// A publication without metadata.
    pub open spec fn publish(
        header: Option<SlimHeader>,
        session: Option<SessionHeader>,
        content_type: Seq<char>,
        blob: Seq<u8>,
    ) -> MessageView {
        MessageView {
            metadata: Map::empty(),
            body: Some(
                MessageTypeView::Publish(
                    PublishView { header, session, msg: Some(ContentView { content_type, blob }) },
                ),
            ),
        }
    }
}

impl ProtoMessage {
    fn new(metadata: Table<String, String>, message_type: MessageType) -> (r: Self)
        ensures
            r@ == (MessageView { metadata: metadata@, body: Some(message_type@) }),
    {
        ProtoMessage { metadata, message_type: Some(message_type) }
    }

    /// The subscription of a source to a name whose texts are known.
    pub fn new_subscribe(
        source: &Agent,
        agent_type: &AgentType,
        agent_id: Option<u64>,
        flags: Option<SlimHeaderFlags>,
    ) -> (r: Self)
        requires
            agent_type@.strings is Some,
        ensures
            r@ == MessageView::subscribe(source@, agent_type@, agent_id, flags),
    {
        let subscribe = ProtoSubscribe::new(source, agent_type, agent_id, flags);
        Self::new(Table::new(), MessageType::Subscribe(subscribe))
    }

    /// The end of a source's subscription to a name.
    pub fn new_unsubscribe(
        source: &Agent,
        agent_type: &AgentType,
        agent_id: Option<u64>,
        flags: Option<SlimHeaderFlags>,
    ) -> (r: Self)
        ensures
            r@ == MessageView::unsubscribe(source@, agent_type@, agent_id, flags),
    {
        let unsubscribe = ProtoUnsubscribe::new(source, agent_type, agent_id, flags);
        Self::new(Table::new(), MessageType::Unsubscribe(unsubscribe))
    }

    /// The publication of a payload by a source to a name, outside any session.
    pub fn new_publish(
        source: &Agent,
        agent_type: &AgentType,
        agent_id: Option<u64>,
        flags: Option<SlimHeaderFlags>,
        content_type: &str,
        blob: Vec<u8>,
    ) -> (r: Self)
        ensures
            r@ == MessageView::publish(
                Some(SlimHeader::spec_new(source@, agent_type@, agent_id, flags)),
                Some(crate::proto::default_session_header()),
                content_type@,
                blob@,
            ),
    {
        let publish = ProtoPublish::new(source, agent_type, agent_id, flags, content_type, blob);
        Self::new(Table::new(), MessageType::Publish(publish))
    }

    /// The publication of a payload under given headers.
    pub fn new_publish_with_headers(
        slim_header: Option<SlimHeader>,
        session_header: Option<SessionHeader>,
        content_type: &str,
        blob: Vec<u8>,
    ) -> (r: Self)
        ensures
            r@ == MessageView::publish(slim_header, session_header, content_type@, blob@),
    {
        let publish = ProtoPublish::with_header(
            slim_header,
            session_header,
            Some(Content { content_type: content_type.to_owned(), blob }),
        );
        Self::new(Table::new(), MessageType::Publish(publish))
    }

    /// Whether the message has all that a message of its kind must have.
    pub fn validate(&self) -> (r: Result<(), MessageError>)
        ensures
            r == self@.validation(),
    {
        if self.message_type.is_none() {
            return Err(MessageError::MessageTypeNotFound);
        }
        if self.try_get_slim_header().is_none() {
            return Err(MessageError::SlimHeaderNotFound);
        }
        let slim_header = self.get_slim_header();
        if slim_header.source.is_none() {
            return Err(MessageError::SourceNotFound);
        }
        if slim_header.destination.is_none() {
            return Err(MessageError::DestinationNotFound);
        }
        match &self.message_type {
            Some(MessageType::Publish(p)) => {
                if p.header.is_none() {
                    return Err(MessageError::SlimHeaderNotFound);
                }
                if p.session.is_none() {
                    return Err(MessageError::SessionHeaderNotFound);
                }
            },
            Some(MessageType::Subscribe(s)) => {
                if s.header.is_none() {
                    return Err(MessageError::SlimHeaderNotFound);
                }
            },
            Some(MessageType::Unsubscribe(u)) => {
                if u.header.is_none() {
                    return Err(MessageError::SlimHeaderNotFound);
                }
            },
            None => return Err(MessageError::MessageTypeNotFound),
        }
        Ok(())
    }

    /// Puts a metadata value under a key, in place of one that stood there.
    pub fn insert_metadata(&mut self, key: String, val: String)
        ensures
            final(self)@ == old(self)@.with_metadata(key@, val@),
    {
        self.metadata.insert(key, val);
    }

    /// Takes a metadata key out.
    pub fn remove_metadata(&mut self, key: &str)
        ensures
            final(self)@ == (MessageView {
                metadata: old(self)@.metadata.remove(key@),
                body: old(self)@.body,
            }),
    {
        let key = key.to_owned();
        self.metadata.remove(&key);
    }

    /// Whether there is a metadata value under a key.
    pub fn contains_metadata(&self, key: &str) -> (r: bool)
        ensures
            r == self@.metadata.contains_key(key@),
    {
        self.get_metadata(key).is_some()
    }

    /// The metadata value under a key.
    pub fn get_metadata(&self, key: &str) -> (r: Option<&String>)
        ensures
            match r {
                Some(v) => self@.metadata.contains_key(key@) && v@ == self@.metadata[key@],
                None => !self@.metadata.contains_key(key@),
            },
    {
        let key = key.to_owned();
        self.metadata.get(&key)
    }

    pub fn get_slim_header(&self) -> (r: &SlimHeader)
        requires
            self@.slim_header() is Some,
        ensures
            *r == self@.slim_header()->0,
    {
        match &self.message_type {
            Some(MessageType::Publish(publish)) => publish.header.as_ref().unwrap(),
            Some(MessageType::Subscribe(sub)) => sub.header.as_ref().unwrap(),
            Some(MessageType::Unsubscribe(unsub)) => unsub.header.as_ref().unwrap(),
            None => vstd::pervasive::unreached(),
        }
    }

    pub fn get_slim_header_mut(&mut self) -> (r: &mut SlimHeader)
        requires
            old(self)@.slim_header() is Some,
        ensures
            *r == old(self)@.slim_header()->0,
            final(self)@ == old(self)@.with_slim_header(*final(r)),
    {
        match &mut self.message_type {
            Some(MessageType::Publish(publish)) => publish.header.as_mut().unwrap(),
            Some(MessageType::Subscribe(sub)) => sub.header.as_mut().unwrap(),
            Some(MessageType::Unsubscribe(unsub)) => unsub.header.as_mut().unwrap(),
            None => vstd::pervasive::unreached(),
        }
    }

    pub fn try_get_slim_header(&self) -> (r: Option<&SlimHeader>)
        ensures
            match r {
                Some(h) => self@.slim_header() == Some(*h),
                None => self@.slim_header() is None,
            },
    {
        match &self.message_type {
            Some(MessageType::Publish(publish)) => publish.header.as_ref(),
            Some(MessageType::Subscribe(sub)) => sub.header.as_ref(),
            Some(MessageType::Unsubscribe(unsub)) => unsub.header.as_ref(),
            None => None,
        }
    }

    pub fn get_session_header(&self) -> (r: &SessionHeader)
        requires
            self@.session_header() is Some,
        ensures
            *r == self@.session_header()->0,
    {
        match &self.message_type {
            Some(MessageType::Publish(publish)) => publish.session.as_ref().unwrap(),
            _ => vstd::pervasive::unreached(),
        }
    }

    pub fn get_session_header_mut(&mut self) -> (r: &mut SessionHeader)
        requires
            old(self)@.session_header() is Some,
        ensures
            *r == old(self)@.session_header()->0,
            final(self)@ == old(self)@.with_session_header(*final(r)),
    {
        match &mut self.message_type {
            Some(MessageType::Publish(publish)) => publish.session.as_mut().unwrap(),
            _ => vstd::pervasive::unreached(),
        }
    }

    pub fn try_get_session_header(&self) -> (r: Option<&SessionHeader>)
        ensures
            match r {
                Some(h) => self@.session_header() == Some(*h),
                None => self@.session_header() is None,
            },
    {
        match &self.message_type {
            Some(MessageType::Publish(publish)) => publish.session.as_ref(),
            Some(MessageType::Subscribe(_)) => None,
            Some(MessageType::Unsubscribe(_)) => None,
            None => None,
        }
    }

    pub fn try_get_session_header_mut(&mut self) -> (r: Option<&mut SessionHeader>)
        ensures
            match r {
                Some(h) => old(self)@.session_header() == Some(*h) && final(self)@
                    == old(self)@.with_session_header(*final(h)),
                None => old(self)@.session_header() is None && final(self)@ == old(self)@,
            },
    {
        match &mut self.message_type {
            Some(MessageType::Publish(publish)) => publish.session.as_mut(),
            Some(MessageType::Subscribe(_)) => None,
            Some(MessageType::Unsubscribe(_)) => None,
            None => None,
        }
    }

    /// The id of the message within its session.
    pub fn get_id(&self) -> (r: u32)
        requires
            self@.session_header() is Some,
        ensures
            r == self@.id(),
    {
        self.get_session_header().get_message_id()
    }

    /// The agent that sent the message.
    pub fn get_source(&self) -> (r: Agent)
        requires
            self@.has_source(),
        ensures
            r@ == self@.source(),
    {
        self.get_slim_header().get_source()
    }

    /// To how many receivers the message goes.
    pub fn get_fanout(&self) -> (r: u32)
        requires
            self@.slim_header() is Some,
        ensures
            r == self@.slim_header()->0.fanout,
    {
        self.get_slim_header().get_fanout()
    }

    /// The connection that the message is to count as received from.
    pub fn get_recv_from(&self) -> (r: Option<u64>)
        requires
            self@.slim_header() is Some,
        ensures
            r == self@.slim_header()->0.recv_from,
    {
        self.get_slim_header().get_recv_from()
    }

    /// The connection that the message is to be forwarded to.
    pub fn get_forward_to(&self) -> (r: Option<u64>)
        requires
            self@.slim_header() is Some,
        ensures
            r == self@.slim_header()->0.forward_to,
    {
        self.get_slim_header().get_forward_to()
    }

    /// Whether the message reports an error.
    pub fn get_error(&self) -> (r: Option<bool>)
        requires
            self@.slim_header() is Some,
        ensures
            r == self@.slim_header()->0.error,
    {
        self.get_slim_header().get_error()
    }

    /// The connection that the message came in on.
    pub fn get_incoming_conn(&self) -> (r: u64)
        requires
            self@.has_incoming_conn(),
        ensures
            r == self@.incoming_conn(),
    {
        self.get_slim_header().get_incoming_conn().unwrap()
    }

    /// The connection that the message came in on, where it says so.
    pub fn try_get_incoming_conn(&self) -> (r: Option<u64>)
        requires
            self@.slim_header() is Some,
        ensures
            r == self@.slim_header()->0.incoming_conn,
    {
        self.get_slim_header().get_incoming_conn()
    }

    /// The agent that sent the message.
    pub fn get_source_agent(&self) -> (r: Agent)
        requires
            self@.has_source(),
        ensures
            r@ == self@.source(),
    {
        self.get_slim_header().get_source()
    }

    /// The name that the message is for. A subscription names it by its texts.
    pub fn get_name(&self) -> (r: (AgentType, Option<u64>))
        requires
            self@.has_destination(),
        ensures
            (r.0@, r.1) == self@.name(),
    {
        let (agent_type, agent_id) = self.get_slim_header().get_dst();
        if let Some(MessageType::Subscribe(subscribe)) = &self.message_type {
            return (
                AgentType::from_strings(
                    subscribe.organization.as_str(),
                    subscribe.namespace.as_str(),
                    subscribe.agent_type.as_str(),
                ),
                agent_id,
            );
        }
        (agent_type, agent_id)
    }

    /// The agent that the message is for; without an id it has the default one.
    pub fn get_name_as_agent(&self) -> (r: Agent)
        requires
            self@.has_destination(),
        ensures
            r@ == self@.destination_agent(),
    {
        let (a_type, a_id) = self.get_slim_header().get_dst();
        let id: u64 = match a_id {
            None => DEFAULT_AGENT_ID,
            Some(id) => id,
        };
        Agent::new(a_type, id)
    }

    pub fn get_type(&self) -> (r: &MessageType)
        requires
            self@.body is Some,
        ensures
            r@ == self@.body->0,
    {
        match &self.message_type {
            Some(t) => t,
            None => vstd::pervasive::unreached(),
        }
    }

    /// The payload of a publication, where there is one.
    pub fn get_payload(&self) -> (r: Option<&Content>)
        requires
            self@.is_publish(),
        ensures
            match r {
                Some(c) => self@.payload() == Some(c@),
                None => self@.payload() is None,
            },
    {
        match &self.message_type {
            Some(MessageType::Publish(p)) => p.msg.as_ref(),
            _ => vstd::pervasive::unreached(),
        }
    }

    /// The kind of the message; a number that stands for none is read as unspecified.
    pub fn get_session_message_type(&self) -> (r: SessionMessageType)
        requires
            self@.session_header() is Some,
        ensures
            r == self@.kind(),
    {
        match SessionMessageType::try_from(self.get_session_header().session_message_type) {
            Ok(t) => t,
            Err(_) => SessionMessageType::default(),
        }
    }

    /// Forgets the two commands to the data plane.
    pub fn clear_slim_header(&mut self)
        requires
            old(self)@.slim_header() is Some,
        ensures
            final(self)@ == old(self)@.with_slim_header(
                SlimHeader { recv_from: None, forward_to: None, ..old(self)@.slim_header()->0 },
            ),
    {
        self.get_slim_header_mut().clear();
    }

    /// Sets the connection that the message is to count as received from.
    pub fn set_recv_from(&mut self, recv_from: Option<u64>)
        requires
            old(self)@.slim_header() is Some,
        ensures
            final(self)@ == old(self)@.with_slim_header(
                SlimHeader { recv_from, ..old(self)@.slim_header()->0 },
            ),
    {
        self.get_slim_header_mut().set_recv_from(recv_from);
    }

    /// Sets the connection that the message is to be forwarded to.
    pub fn set_forward_to(&mut self, forward_to: Option<u64>)
        requires
            old(self)@.slim_header() is Some,
        ensures
            final(self)@ == old(self)@.with_slim_header(
                SlimHeader { forward_to, ..old(self)@.slim_header()->0 },
            ),
    {
        self.get_slim_header_mut().set_forward_to(forward_to);
    }

    /// Sets whether the message reports an error.
    pub fn set_error(&mut self, error: Option<bool>)
        requires
            old(self)@.slim_header() is Some,
        ensures
            final(self)@ == old(self)@.with_slim_header(
                SlimHeader { error, ..old(self)@.slim_header()->0 },
            ),
    {
        self.get_slim_header_mut().set_error(error);
    }

    /// Sets to how many receivers the message goes.
    pub fn set_fanout(&mut self, fanout: u32)
        requires
            old(self)@.slim_header() is Some,
        ensures
            final(self)@ == old(self)@.with_slim_header(
                SlimHeader { fanout, ..old(self)@.slim_header()->0 },
            ),
    {
        self.get_slim_header_mut().set_fanout(fanout);
    }

    /// Sets the connection that the message came in on.
    pub fn set_incoming_conn(&mut self, incoming_conn: Option<u64>)
        requires
            old(self)@.slim_header() is Some,
        ensures
            final(self)@ == old(self)@.with_slim_header(
                SlimHeader { incoming_conn, ..old(self)@.slim_header()->0 },
            ),
    {
        self.get_slim_header_mut().set_incoming_conn(incoming_conn);
    }

    /// Sets whether the message reports an error.
    pub fn set_error_flag(&mut self, error: Option<bool>)
        requires
            old(self)@.slim_header() is Some,
        ensures
            final(self)@ == old(self)@.with_slim_header(
                SlimHeader { error, ..old(self)@.slim_header()->0 },
            ),
    {
        self.get_slim_header_mut().set_error_flag(error);
    }

    pub fn set_session_message_type(&mut self, message_type: SessionMessageType)
        requires
            old(self)@.session_header() is Some,
        ensures
            final(self)@ == old(self)@.with_session_header(
                SessionHeader {
                    session_message_type: message_type.code(),
                    ..old(self)@.session_header()->0
                },
            ),
    {
        self.get_session_header_mut().set_session_message_type(message_type);
    }

    pub fn set_session_type(&mut self, session_type: ProtoSessionType)
        requires
            old(self)@.session_header() is Some,
        ensures
            final(self)@ == old(self)@.with_session_header(
                SessionHeader {
                    session_type: session_type.code(),
                    ..old(self)@.session_header()->0
                },
            ),
    {
        self.get_session_header_mut().set_session_type(session_type);
    }

    /// The kind of the session; a number that stands for none is read as unknown.
    pub fn get_session_type(&self) -> (r: ProtoSessionType)
        requires
            self@.session_header() is Some,
        ensures
            r == ProtoSessionType::read(self@.session_header()->0.session_type),
    {
        self.get_session_header().session_type()
    }

    pub fn set_message_id(&mut self, message_id: u32)
        requires
            old(self)@.session_header() is Some,
        ensures
            final(self)@ == old(self)@.with_session_header(
                SessionHeader { message_id, ..old(self)@.session_header()->0 },
            ),
    {
        self.get_session_header_mut().set_message_id(message_id);
    }

    pub fn is_publish(&self) -> (r: bool)
        requires
            self@.body is Some,
        ensures
            r == self@.is_publish(),
    {
        matches!(self.get_type(), MessageType::Publish(_))
    }

    pub fn is_subscribe(&self) -> (r: bool)
        requires
            self@.body is Some,
        ensures
            r == (self@.body matches Some(MessageTypeView::Subscribe(_))),
    {
        matches!(self.get_type(), MessageType::Subscribe(_))
    }

    pub fn is_unsubscribe(&self) -> (r: bool)
        requires
            self@.body is Some,
        ensures
            r == (self@.body matches Some(MessageTypeView::Unsubscribe(_))),
    {
        matches!(self.get_type(), MessageType::Unsubscribe(_))
    }

    /// The publication that the message holds.
    pub fn as_ref(&self) -> (r: &ProtoPublish)
        requires
            self@.is_publish(),
        ensures
            self@.body == Some(MessageTypeView::Publish(r@)),
    {
        match &self.message_type {
            Some(MessageType::Publish(p)) => p,
            _ => vstd::pervasive::unreached(),
        }
    }
}

} // verus!
