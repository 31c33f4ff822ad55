//! The three bodies that a message can have.

use vstd::prelude::*;
use vstd::string::*;

use crate::encoder::{Agent, AgentType, AgentTypeView, AgentView};
use crate::message::ProtoMessage;
use crate::proto::{SessionHeader, SlimHeader, SlimHeaderFlags};
use crate::text::bytes_equal;

verus! {

/// The model of a payload.
pub struct ContentView {
    pub content_type: Seq<char>,
    pub blob: Seq<u8>,
}

/// A payload.
#[derive(Debug)]
pub struct Content {
    pub content_type: String,
    pub blob: Vec<u8>,
}

impl View for Content {
    type V = ContentView;

    open spec fn view(&self) -> ContentView {
        ContentView { content_type: self.content_type@, blob: self.blob@ }
    }
}

impl Clone for Content {
    fn clone(&self) -> (r: Self)
        ensures
            r@ == self@,
    {
        let blob = self.blob.clone();
        assert(blob@ =~= self.blob@);
        Content { content_type: self.content_type.clone(), blob }
    }
}

impl PartialEq for Content {
    fn eq(&self, other: &Self) -> (r: bool) {
        self.content_type == other.content_type && bytes_equal(&self.blob, &other.blob)
    }
}

impl vstd::std_specs::cmp::PartialEqSpecImpl for Content {
    open spec fn obeys_eq_spec() -> bool {
        true
    }

    open spec fn eq_spec(&self, other: &Self) -> bool {
        self@ == other@
    }
}

/// The model of a subscription.
pub struct SubscribeView {
    pub header: Option<SlimHeader>,
    pub organization: Seq<char>,
    pub namespace: Seq<char>,
    pub agent_type: Seq<char>,
}

/// A subscription to a name.
#[derive(Debug)]
pub struct ProtoSubscribe {
    pub header: Option<SlimHeader>,
    pub organization: String,
    pub namespace: String,
    pub agent_type: String,
}

impl View for ProtoSubscribe {
    type V = SubscribeView;

    open spec fn view(&self) -> SubscribeView {
        SubscribeView {
            header: self.header,
            organization: self.organization@,
            namespace: self.namespace@,
            agent_type: self.agent_type@,
        }
    }
}

impl Clone for ProtoSubscribe {
    fn clone(&self) -> (r: Self)
        ensures
            r@ == self@,
    {
        ProtoSubscribe {
            header: self.header,
            organization: self.organization.clone(),
            namespace: self.namespace.clone(),
            agent_type: self.agent_type.clone(),
        }
    }
}

impl PartialEq for ProtoSubscribe {
    fn eq(&self, other: &Self) -> (r: bool) {
        self.header == other.header && self.organization == other.organization && self.namespace
            == other.namespace && self.agent_type == other.agent_type
    }
}

impl vstd::std_specs::cmp::PartialEqSpecImpl for ProtoSubscribe {
    open spec fn obeys_eq_spec() -> bool {
        true
    }

    open spec fn eq_spec(&self, other: &Self) -> bool {
        self@ == other@
    }
}

impl SubscribeView {
    /// The subscription of a source to a name whose texts are known.
    pub open spec fn of(
        source: AgentView,
        agent_type: AgentTypeView,
        agent_id: Option<u64>,
        flags: Option<SlimHeaderFlags>,
    ) -> SubscribeView {
        SubscribeView {
            header: Some(SlimHeader::spec_new(source, agent_type, agent_id, flags)),
            organization: agent_type.strings->0.organization,
            namespace: agent_type.strings->0.namespace,
            agent_type: agent_type.strings->0.agent_type,
        }
    }
}

impl ProtoSubscribe {
    /// The subscription of a source to a name; it carries the name's texts.
    pub fn new(
        source: &Agent,
        agent_type: &AgentType,
        agent_id: Option<u64>,
        flags: Option<SlimHeaderFlags>,
    ) -> (r: Self)
        requires
            agent_type@.strings is Some,
        ensures
            r@ == SubscribeView::of(source@, agent_type@, agent_id, flags),
    {
        let header = Some(SlimHeader::new(source, agent_type, agent_id, flags));
        ProtoSubscribe {
            header,
            organization: agent_type.organization_string().unwrap(),
            namespace: agent_type.namespace_string().unwrap(),
            agent_type: agent_type.agent_type_string().unwrap(),
        }
    }

    /// The subscription that a message holds.
    pub fn from(message: ProtoMessage) -> (r: Self)
        requires
            message@.body matches Some(MessageTypeView::Subscribe(_)),
        ensures
            message@.body == Some(MessageTypeView::Subscribe(r@)),
    {
        match message.message_type {
            Some(MessageType::Subscribe(s)) => s,
            _ => vstd::pervasive::unreached(),
        }
    }
}

/// The end of a subscription.
#[derive(Clone, Copy, Debug, PartialEq, Eq, Structural)]
pub struct ProtoUnsubscribe {
    pub header: Option<SlimHeader>,
}

impl ProtoUnsubscribe {
    pub fn with_header(header: Option<SlimHeader>) -> (r: Self)
        ensures
            r == (ProtoUnsubscribe { header }),
    {
        ProtoUnsubscribe { header }
    }

    /// The end of a source's subscription to a name.
    pub fn new(
        source: &Agent,
        agent_type: &AgentType,
        agent_id: Option<u64>,
        flags: Option<SlimHeaderFlags>,
    ) -> (r: Self)
        ensures
            r == (ProtoUnsubscribe {
                header: Some(SlimHeader::spec_new(source@, agent_type@, agent_id, flags)),
            }),
    {
        let header = Some(SlimHeader::new(source, agent_type, agent_id, flags));
        Self::with_header(header)
    }

    /// The end of a subscription that a message holds.
    pub fn from(message: ProtoMessage) -> (r: Self)
        requires
            message@.body matches Some(MessageTypeView::Unsubscribe(_)),
        ensures
            message@.body == Some(MessageTypeView::Unsubscribe(r)),
    {
        match message.message_type {
            Some(MessageType::Unsubscribe(u)) => u,
            _ => vstd::pervasive::unreached(),
        }
    }
}

/// The model of a publication.
pub struct PublishView {
    pub header: Option<SlimHeader>,
    pub session: Option<SessionHeader>,
    pub msg: Option<ContentView>,
}

/// A publication to a name.
#[derive(Debug)]
pub struct ProtoPublish {
    pub header: Option<SlimHeader>,
    pub session: Option<SessionHeader>,
    pub msg: Option<Content>,
}

/// The model of an optional payload.
pub open spec fn content_view(msg: Option<Content>) -> Option<ContentView> {
    match msg {
        Some(c) => Some(c@),
        None => None,
    }
}

impl View for ProtoPublish {
    type V = PublishView;

    open spec fn view(&self) -> PublishView {
        PublishView { header: self.header, session: self.session, msg: content_view(self.msg) }
    }
}

impl Clone for ProtoPublish {
    fn clone(&self) -> (r: Self)
        ensures
            r@ == self@,
    {
        ProtoPublish {
            header: self.header,
            session: self.session,
            msg: match &self.msg {
                Some(c) => Some(c.clone()),
                None => None,
            },
        }
    }
}

impl PartialEq for ProtoPublish {
    fn eq(&self, other: &Self) -> (r: bool) {
        self.header == other.header && self.session == other.session && match (
            &self.msg,
            &other.msg,
        ) {
            (Some(a), Some(b)) => *a == *b,
            (None, None) => true,
            _ => false,
        }
    }
}

impl vstd::std_specs::cmp::PartialEqSpecImpl for ProtoPublish {
    open spec fn obeys_eq_spec() -> bool {
        true
    }

    open spec fn eq_spec(&self, other: &Self) -> bool {
        self@ == other@
    }
}

impl ProtoPublish {
    pub fn with_header(
        header: Option<SlimHeader>,
        session: Option<SessionHeader>,
        payload: Option<Content>,
    ) -> (r: Self)
        ensures
            r@ == (PublishView { header, session, msg: content_view(payload) }),
    {
        ProtoPublish { header, session, msg: payload }
    }

    /// The publication of a payload by a source to a name, outside any session.
    pub fn new(
        source: &Agent,
        agent_type: &AgentType,
        agent_id: Option<u64>,
        flags: Option<SlimHeaderFlags>,
        content_type: &str,
        blob: Vec<u8>,
    ) -> (r: Self)
        ensures
            r@ == (PublishView {
                header: Some(SlimHeader::spec_new(source@, agent_type@, agent_id, flags)),
                session: Some(crate::proto::default_session_header()),
                msg: Some(ContentView { content_type: content_type@, blob: blob@ }),
            }),
    {
        let slim_header = Some(SlimHeader::new(source, agent_type, agent_id, flags));
        let session_header = Some(SessionHeader::default());
        let msg = Some(Content { content_type: content_type.to_owned(), blob });
        Self::with_header(slim_header, session_header, msg)
    }

    pub fn get_slim_header(&self) -> (r: &SlimHeader)
        requires
            self@.header is Some,
        ensures
            *r == self@.header->0,
    {
        self.header.as_ref().unwrap()
    }

    pub fn get_session_header(&self) -> (r: &SessionHeader)
        requires
            self@.session is Some,
        ensures
            *r == self@.session->0,
    {
        self.session.as_ref().unwrap()
    }

    pub fn get_slim_header_as_mut(&mut self) -> (r: &mut SlimHeader)
        requires
            old(self)@.header is Some,
        ensures
            *r == old(self)@.header->0,
            final(self)@ == (PublishView { header: Some(*final(r)), ..old(self)@ }),
    {
        self.header.as_mut().unwrap()
    }

    pub fn get_session_header_as_mut(&mut self) -> (r: &mut SessionHeader)
        requires
            old(self)@.session is Some,
        ensures
            *r == old(self)@.session->0,
            final(self)@ == (PublishView { session: Some(*final(r)), ..old(self)@ }),
    {
        self.session.as_mut().unwrap()
    }

    pub fn get_payload(&self) -> (r: &Content)
        requires
            self@.msg is Some,
        ensures
            r@ == self@.msg->0,
    {
        self.msg.as_ref().unwrap()
    }

    /// The publication that a message holds.
    pub fn from(message: ProtoMessage) -> (r: Self)
        requires
            message@.body matches Some(MessageTypeView::Publish(_)),
        ensures
            message@.body == Some(MessageTypeView::Publish(r@)),
    {
        match message.message_type {
            Some(MessageType::Publish(p)) => p,
            _ => vstd::pervasive::unreached(),
        }
    }
}

/// The model of a message's body.
pub enum MessageTypeView {
    Subscribe(SubscribeView),
    Unsubscribe(ProtoUnsubscribe),
    Publish(PublishView),
}

/// A message's body.
#[derive(Debug)]
pub enum MessageType {
    Subscribe(ProtoSubscribe),
    Unsubscribe(ProtoUnsubscribe),
    Publish(ProtoPublish),
}

impl View for MessageType {
    type V = MessageTypeView;

    open spec fn view(&self) -> MessageTypeView {
        match self {
            MessageType::Subscribe(s) => MessageTypeView::Subscribe(s@),
            MessageType::Unsubscribe(u) => MessageTypeView::Unsubscribe(*u),
            MessageType::Publish(p) => MessageTypeView::Publish(p@),
        }
    }
}

impl Clone for MessageType {
    fn clone(&self) -> (r: Self)
        ensures
            r@ == self@,
    {
        match self {
            MessageType::Subscribe(s) => MessageType::Subscribe(s.clone()),
            MessageType::Unsubscribe(u) => MessageType::Unsubscribe(*u),
            MessageType::Publish(p) => MessageType::Publish(p.clone()),
        }
    }
}

impl PartialEq for MessageType {
    fn eq(&self, other: &Self) -> (r: bool) {
        match (self, other) {
            (MessageType::Subscribe(a), MessageType::Subscribe(b)) => *a == *b,
            (MessageType::Unsubscribe(a), MessageType::Unsubscribe(b)) => *a == *b,
            (MessageType::Publish(a), MessageType::Publish(b)) => *a == *b,
            _ => false,
        }
    }
}

impl vstd::std_specs::cmp::PartialEqSpecImpl for MessageType {
    open spec fn obeys_eq_spec() -> bool {
        true
    }

    open spec fn eq_spec(&self, other: &Self) -> bool {
        self@ == other@
    }
}

impl MessageTypeView {
    /// The name of a kind of body.
    pub open spec fn text(self) -> Seq<char> {
        match self {
            MessageTypeView::Publish(_) => "publish"@,
            MessageTypeView::Subscribe(_) => "subscribe"@,
            MessageTypeView::Unsubscribe(_) => "unsubscribe"@,
        }
    }
}

impl MessageType {
    /// The name of a kind of body.
    pub fn to_string(&self) -> (r: String)
        ensures
            r@ == self@.text(),
    {
        match self {
            MessageType::Publish(_) => "publish".to_owned(),
            MessageType::Subscribe(_) => "subscribe".to_owned(),
            MessageType::Unsubscribe(_) => "unsubscribe".to_owned(),
        }
    }
}

} // verus!
