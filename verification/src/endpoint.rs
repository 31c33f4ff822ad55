//! What moderator and participant of a channel share.

use vstd::prelude::*;
use vstd::string::*;

use crate::encoder::{Agent, AgentType, AgentTypeView, AgentView};
use crate::kinds::{ProtoSessionType, SessionMessageType};
use crate::message::{MessageView, ProtoMessage};
use crate::mls::{MlsState, MlsView};
use crate::proto::{SessionHeader, SlimHeader, SlimHeaderFlags};

verus! {

/// The model of an endpoint.
pub struct EndpointView {
    pub name: AgentView,
    pub channel_name: AgentTypeView,
    pub channel_id: Option<u64>,
    pub session_id: u32,
    pub session_type: ProtoSessionType,
    pub conn: Option<u64>,
    pub subscribed: bool,
    pub mls_state: Option<MlsView>,
}

/// An endpoint of a channel.
#[derive(Debug)]
pub struct Endpoint {
    pub name: Agent,
    pub channel_name: AgentType,
    /// The id of the channel, to exchange messages with a single endpoint.
    pub channel_id: Option<u64>,
    pub session_id: u32,
    pub session_type: ProtoSessionType,
    /// The connection to the next hop.
    pub conn: Option<u64>,
    /// Whether the endpoint has subscribed to the channel.
    pub subscribed: bool,
    pub mls_state: Option<MlsState>,
}

/// The model of the state in a group, where there is one.
pub open spec fn mls_view(mls: Option<MlsState>) -> Option<MlsView> {
    match mls {
        Some(m) => Some(m@),
        None => None,
    }
}

impl View for Endpoint {
    type V = EndpointView;

    open spec fn view(&self) -> EndpointView {
        EndpointView {
            name: self.name@,
            channel_name: self.channel_name@,
            channel_id: self.channel_id,
            session_id: self.session_id,
            session_type: self.session_type,
            conn: self.conn,
            subscribed: self.subscribed,
            mls_state: mls_view(self.mls_state),
        }
    }
}

/// Flags that have the next hop forward a message to a connection.
pub open spec fn forward_to(conn: u64) -> SlimHeaderFlags {
    SlimHeaderFlags { forward_to: Some(conn), ..crate::proto::default_flags() }
}

/// Flags that have the next hop treat a message as received from a connection.
pub open spec fn recv_from(conn: u64) -> SlimHeaderFlags {
    SlimHeaderFlags { recv_from: Some(conn), ..crate::proto::default_flags() }
}

/// Flags of a message to all in the channel.
pub open spec fn broadcast_flags() -> SlimHeaderFlags {
    SlimHeaderFlags {
        fanout: 10,
        recv_from: None,
        forward_to: None,
        incoming_conn: None,
        error: None,
    }
}

impl EndpointView {
    /// An endpoint that has not heard from its channel.
    pub open spec fn initial(
        name: AgentView,
        channel_name: AgentTypeView,
        channel_id: Option<u64>,
        session_id: u32,
        session_type: ProtoSessionType,
        mls_state: Option<MlsView>,
    ) -> EndpointView {
        EndpointView {
            name,
            channel_name,
            channel_id,
            session_id,
            session_type,
            conn: None,
            subscribed: false,
            mls_state,
        }
    }

    /// A control message of the channel's session.
    pub open spec fn channel_message(
        self,
        destination: AgentTypeView,
        destination_id: Option<u64>,
        broadcast: bool,
        request_type: SessionMessageType,
        message_id: u32,
        payload: Seq<u8>,
    ) -> MessageView {
        MessageView::publish(
            Some(
                SlimHeader::spec_new(
                    self.name,
                    destination,
                    destination_id,
                    if broadcast {
                        Some(broadcast_flags())
                    } else {
                        None
                    },
                ),
            ),
            Some(
                SessionHeader {
                    session_type: self.session_type.code(),
                    session_message_type: request_type.code(),
                    session_id: self.session_id,
                    message_id,
                },
            ),
            ""@,
            payload,
        )
    }

    /// A control message to one agent.
    pub open spec fn message_to(
        self,
        agent: AgentView,
        request_type: SessionMessageType,
        message_id: u32,
        payload: Seq<u8>,
    ) -> MessageView {
        self.channel_message(
            agent.agent_type,
            agent.id_option(),
            false,
            request_type,
            message_id,
            payload,
        )
    }

    /// The answer to a message: it goes to its source, under its id.
    pub open spec fn answer(
        self,
        msg: MessageView,
        request_type: SessionMessageType,
        payload: Seq<u8>,
    ) -> MessageView {
        self.message_to(msg.source(), request_type, msg.id(), payload)
    }

    /// A control message to all in the channel.
    pub open spec fn broadcast(
        self,
        request_type: SessionMessageType,
        message_id: u32,
        payload: Seq<u8>,
    ) -> MessageView {
        self.channel_message(self.channel_name, None, true, request_type, message_id, payload)
    }

    /// Whether the endpoint can subscribe to the channel: the connection is known, and
    /// the texts of the channel's name are.
    pub open spec fn can_subscribe(self) -> bool {
        self.conn is Some && self.channel_name.strings is Some
    }

    /// The subscription to the channel, for the next hop.
    pub open spec fn subscription(self) -> MessageView {
        MessageView::subscribe(
            self.name,
            self.channel_name,
            None,
            Some(forward_to(self.conn->0)),
        )
    }

    /// The route to a name by the next hop.
    pub open spec fn route(self, name: AgentTypeView, id: Option<u64>) -> MessageView {
        MessageView::subscribe(self.name, name, id, Some(recv_from(self.conn->0)))
    }

    /// The end of the subscription to the channel, for the next hop.
    pub open spec fn unsubscription(self) -> MessageView {
        MessageView::unsubscribe(
            self.name,
            self.channel_name,
            None,
            Some(forward_to(self.conn->0)),
        )
    }

    /// The end of the route to a name by the next hop.
    pub open spec fn unroute(self, name: AgentTypeView, id: Option<u64>) -> MessageView {
        MessageView::unsubscribe(self.name, name, id, Some(recv_from(self.conn->0)))
    }
}

impl Endpoint {
    pub fn new(
        name: Agent,
        channel_name: AgentType,
        channel_id: Option<u64>,
        session_id: u32,
        session_type: ProtoSessionType,
        mls_state: Option<MlsState>,
    ) -> (r: Self)
        ensures
            r@ == EndpointView::initial(
                name@,
                channel_name@,
                channel_id,
                session_id,
                session_type,
                mls_view(mls_state),
            ),
    {
        Endpoint {
            name,
            channel_name,
            channel_id,
            session_id,
            session_type,
            conn: None,
            subscribed: false,
            mls_state,
        }
    }

    /// A control message of the channel's session.
    pub fn create_channel_message(
        &self,
        destination: &AgentType,
        destination_id: Option<u64>,
        broadcast: bool,
        request_type: SessionMessageType,
        message_id: u32,
        payload: Vec<u8>,
    ) -> (r: ProtoMessage)
        ensures
            r@ == self@.channel_message(
                destination@,
                destination_id,
                broadcast,
                request_type,
                message_id,
                payload@,
            ),
    {
        let flags = if broadcast {
            Some(SlimHeaderFlags::new(10, None, None, None, None))
        } else {
            None
        };
        let slim_header = Some(SlimHeader::new(&self.name, destination, destination_id, flags));
        let session_header = Some(
            SessionHeader::new(
                i32::from(self.session_type),
                i32::from(request_type),
                self.session_id,
                message_id,
            ),
        );
        ProtoMessage::new_publish_with_headers(slim_header, session_header, "", payload)
    }

    /// The answer to a message: it goes to its source, under its id.
    pub fn answer(
        &self,
        msg: &ProtoMessage,
        request_type: SessionMessageType,
        payload: Vec<u8>,
    ) -> (r: ProtoMessage)
        requires
            msg@.has_source(),
            msg@.session_header() is Some,
        ensures
            r@ == self@.answer(msg@, request_type, payload@),
    {
        let src = msg.get_source();
        self.create_channel_message(
            src.agent_type(),
            src.agent_id_option(),
            false,
            request_type,
            msg.get_id(),
            payload,
        )
    }

    /// Whether the endpoint can subscribe to the channel.
    pub(crate) fn can_subscribe(&self) -> (r: bool)
        ensures
            r == self@.can_subscribe(),
    {
        self.conn.is_some() && self.channel_name.strings.is_some()
    }

    /// Subscribes to the channel, but only once. The subscription is handed out, where
    /// there was none before; the route to the channel is to follow it.
    pub fn join(&mut self) -> (r: Option<ProtoMessage>)
        requires
            !old(self)@.subscribed ==> old(self)@.can_subscribe(),
        ensures
            final(self)@ == (EndpointView { subscribed: true, ..old(self)@ }),
            match r {
                Some(m) => !old(self)@.subscribed && m@ == old(self)@.subscription(),
                None => old(self)@.subscribed,
            },
    {
        if self.subscribed {
            return None;
        }
        self.subscribed = true;
        let header = Some(SlimHeaderFlags::default().with_forward_to(self.conn.unwrap()));
        Some(ProtoMessage::new_subscribe(&self.name, &self.channel_name, None, header))
    }

    /// The route to a name by the next hop.
    pub fn set_route(&self, route_name: &AgentType, route_id: Option<u64>) -> (r: ProtoMessage)
        requires
            self@.conn is Some,
            route_name@.strings is Some,
        ensures
            r@ == self@.route(route_name@, route_id),
    {
        let header = Some(SlimHeaderFlags::default().with_recv_from(self.conn.unwrap()));
        ProtoMessage::new_subscribe(&self.name, route_name, route_id, header)
    }

    /// The route to the channel by the next hop.
    pub fn set_channel_route(&self) -> (r: ProtoMessage)
        requires
            self@.can_subscribe(),
        ensures
            r@ == self@.route(self@.channel_name, None),
    {
        self.set_route(&self.channel_name, None)
    }

    /// The end of the route to a name by the next hop.
    pub fn delete_route(&self, route_name: &AgentType, route_id: Option<u64>) -> (r: ProtoMessage)
        requires
            self@.conn is Some,
        ensures
            r@ == self@.unroute(route_name@, route_id),
    {
        let header = Some(SlimHeaderFlags::default().with_recv_from(self.conn.unwrap()));
        ProtoMessage::new_unsubscribe(&self.name, route_name, route_id, header)
    }

    /// The end of the subscription to the channel; the end of the route is to follow it.
    pub fn leave(&self) -> (r: ProtoMessage)
        requires
            self@.conn is Some,
        ensures
            r@ == self@.unsubscription(),
    {
        let header = Some(SlimHeaderFlags::default().with_forward_to(self.conn.unwrap()));
        ProtoMessage::new_unsubscribe(&self.name, &self.channel_name, None, header)
    }
}

/// Whether a message can be answered: it names its source and has an id.
pub(crate) fn can_answer(msg: &ProtoMessage) -> (r: bool)
    ensures
        r == msg@.can_answer(),
{
    let source = match msg.try_get_slim_header() {
        Some(h) => h.source.is_some(),
        None => false,
    };
    source && msg.try_get_session_header().is_some()
}

/// Whether a message says on which connection it came in.
pub(crate) fn has_incoming_conn(msg: &ProtoMessage) -> (r: bool)
    ensures
        r == msg@.has_incoming_conn(),
{
    match msg.try_get_slim_header() {
        Some(h) => h.incoming_conn.is_some(),
        None => false,
    }
}

/// The payload of a message that says all by its headers.
pub(crate) fn no_payload() -> (r: Vec<u8>)
    ensures
        r@ == Seq::<u8>::empty(),
{
    Vec::new()
}

} // verus!
