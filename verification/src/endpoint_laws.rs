//! What an endpoint sends, header by header.

use vstd::prelude::*;

use crate::bodies::{ContentView, MessageTypeView, ProtoUnsubscribe, PublishView, SubscribeView};
use crate::encoder::{AgentTypeView, AgentView, TypeStringsView};
use crate::endpoint::{Endpoint, EndpointView};
use crate::kinds::{ProtoSessionType, SessionMessageType};
use crate::message::MessageView;
use crate::mls::{MlsState, MlsView};
use crate::proto::{ProtoAgent, SessionHeader, SlimHeader};

verus! {

/// A new endpoint has what it was made with, no connection and no subscription. The model
/// shows all that an endpoint holds.
pub proof fn endpoints_start_unconnected(
    name: AgentView,
    channel_name: AgentTypeView,
    channel_id: Option<u64>,
    session_id: u32,
    session_type: ProtoSessionType,
    mls_state: Option<MlsView>,
    e: Endpoint,
    s: MlsState,
)
    ensures
        EndpointView::initial(name, channel_name, channel_id, session_id, session_type, mls_state)
            == (EndpointView {
            name,
            channel_name,
            channel_id,
            session_id,
            session_type,
            conn: None,
            subscribed: false,
            mls_state,
        }),
        e@.name == e.name@,
        e@.channel_name == e.channel_name@,
        e@.channel_id == e.channel_id,
        e@.session_id == e.session_id,
        e@.session_type == e.session_type,
        e@.conn == e.conn,
        e@.subscribed == e.subscribed,
        e@.mls_state == crate::endpoint::mls_view(e.mls_state),
        crate::endpoint::mls_view(Some(s)) == Some(s@),
        crate::endpoint::mls_view(None) is None,
{
}

/// An endpoint can subscribe once the connection and the texts of the channel's name are
/// known, whatever else it holds.
pub proof fn subscribing_needs_a_connection_and_texts(e: EndpointView)
    ensures
        e.can_subscribe() <==> e.conn is Some && e.channel_name.strings is Some,
{
}

/// The subscription to the channel is a subscription of the endpoint's name to the
/// channel's name, without an id, that the next hop is to forward to the connection.
pub proof fn subscription_is_forwarded(e: EndpointView, conn: u64, texts: TypeStringsView)
    requires
        e.conn == Some(conn),
        e.channel_name.strings == Some(texts),
    ensures
        e.subscription() == (MessageView {
            metadata: Map::empty(),
            body: Some(
                MessageTypeView::Subscribe(
                    SubscribeView {
                        header: Some(
                            SlimHeader {
                                source: Some(ProtoAgent::of_agent(e.name)),
                                destination: Some(ProtoAgent::of_type(e.channel_name, None)),
                                fanout: 1,
                                recv_from: None,
                                forward_to: Some(conn),
                                incoming_conn: None,
                                error: None,
                            },
                        ),
                        organization: texts.organization,
                        namespace: texts.namespace,
                        agent_type: texts.agent_type,
                    },
                ),
            ),
        }),
{
}

/// A route to a name is a subscription of the endpoint's name to that name and id, that
/// counts as received from the connection and is forwarded nowhere.
pub proof fn route_counts_as_received(
    e: EndpointView,
    conn: u64,
    name: AgentTypeView,
    id: Option<u64>,
    texts: TypeStringsView,
)
    requires
        e.conn == Some(conn),
        name.strings == Some(texts),
    ensures
        e.route(name, id) == (MessageView {
            metadata: Map::empty(),
            body: Some(
                MessageTypeView::Subscribe(
                    SubscribeView {
                        header: Some(
                            SlimHeader {
                                source: Some(ProtoAgent::of_agent(e.name)),
                                destination: Some(ProtoAgent::of_type(name, id)),
                                fanout: 1,
                                recv_from: Some(conn),
                                forward_to: None,
                                incoming_conn: None,
                                error: None,
                            },
                        ),
                        organization: texts.organization,
                        namespace: texts.namespace,
                        agent_type: texts.agent_type,
                    },
                ),
            ),
        }),
{
}

/// The end of the subscription to the channel is an unsubscription of the endpoint's name
/// from the channel's name, without an id, that the next hop is to forward to the
/// connection.
pub proof fn unsubscription_is_forwarded(e: EndpointView, conn: u64)
    requires
        e.conn == Some(conn),
    ensures
        e.unsubscription() == (MessageView {
            metadata: Map::empty(),
            body: Some(
                MessageTypeView::Unsubscribe(
                    ProtoUnsubscribe {
                        header: Some(
                            SlimHeader {
                                source: Some(ProtoAgent::of_agent(e.name)),
                                destination: Some(ProtoAgent::of_type(e.channel_name, None)),
                                fanout: 1,
                                recv_from: None,
                                forward_to: Some(conn),
                                incoming_conn: None,
                                error: None,
                            },
                        ),
                    },
                ),
            ),
        }),
{
}

/// The end of a route to a name is an unsubscription of the endpoint's name from that name
/// and id, that counts as received from the connection and is forwarded nowhere. So it
/// undoes the route that was set for the same name and id, header for header.
pub proof fn end_of_a_route_counts_as_received(
    e: EndpointView,
    conn: u64,
    name: AgentTypeView,
    id: Option<u64>,
)
    requires
        e.conn == Some(conn),
    ensures
        e.unroute(name, id) == (MessageView {
            metadata: Map::empty(),
            body: Some(
                MessageTypeView::Unsubscribe(
                    ProtoUnsubscribe {
                        header: Some(
                            SlimHeader {
                                source: Some(ProtoAgent::of_agent(e.name)),
                                destination: Some(ProtoAgent::of_type(name, id)),
                                fanout: 1,
                                recv_from: Some(conn),
                                forward_to: None,
                                incoming_conn: None,
                                error: None,
                            },
                        ),
                    },
                ),
            ),
        }),
        e.unroute(name, id).slim_header() == e.route(name, id).slim_header(),
        e.unsubscription().slim_header() == e.subscription().slim_header(),
{
}

/// The flags of these messages: one command each, and ten receivers for a message to the
/// whole channel.
pub proof fn flags_of_endpoint_messages(conn: u64)
    ensures
        crate::endpoint::forward_to(conn).forward_to == Some(conn),
        crate::endpoint::forward_to(conn).recv_from is None,
        crate::endpoint::recv_from(conn).recv_from == Some(conn),
        crate::endpoint::recv_from(conn).forward_to is None,
        crate::endpoint::forward_to(conn).fanout == 1 && crate::endpoint::recv_from(conn).fanout
            == 1,
        crate::endpoint::broadcast_flags().fanout == 10,
        crate::endpoint::broadcast_flags().recv_from is None,
        crate::endpoint::broadcast_flags().forward_to is None,
        crate::endpoint::broadcast_flags().incoming_conn is None,
        crate::endpoint::broadcast_flags().error is None,
{
}

/// A control message is a publication without metadata, in the endpoint's session, from
/// the endpoint's name to the given one, of the given kind, under the given id and with
/// the given payload. It goes to ten receivers where it is for the whole channel, else to
/// one.
pub proof fn control_message_part_by_part(
    e: EndpointView,
    destination: AgentTypeView,
    destination_id: Option<u64>,
    broadcast: bool,
    kind: SessionMessageType,
    id: u32,
    payload: Seq<u8>,
)
    ensures
        e.channel_message(destination, destination_id, broadcast, kind, id, payload)
            == (MessageView {
            metadata: Map::empty(),
            body: Some(
                MessageTypeView::Publish(
                    PublishView {
                        header: Some(
                            SlimHeader {
                                source: Some(ProtoAgent::of_agent(e.name)),
                                destination: Some(
                                    ProtoAgent::of_type(destination, destination_id),
                                ),
                                fanout: if broadcast {
                                    10
                                } else {
                                    1
                                },
                                recv_from: None,
                                forward_to: None,
                                incoming_conn: None,
                                error: None,
                            },
                        ),
                        session: Some(
                            SessionHeader {
                                session_type: e.session_type.code(),
                                session_message_type: kind.code(),
                                session_id: e.session_id,
                                message_id: id,
                            },
                        ),
                        msg: Some(ContentView { content_type: ""@, blob: payload }),
                    },
                ),
            ),
        }),
{
}

/// A message to one agent is a control message to its name and id, an answer is one to
/// the source of what it answers, under the same id, and a broadcast one to the channel's
/// name.
pub proof fn receivers_of_control_messages(
    e: EndpointView,
    agent: AgentView,
    msg: MessageView,
    kind: SessionMessageType,
    id: u32,
    payload: Seq<u8>,
)
    ensures
        e.message_to(agent, kind, id, payload) == e.channel_message(
            agent.agent_type,
            agent.id_option(),
            false,
            kind,
            id,
            payload,
        ),
        e.answer(msg, kind, payload) == e.channel_message(
            msg.source().agent_type,
            msg.source().id_option(),
            false,
            kind,
            msg.id(),
            payload,
        ),
        e.broadcast(kind, id, payload) == e.channel_message(
            e.channel_name,
            None,
            true,
            kind,
            id,
            payload,
        ),
{
}

} // verus!
