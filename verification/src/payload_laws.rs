//! What a join request's payload is made of.

use vstd::prelude::*;

use crate::encoder::{AgentTypeView, AgentView, TypeStringsView};
use crate::payload::{JoinMessagePayload, JoinPayloadView, WireType, WireTypeRef, WireTypeView};

verus! {

/// A name is written down as its three numbers and its three texts, each in its place,
/// and read from the same places.
pub proof fn names_are_written_in_order(t: AgentTypeView, w: WireTypeView)
    ensures
        crate::payload::to_wire(t).0 == t.organization,
        crate::payload::to_wire(t).1 == t.namespace,
        crate::payload::to_wire(t).2 == t.agent_type,
        crate::payload::to_wire(t).3 is None <==> t.strings is None,
        t.strings matches Some(s) ==> crate::payload::to_wire(t).3 == Some(
            (s.organization, s.namespace, s.agent_type),
        ),
        crate::payload::from_wire(w).organization == w.0,
        crate::payload::from_wire(w).namespace == w.1,
        crate::payload::from_wire(w).agent_type == w.2,
        crate::payload::from_wire(w).strings is None <==> w.3 is None,
        w.3 matches Some(s) ==> crate::payload::from_wire(w).strings == Some(
            TypeStringsView { organization: s.0, namespace: s.1, agent_type: s.2 },
        ),
{
}

/// A name that is written down and read is the same name, texts included, and so the
/// other way round.
pub proof fn written_names_are_read_back(t: AgentTypeView, w: WireTypeView)
    ensures
        crate::payload::from_wire(crate::payload::to_wire(t)) == t,
        crate::payload::to_wire(crate::payload::from_wire(w)) == w,
{
}

/// The bytes of a payload are those of the channel's name, the moderator's name and the
/// moderator's id.
pub proof fn payloads_hold_channel_and_moderator(p: JoinPayloadView)
    ensures
        p.bytes() == crate::payload::encoded_names(
            crate::payload::to_wire(p.channel_name),
            crate::payload::to_wire(p.moderator_name.agent_type),
            p.moderator_name.agent_id,
        ),
{
}

/// What is read from bytes is the channel, the moderator and its id that they start with,
/// and nothing where they start with none.
pub proof fn payloads_are_read_from_bytes(
    bytes: Seq<u8>,
    channel: WireTypeView,
    moderator: WireTypeView,
    id: u64,
)
    ensures
        crate::payload::decoded_names(bytes) is None <==> JoinPayloadView::read(bytes) is None,
        crate::payload::decoded_names(bytes) == Some((channel, (moderator, id)))
            ==> JoinPayloadView::read(bytes) == Some(
            JoinPayloadView {
                channel_name: crate::payload::from_wire(channel),
                moderator_name: AgentView {
                    agent_type: crate::payload::from_wire(moderator),
                    agent_id: id,
                },
            },
        ),
{
}

/// The models of a payload and of written names show all that they hold.
pub proof fn models_of_payloads(p: JoinMessagePayload, t: WireType, r: WireTypeRef<'_>)
    ensures
        p@.channel_name == p.channel_name@,
        p@.moderator_name == p.moderator_name@,
        crate::payload::wire_type(t).0 == t.0,
        crate::payload::wire_type(t).1 == t.1,
        crate::payload::wire_type(t).2 == t.2,
        crate::payload::wire_type(t).3 is None <==> t.3 is None,
        t.3 matches Some(s) ==> crate::payload::wire_type(t).3 == Some((s.0@, s.1@, s.2@)),
        crate::payload::wire_type_ref(r).0 == r.0,
        crate::payload::wire_type_ref(r).1 == r.1,
        crate::payload::wire_type_ref(r).2 == r.2,
        crate::payload::wire_type_ref(r).3 is None <==> r.3 is None,
        r.3 matches Some(s) ==> crate::payload::wire_type_ref(r).3 == Some((s.0@, s.1@, s.2@)),
{
}

} // verus!
