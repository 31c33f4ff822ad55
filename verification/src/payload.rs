//! The payload of a join request: the channel, and the moderator that invites to it.

use vstd::prelude::*;
use vstd::string::*;

use crate::encoder::{
    Agent, AgentType, AgentTypeView, AgentView, TypeStrings, TypeStringsView,
};

verus! {

/// The numbers of a type's name and, where they are known, its texts.
pub type WireType = (u64, u64, u64, Option<(String, String, String)>);

/// A [`WireType`] that borrows its texts.
pub type WireTypeRef<'a> = (u64, u64, u64, Option<(&'a str, &'a str, &'a str)>);

/// The model of a [`WireType`].
pub type WireTypeView = (u64, u64, u64, Option<(Seq<char>, Seq<char>, Seq<char>)>);

/// The model of a [`WireType`].
pub open spec fn wire_type(t: WireType) -> WireTypeView {
    (
        t.0,
        t.1,
        t.2,
        match t.3 {
            Some(s) => Some((s.0@, s.1@, s.2@)),
            None => None,
        },
    )
}

/// The model of a [`WireTypeRef`].
pub open spec fn wire_type_ref(t: WireTypeRef<'_>) -> WireTypeView {
    (
        t.0,
        t.1,
        t.2,
        match t.3 {
            Some(s) => Some((s.0@, s.1@, s.2@)),
            None => None,
        },
    )
}

/// The bytes that hold the names of a channel and of a moderator with its id.
pub uninterp spec fn encoded_names(
    channel: WireTypeView,
    moderator: WireTypeView,
    moderator_id: u64,
) -> Seq<u8>;

/// The names of a channel and of a moderator with its id that bytes start with.
pub uninterp spec fn decoded_names(bytes: Seq<u8>) -> Option<(WireTypeView, (WireTypeView, u64))>;

/// Why bytes could not be read.
#[verifier::external_type_specification]
#[verifier::external_body]
pub struct ExDecodeError(bincode::error::DecodeError);

/// Writes names down with `bincode::encode_to_vec`, in its standard configuration.
///
/// What is believed: the bytes depend on the names alone, and reading them gives the
/// names back. Writing these types to a vector does not fail.
#[verifier::external_body]
fn encode_names(channel: WireType, moderator: WireType, moderator_id: u64) -> (r: Vec<u8>)
    ensures
        r@ == encoded_names(wire_type(channel), wire_type(moderator), moderator_id),
        decoded_names(r@) == Some((wire_type(channel), (wire_type(moderator), moderator_id))),
{
    bincode::encode_to_vec((channel, (moderator, moderator_id)), bincode::config::standard())
        .expect("unable to parse channel name as payload")
}

/// Reads names with `bincode::borrow_decode_from_slice`, in its standard configuration.
///
/// What is believed: whether names can be read, and which they are, depends on the
/// bytes alone. The texts are taken from the bytes in place, so that a length that the
/// bytes claim and do not hold is an error. Which error comes is left open.
#[verifier::external_body]
fn decode_names(bytes: &[u8]) -> (r: Result<
    (WireTypeRef<'_>, (WireTypeRef<'_>, u64)),
    bincode::error::DecodeError,
>)
    ensures
        match r {
            Ok(names) => decoded_names(bytes@) == Some(
                (wire_type_ref(names.0), (wire_type_ref(names.1.0), names.1.1)),
            ),
            Err(_) => decoded_names(bytes@) is None,
        },
{
    bincode::borrow_decode_from_slice(bytes, bincode::config::standard()).map(|r| r.0)
}

/// The text of an error, by the `Display` of `bincode::error::DecodeError`. It is meant
/// for people: nothing is said of it.
#[verifier::external_body]
fn decode_error_text(e: &bincode::error::DecodeError) -> (r: String) {
    e.to_string()
}

/// A type's name as it is written down.
pub open spec fn to_wire(t: AgentTypeView) -> WireTypeView {
    (
        t.organization,
        t.namespace,
        t.agent_type,
        match t.strings {
            Some(s) => Some((s.organization, s.namespace, s.agent_type)),
            None => None,
        },
    )
}

/// A type's name as it is read.
pub open spec fn from_wire(t: WireTypeView) -> AgentTypeView {
    AgentTypeView {
        organization: t.0,
        namespace: t.1,
        agent_type: t.2,
        strings: match t.3 {
            Some(s) => Some(
                TypeStringsView { organization: s.0, namespace: s.1, agent_type: s.2 },
            ),
            None => None,
        },
    }
}

fn type_to_wire(t: AgentType) -> (r: WireType)
    ensures
        wire_type(r) == to_wire(t@),
{
    let strings = match t.strings {
        Some(s) => Some((s.organization, s.namespace, s.agent_type)),
        None => None,
    };
    (t.organization, t.namespace, t.agent_type, strings)
}

fn type_from_wire(t: WireTypeRef<'_>) -> (r: AgentType)
    ensures
        r@ == from_wire(wire_type_ref(t)),
{
    let strings = match t.3 {
        Some(s) => Some(
            TypeStrings {
                organization: s.0.to_owned(),
                namespace: s.1.to_owned(),
                agent_type: s.2.to_owned(),
            },
        ),
        None => None,
    };
    AgentType { organization: t.0, namespace: t.1, agent_type: t.2, strings }
}

/// The model of a join request's payload.
pub struct JoinPayloadView {
    pub channel_name: AgentTypeView,
    pub moderator_name: AgentView,
}

impl JoinPayloadView {
    /// The bytes of the payload.
    pub open spec fn bytes(self) -> Seq<u8> {
        encoded_names(
            to_wire(self.channel_name),
            to_wire(self.moderator_name.agent_type),
            self.moderator_name.agent_id,
        )
    }

    /// The payload that bytes start with, where there is one.
    pub open spec fn read(bytes: Seq<u8>) -> Option<JoinPayloadView> {
        match decoded_names(bytes) {
            Some(names) => Some(
                JoinPayloadView {
                    channel_name: from_wire(names.0),
                    moderator_name: AgentView {
                        agent_type: from_wire(names.1.0),
                        agent_id: names.1.1,
                    },
                },
            ),
            None => None,
        }
    }
}

/// The payload of a join request.
#[derive(Debug)]
pub struct JoinMessagePayload {
    pub channel_name: AgentType,
    pub moderator_name: Agent,
}

impl View for JoinMessagePayload {
    type V = JoinPayloadView;

    open spec fn view(&self) -> JoinPayloadView {
        JoinPayloadView {
            channel_name: self.channel_name@,
            moderator_name: self.moderator_name@,
        }
    }
}

impl Clone for JoinMessagePayload {
    fn clone(&self) -> (r: Self)
        ensures
            r@ == self@,
    {
        JoinMessagePayload {
            channel_name: self.channel_name.clone(),
            moderator_name: self.moderator_name.clone(),
        }
    }
}

impl Default for JoinMessagePayload {
    fn default() -> (r: Self)
        ensures
            r@.channel_name == (AgentTypeView {
                organization: 0,
                namespace: 0,
                agent_type: 0,
                strings: None,
            }),
            r@.moderator_name.agent_type == r@.channel_name,
            r@.moderator_name.agent_id == 0,
    {
        JoinMessagePayload { channel_name: AgentType::default(), moderator_name: Agent::default() }
    }
}

impl JoinMessagePayload {
    pub fn new(channel_name: AgentType, moderator_name: Agent) -> (r: Self)
        ensures
            r@ == (JoinPayloadView {
                channel_name: channel_name@,
                moderator_name: moderator_name@,
            }),
    {
        JoinMessagePayload { channel_name, moderator_name }
    }

    /// Writes the payload down. Reading the bytes gives it back.
    pub fn encode(self) -> (r: Vec<u8>)
        ensures
            r@ == self@.bytes(),
            JoinPayloadView::read(r@) == Some(self@),
    {
        encode_names(
            type_to_wire(self.channel_name),
            type_to_wire(self.moderator_name.agent_type),
            self.moderator_name.agent_id,
        )
    }

    /// Reads a payload, or says why it could not be read.
    pub fn decode(bytes: &Vec<u8>) -> (r: Result<JoinMessagePayload, String>)
        ensures
            match r {
                Ok(p) => JoinPayloadView::read(bytes@) == Some(p@),
                Err(_) => JoinPayloadView::read(bytes@) is None,
            },
    {
        match decode_names(bytes.as_slice()) {
            Ok((channel, (moderator, id))) => Ok(
                JoinMessagePayload {
                    channel_name: type_from_wire(channel),
                    moderator_name: Agent { agent_type: type_from_wire(moderator), agent_id: id },
                },
            ),
            Err(e) => Err(decode_error_text(&e)),
        }
    }
}

} // verus!
