//! The parts of a message: agents, headers, bodies.

use vstd::prelude::*;
use vstd::string::*;

use crate::encoder::{Agent, AgentType, AgentTypeView, AgentView, DEFAULT_AGENT_ID};
use crate::kinds::{ProtoSessionType, SessionMessageType};
use crate::text::decimal_text;

verus! {

/// Metadata key of a sender's identity.
pub const SLIM_IDENTITY: &'static str = "SLIM_IDENTITY";

/// What a message lacks.
#[derive(Clone, Copy, Debug, PartialEq, Eq, Structural)]
pub enum MessageError {
    SlimHeaderNotFound,
    SourceNotFound,
    DestinationNotFound,
    SessionHeaderNotFound,
    MessageTypeNotFound,
    IncomingConnectionNotFound,
}

impl MessageError {
    /// The text of an error.
    pub open spec fn text(self) -> Seq<char> {
        match self {
            MessageError::SlimHeaderNotFound => "SLIM header not found"@,
            MessageError::SourceNotFound => "source not found"@,
            MessageError::DestinationNotFound => "destination not found"@,
            MessageError::SessionHeaderNotFound => "session header not found"@,
            MessageError::MessageTypeNotFound => "message type not found"@,
            MessageError::IncomingConnectionNotFound => "incoming connection not found"@,
        }
    }

    /// The text of an error.
    pub fn to_string(&self) -> (r: String)
        ensures
            r@ == self.text(),
    {
        match self {
            MessageError::SlimHeaderNotFound => "SLIM header not found".to_owned(),
            MessageError::SourceNotFound => "source not found".to_owned(),
            MessageError::DestinationNotFound => "destination not found".to_owned(),
            MessageError::SessionHeaderNotFound => "session header not found".to_owned(),
            MessageError::MessageTypeNotFound => "message type not found".to_owned(),
            MessageError::IncomingConnectionNotFound => "incoming connection not found".to_owned(),
        }
    }
}

/// An agent on the wire.
#[derive(Clone, Copy, Debug, PartialEq, Eq, Structural)]
pub struct ProtoAgent {
    pub organization: u64,
    pub namespace: u64,
    pub agent_type: u64,
    pub agent_id: Option<u64>,
}

impl ProtoAgent {
    /// The wire form of an agent: the default id is left out.
    pub open spec fn of_agent(agent: AgentView) -> ProtoAgent {
        ProtoAgent::of_type(agent.agent_type, agent.id_option())
    }

    /// The wire form of a type and an optional id.
    pub open spec fn of_type(agent_type: AgentTypeView, agent_id: Option<u64>) -> ProtoAgent {
        ProtoAgent {
            organization: agent_type.organization,
            namespace: agent_type.namespace,
            agent_type: agent_type.agent_type,
            agent_id,
        }
    }

    /// The type that a wire form names; its texts are not known.
    pub open spec fn named_type(self) -> AgentTypeView {
        AgentTypeView {
            organization: self.organization,
            namespace: self.namespace,
            agent_type: self.agent_type,
            strings: None,
        }
    }

    /// The agent that a wire form names; without an id it has the default one.
    pub open spec fn agent(self) -> AgentView {
        AgentView {
            agent_type: self.named_type(),
            agent_id: match self.agent_id {
                Some(id) => id,
                None => DEFAULT_AGENT_ID,
            },
        }
    }
}

impl From<&Agent> for ProtoAgent {
    fn from(agent: &Agent) -> (r: Self) {
        let mut id = None;
        if agent.agent_id() != DEFAULT_AGENT_ID {
            id = Some(agent.agent_id());
        }
        ProtoAgent {
            organization: agent.agent_type().organization(),
            namespace: agent.agent_type().namespace(),
            agent_type: agent.agent_type().agent_type(),
            agent_id: id,
        }
    }
}

impl vstd::std_specs::convert::FromSpecImpl<&Agent> for ProtoAgent {
    open spec fn obeys_from_spec() -> bool {
        true
    }

    open spec fn from_spec(agent: &Agent) -> Self {
        ProtoAgent::of_agent(agent@)
    }
}

impl From<(&AgentType, Option<u64>)> for ProtoAgent {
    fn from(name: (&AgentType, Option<u64>)) -> (r: Self) {
        ProtoAgent {
            organization: name.0.organization(),
            namespace: name.0.namespace(),
            agent_type: name.0.agent_type(),
            agent_id: name.1,
        }
    }
}

impl vstd::std_specs::convert::FromSpecImpl<(&AgentType, Option<u64>)> for ProtoAgent {
    open spec fn obeys_from_spec() -> bool {
        true
    }

    open spec fn from_spec(name: (&AgentType, Option<u64>)) -> Self {
        ProtoAgent::of_type(name.0@, name.1)
    }
}

impl From<&ProtoAgent> for AgentType {
    fn from(agent: &ProtoAgent) -> (r: Self) {
        AgentType::new(agent.organization, agent.namespace, agent.agent_type)
    }
}

impl vstd::std_specs::convert::FromSpecImpl<&ProtoAgent> for AgentType {
    open spec fn obeys_from_spec() -> bool {
        true
    }

    open spec fn from_spec(agent: &ProtoAgent) -> Self {
        AgentType {
            organization: agent.organization,
            namespace: agent.namespace,
            agent_type: agent.agent_type,
            strings: None,
        }
    }
}

impl From<&ProtoAgent> for Agent {
    fn from(agent: &ProtoAgent) -> (r: Self) {
        let id: u64 = match agent.agent_id {
            Some(id) => id,
            None => DEFAULT_AGENT_ID,
        };
        Agent::new(AgentType::from(agent), id)
    }
}

impl vstd::std_specs::convert::FromSpecImpl<&ProtoAgent> for Agent {
    open spec fn obeys_from_spec() -> bool {
        true
    }

    open spec fn from_spec(agent: &ProtoAgent) -> Self {
        Agent {
            agent_type: AgentType {
                organization: agent.organization,
                namespace: agent.namespace,
                agent_type: agent.agent_type,
                strings: None,
            },
            agent_id: match agent.agent_id {
                Some(id) => id,
                None => DEFAULT_AGENT_ID,
            },
        }
    }
}

/// The text of an optional number.
pub open spec fn option_number_text(o: Option<u64>) -> Seq<char> {
    match o {
        Some(n) => "Some("@ + crate::text::decimal(n as nat) + ")"@,
        None => "None"@,
    }
}

/// The text of an optional truth value.
pub open spec fn option_bool_text(o: Option<bool>) -> Seq<char> {
    match o {
        Some(true) => "Some(true)"@,
        Some(false) => "Some(false)"@,
        None => "None"@,
    }
}

fn option_number_string(o: Option<u64>) -> (r: String)
    ensures
        r@ == option_number_text(o),
{
    match o {
        Some(n) => "Some(".to_owned().concat(decimal_text(n).as_str()).concat(")"),
        None => "None".to_owned(),
    }
}

fn option_bool_string(o: Option<bool>) -> (r: String)
    ensures
        r@ == option_bool_text(o),
{
    match o {
        Some(true) => "Some(true)".to_owned(),
        Some(false) => "Some(false)".to_owned(),
        None => "None".to_owned(),
    }
}

/// The flags of a SLIM header.
#[derive(Clone, Copy, Debug, PartialEq, Eq, Structural)]
pub struct SlimHeaderFlags {
    pub fanout: u32,
    pub recv_from: Option<u64>,
    pub forward_to: Option<u64>,
    pub incoming_conn: Option<u64>,
    pub error: Option<bool>,
}

/// The flags that hold where none are given.
pub open spec fn default_flags() -> SlimHeaderFlags {
    SlimHeaderFlags {
        fanout: 1,
        recv_from: None,
        forward_to: None,
        incoming_conn: None,
        error: None,
    }
}

impl Default for SlimHeaderFlags {
    fn default() -> (r: Self)
        ensures
            r == default_flags(),
    {
        SlimHeaderFlags {
            fanout: 1,
            recv_from: None,
            forward_to: None,
            incoming_conn: None,
            error: None,
        }
    }
}

impl SlimHeaderFlags {
    pub fn new(
        fanout: u32,
        recv_from: Option<u64>,
        forward_to: Option<u64>,
        incoming_conn: Option<u64>,
        error: Option<bool>,
    ) -> (r: Self)
        ensures
            r == (SlimHeaderFlags { fanout, recv_from, forward_to, incoming_conn, error }),
    {
        SlimHeaderFlags { fanout, recv_from, forward_to, incoming_conn, error }
    }

    pub fn with_fanout(self, fanout: u32) -> (r: Self)
        ensures
            r == (SlimHeaderFlags { fanout, ..self }),
    {
        SlimHeaderFlags { fanout, ..self }
    }

    pub fn with_recv_from(self, recv_from: u64) -> (r: Self)
        ensures
            r == (SlimHeaderFlags { recv_from: Some(recv_from), ..self }),
    {
        SlimHeaderFlags { recv_from: Some(recv_from), ..self }
    }

    pub fn with_forward_to(self, forward_to: u64) -> (r: Self)
        ensures
            r == (SlimHeaderFlags { forward_to: Some(forward_to), ..self }),
    {
        SlimHeaderFlags { forward_to: Some(forward_to), ..self }
    }

    pub fn with_incoming_conn(self, incoming_conn: u64) -> (r: Self)
        ensures
            r == (SlimHeaderFlags { incoming_conn: Some(incoming_conn), ..self }),
    {
        SlimHeaderFlags { incoming_conn: Some(incoming_conn), ..self }
    }

    pub fn with_error(self, error: bool) -> (r: Self)
        ensures
            r == (SlimHeaderFlags { error: Some(error), ..self }),
    {
        SlimHeaderFlags { error: Some(error), ..self }
    }

    /// The text of the flags.
    pub open spec fn text(self) -> Seq<char> {
        "fanout: "@ + crate::text::decimal(self.fanout as nat) + ", recv_from: "@
            + option_number_text(self.recv_from) + ", forward_to: "@ + option_number_text(
            self.forward_to,
        ) + ", incoming_conn: "@ + option_number_text(self.incoming_conn) + ", error: "@
            + option_bool_text(self.error)
    }

    /// The text of the flags.
    pub fn to_string(&self) -> (r: String)
        ensures
            r@ == self.text(),
    {
        let mut r = "fanout: ".to_owned();
        r.append(decimal_text(self.fanout as u64).as_str());
        r.append(", recv_from: ");
        r.append(option_number_string(self.recv_from).as_str());
        r.append(", forward_to: ");
        r.append(option_number_string(self.forward_to).as_str());
        r.append(", incoming_conn: ");
        r.append(option_number_string(self.incoming_conn).as_str());
        r.append(", error: ");
        r.append(option_bool_string(self.error).as_str());
        r
    }
}

/// SLIM header: source and destination of a message, and the connections used to
/// send and receive it.
#[derive(Clone, Copy, Debug, PartialEq, Eq, Structural)]
pub struct SlimHeader {
    pub source: Option<ProtoAgent>,
    pub destination: Option<ProtoAgent>,
    pub fanout: u32,
    pub recv_from: Option<u64>,
    pub forward_to: Option<u64>,
    pub incoming_conn: Option<u64>,
    pub error: Option<bool>,
}

impl SlimHeader {
    /// The header from a source to a named destination, with given or default flags.
    pub open spec fn spec_new(
        source: AgentView,
        name_type: AgentTypeView,
        name_id: Option<u64>,
        flags: Option<SlimHeaderFlags>,
    ) -> SlimHeader {
        let f = match flags {
            Some(f) => f,
            None => default_flags(),
        };
        SlimHeader {
            source: Some(ProtoAgent::of_agent(source)),
            destination: Some(ProtoAgent::of_type(name_type, name_id)),
            fanout: f.fanout,
            recv_from: f.recv_from,
            forward_to: f.forward_to,
            incoming_conn: f.incoming_conn,
            error: f.error,
        }
    }

    pub fn new(
        source: &Agent,
        name_type: &AgentType,
        name_id: Option<u64>,
        flags: Option<SlimHeaderFlags>,
    ) -> (r: Self)
        ensures
            r == SlimHeader::spec_new(source@, name_type@, name_id, flags),
    {
        let flags = match flags {
            Some(f) => f,
            None => SlimHeaderFlags::default(),
        };
        SlimHeader {
            source: Some(ProtoAgent::from(source)),
            destination: Some(ProtoAgent::from((name_type, name_id))),
            fanout: flags.fanout,
            recv_from: flags.recv_from,
            forward_to: flags.forward_to,
            incoming_conn: flags.incoming_conn,
            error: flags.error,
        }
    }

    /// Forgets the two commands to the data plane.
    pub fn clear(&mut self)
        ensures
            *final(self) == (SlimHeader { recv_from: None, forward_to: None, ..*old(self) }),
    {
        self.recv_from = None;
        self.forward_to = None;
    }

    /// The connection that the message is to count as received from.
    pub fn get_recv_from(&self) -> (r: Option<u64>)
        ensures
            r == self.recv_from,
    {
        self.recv_from
    }

    /// The connection that the message is to be forwarded to.
    pub fn get_forward_to(&self) -> (r: Option<u64>)
        ensures
            r == self.forward_to,
    {
        self.forward_to
    }

    /// The connection that the message came in on.
    pub fn get_incoming_conn(&self) -> (r: Option<u64>)
        ensures
            r == self.incoming_conn,
    {
        self.incoming_conn
    }

    /// Whether the message reports an error.
    pub fn get_error(&self) -> (r: Option<bool>)
        ensures
            r == self.error,
    {
        self.error
    }

    /// The agent that sent the message.
    pub fn get_source(&self) -> (r: Agent)
        requires
            self.source is Some,
        ensures
            r@ == self.source->0.agent(),
    {
        let source = self.source.unwrap();
        Agent::from(&source)
    }

    /// The type, and the id if there is one, that the message is for.
    pub fn get_dst(&self) -> (r: (AgentType, Option<u64>))
        requires
            self.destination is Some,
        ensures
            r.0@ == self.destination->0.named_type(),
            r.1 == self.destination->0.agent_id,
    {
        let destination = self.destination.unwrap();
        (AgentType::from(&destination), destination.agent_id)
    }

    pub fn set_source(&mut self, source: &Agent)
        ensures
            *final(self) == (SlimHeader {
                source: Some(ProtoAgent::of_agent(source@)),
                ..*old(self)
            }),
    {
        self.source = Some(ProtoAgent::from(source));
    }

    pub fn set_destination(&mut self, dst: &Agent)
        ensures
            *final(self) == (SlimHeader {
                destination: Some(ProtoAgent::of_agent(dst@)),
                ..*old(self)
            }),
    {
        self.destination = Some(ProtoAgent::from(dst));
    }

    /// To how many receivers the message goes.
    pub fn get_fanout(&self) -> (r: u32)
        ensures
            r == self.fanout,
    {
        self.fanout
    }

    /// Sets the connection that the message is to count as received from.
    pub fn set_recv_from(&mut self, recv_from: Option<u64>)
        ensures
            *final(self) == (SlimHeader { recv_from, ..*old(self) }),
    {
        self.recv_from = recv_from;
    }

    /// Sets the connection that the message is to be forwarded to.
    pub fn set_forward_to(&mut self, forward_to: Option<u64>)
        ensures
            *final(self) == (SlimHeader { forward_to, ..*old(self) }),
    {
        self.forward_to = forward_to;
    }

    /// Sets whether the message reports an error.
    pub fn set_error(&mut self, error: Option<bool>)
        ensures
            *final(self) == (SlimHeader { error, ..*old(self) }),
    {
        self.error = error;
    }

    /// Sets the connection that the message came in on.
    pub fn set_incoming_conn(&mut self, incoming_conn: Option<u64>)
        ensures
            *final(self) == (SlimHeader { incoming_conn, ..*old(self) }),
    {
        self.incoming_conn = incoming_conn;
    }

    /// Sets whether the message reports an error.
    pub fn set_error_flag(&mut self, error: Option<bool>)
        ensures
            *final(self) == (SlimHeader { error, ..*old(self) }),
    {
        self.error = error;
    }

    /// Sets to how many receivers the message goes.
    pub fn set_fanout(&mut self, fanout: u32)
        ensures
            *final(self) == (SlimHeader { fanout, ..*old(self) }),
    {
        self.fanout = fanout;
    }

    /// The connections to process the message with: the one that it counts as
    /// received from, and the one to forward it to if there is one. A `recv_from`
    /// command comes before a `forward_to` command.
    pub fn get_in_out_connections(&self) -> (r: (u64, Option<u64>))
        requires
            self.incoming_conn is Some,
        ensures
            r == (match self.recv_from {
                Some(conn) => (conn, None),
                None => (self.incoming_conn->0, self.forward_to),
            }),
    {
        let incoming: u64 = self.get_incoming_conn().unwrap();
        if let Some(val) = self.get_recv_from() {
            return (val, None);
        }
        if let Some(val) = self.get_forward_to() {
            return (incoming, Some(val));
        }
        (incoming, None)
    }
}

/// Session header: the session and the message within it.
#[derive(Clone, Copy, Debug, PartialEq, Eq, Structural)]
pub struct SessionHeader {
    pub session_type: i32,
    pub session_message_type: i32,
    pub session_id: u32,
    pub message_id: u32,
}

/// The session header of a message outside any session.
pub open spec fn default_session_header() -> SessionHeader {
    SessionHeader { session_type: 0, session_message_type: 0, session_id: 0, message_id: 0 }
}

impl Default for SessionHeader {
    fn default() -> (r: Self)
        ensures
            r == default_session_header(),
    {
        SessionHeader { session_type: 0, session_message_type: 0, session_id: 0, message_id: 0 }
    }
}

impl SessionHeader {
    pub fn new(
        session_type: i32,
        session_message_type: i32,
        session_id: u32,
        message_id: u32,
    ) -> (r: Self)
        ensures
            r == (SessionHeader { session_type, session_message_type, session_id, message_id }),
    {
        SessionHeader { session_type, session_message_type, session_id, message_id }
    }

    /// The session.
    pub fn get_session_id(&self) -> (r: u32)
        ensures
            r == self.session_id,
    {
        self.session_id
    }

    /// The message within the session.
    pub fn get_message_id(&self) -> (r: u32)
        ensures
            r == self.message_id,
    {
        self.message_id
    }

    /// Sets the session.
    pub fn set_session_id(&mut self, session_id: u32)
        ensures
            *final(self) == (SessionHeader { session_id, ..*old(self) }),
    {
        self.session_id = session_id;
    }

    /// Sets the message within the session.
    pub fn set_message_id(&mut self, message_id: u32)
        ensures
            *final(self) == (SessionHeader { message_id, ..*old(self) }),
    {
        self.message_id = message_id;
    }

    /// Forgets session and message.
    pub fn clear(&mut self)
        ensures
            *final(self) == (SessionHeader { session_id: 0, message_id: 0, ..*old(self) }),
    {
        self.session_id = 0;
        self.message_id = 0;
    }

    /// The kind of the session; a number that stands for none is read as unknown.
    pub fn session_type(&self) -> (r: ProtoSessionType)
        ensures
            r == ProtoSessionType::read(self.session_type),
    {
        match ProtoSessionType::try_from(self.session_type) {
            Ok(t) => t,
            Err(_) => ProtoSessionType::default(),
        }
    }

    pub fn set_session_type(&mut self, value: ProtoSessionType)
        ensures
            *final(self) == (SessionHeader { session_type: value.code(), ..*old(self) }),
    {
        self.session_type = i32::from(value);
    }

    /// The kind of the message; a number that stands for none is read as unspecified.
    pub fn session_message_type(&self) -> (r: SessionMessageType)
        ensures
            r == SessionMessageType::read(self.session_message_type),
    {
        match SessionMessageType::try_from(self.session_message_type) {
            Ok(t) => t,
            Err(_) => SessionMessageType::default(),
        }
    }

    pub fn set_session_message_type(&mut self, value: SessionMessageType)
        ensures
            *final(self) == (SessionHeader { session_message_type: value.code(), ..*old(self) }),
    {
        self.session_message_type = i32::from(value);
    }
}

} // verus!
