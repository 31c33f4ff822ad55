//! Kinds of sessions and of session messages, and their numbers on the wire.

use vstd::prelude::*;

verus! {

/// A number on the wire that stands for no value.
#[derive(Clone, Copy, Debug, PartialEq, Eq, Structural)]
pub struct UnknownEnumValue(pub i32);

/// The kind of a session.
#[derive(Clone, Copy, Debug, PartialEq, Eq, Structural)]
pub enum ProtoSessionType {
    SessionUnknown,
    SessionFireForget,
    SessionRequestReply,
    SessionStreaming,
    SessionPubSub,
}

impl ProtoSessionType {
    /// The number on the wire.
    pub open spec fn code(self) -> i32 {
        match self {
            ProtoSessionType::SessionUnknown => 0,
            ProtoSessionType::SessionFireForget => 1,
            ProtoSessionType::SessionRequestReply => 2,
            ProtoSessionType::SessionStreaming => 3,
            ProtoSessionType::SessionPubSub => 4,
        }
    }

    /// The value with a number on the wire, where there is one.
    pub open spec fn from_code(code: i32) -> Option<ProtoSessionType> {
        if code == 0 {
            Some(ProtoSessionType::SessionUnknown)
        } else if code == 1 {
            Some(ProtoSessionType::SessionFireForget)
        } else if code == 2 {
            Some(ProtoSessionType::SessionRequestReply)
        } else if code == 3 {
            Some(ProtoSessionType::SessionStreaming)
        } else if code == 4 {
            Some(ProtoSessionType::SessionPubSub)
        } else {
            None
        }
    }

    /// How a number on the wire is read: one that has no value is read as `SessionUnknown`.
    pub open spec fn read(code: i32) -> ProtoSessionType {
        match ProtoSessionType::from_code(code) {
            Some(v) => v,
            None => ProtoSessionType::SessionUnknown,
        }
    }
}

impl Default for ProtoSessionType {
    fn default() -> (r: Self)
        ensures
            r == ProtoSessionType::SessionUnknown,
    {
        ProtoSessionType::SessionUnknown
    }
}

impl TryFrom<i32> for ProtoSessionType {
    type Error = UnknownEnumValue;

    fn try_from(code: i32) -> (r: Result<Self, UnknownEnumValue>) {
        match code {
            0 => Ok(ProtoSessionType::SessionUnknown),
            1 => Ok(ProtoSessionType::SessionFireForget),
            2 => Ok(ProtoSessionType::SessionRequestReply),
            3 => Ok(ProtoSessionType::SessionStreaming),
            4 => Ok(ProtoSessionType::SessionPubSub),
            _ => Err(UnknownEnumValue(code)),
        }
    }
}

impl vstd::std_specs::convert::TryFromSpecImpl<i32> for ProtoSessionType {
    open spec fn obeys_try_from_spec() -> bool {
        true
    }

    open spec fn try_from_spec(code: i32) -> Result<Self, UnknownEnumValue> {
        match ProtoSessionType::from_code(code) {
            Some(v) => Ok(v),
            None => Err(UnknownEnumValue(code)),
        }
    }
}

impl From<ProtoSessionType> for i32 {
    fn from(value: ProtoSessionType) -> (r: i32) {
        match value {
            ProtoSessionType::SessionUnknown => 0,
            ProtoSessionType::SessionFireForget => 1,
            ProtoSessionType::SessionRequestReply => 2,
            ProtoSessionType::SessionStreaming => 3,
            ProtoSessionType::SessionPubSub => 4,
        }
    }
}

impl vstd::std_specs::convert::FromSpecImpl<ProtoSessionType> for i32 {
    open spec fn obeys_from_spec() -> bool {
        true
    }

    open spec fn from_spec(value: ProtoSessionType) -> i32 {
        value.code()
    }
}

/// The kind of a session message.
#[derive(Clone, Copy, Debug, PartialEq, Eq, Structural)]
pub enum SessionMessageType {
    Unspecified,
    FnfMsg,
    FnfReliable,
    FnfAck,
    Request,
    Reply,
    Stream,
    PubSub,
    RtxRequest,
    RtxReply,
    BeaconStream,
    BeaconPubSub,
    ChannelDiscoveryRequest,
    ChannelDiscoveryReply,
    ChannelJoinRequest,
    ChannelJoinReply,
    ChannelLeaveRequest,
    ChannelLeaveReply,
    ChannelMlsWelcome,
    ChannelMlsCommit,
    ChannelMlsAck,
}

impl SessionMessageType {
    /// The number on the wire.
    pub open spec fn code(self) -> i32 {
        match self {
            SessionMessageType::Unspecified => 0,
            SessionMessageType::FnfMsg => 1,
            SessionMessageType::FnfReliable => 2,
            SessionMessageType::FnfAck => 3,
            SessionMessageType::Request => 4,
            SessionMessageType::Reply => 5,
            SessionMessageType::Stream => 6,
            SessionMessageType::PubSub => 7,
            SessionMessageType::RtxRequest => 8,
            SessionMessageType::RtxReply => 9,
            SessionMessageType::BeaconStream => 10,
            SessionMessageType::BeaconPubSub => 11,
            SessionMessageType::ChannelDiscoveryRequest => 12,
            SessionMessageType::ChannelDiscoveryReply => 13,
            SessionMessageType::ChannelJoinRequest => 14,
            SessionMessageType::ChannelJoinReply => 15,
            SessionMessageType::ChannelLeaveRequest => 16,
            SessionMessageType::ChannelLeaveReply => 17,
            SessionMessageType::ChannelMlsWelcome => 18,
            SessionMessageType::ChannelMlsCommit => 19,
            SessionMessageType::ChannelMlsAck => 20,
        }
    }

    /// The value with a number on the wire, where there is one.
    pub open spec fn from_code(code: i32) -> Option<SessionMessageType> {
        if code == 0 {
            Some(SessionMessageType::Unspecified)
        } else if code == 1 {
            Some(SessionMessageType::FnfMsg)
        } else if code == 2 {
            Some(SessionMessageType::FnfReliable)
        } else if code == 3 {
            Some(SessionMessageType::FnfAck)
        } else if code == 4 {
            Some(SessionMessageType::Request)
        } else if code == 5 {
            Some(SessionMessageType::Reply)
        } else if code == 6 {
            Some(SessionMessageType::Stream)
        } else if code == 7 {
            Some(SessionMessageType::PubSub)
        } else if code == 8 {
            Some(SessionMessageType::RtxRequest)
        } else if code == 9 {
            Some(SessionMessageType::RtxReply)
        } else if code == 10 {
            Some(SessionMessageType::BeaconStream)
        } else if code == 11 {
            Some(SessionMessageType::BeaconPubSub)
        } else if code == 12 {
            Some(SessionMessageType::ChannelDiscoveryRequest)
        } else if code == 13 {
            Some(SessionMessageType::ChannelDiscoveryReply)
        } else if code == 14 {
            Some(SessionMessageType::ChannelJoinRequest)
        } else if code == 15 {
            Some(SessionMessageType::ChannelJoinReply)
        } else if code == 16 {
            Some(SessionMessageType::ChannelLeaveRequest)
        } else if code == 17 {
            Some(SessionMessageType::ChannelLeaveReply)
        } else if code == 18 {
            Some(SessionMessageType::ChannelMlsWelcome)
        } else if code == 19 {
            Some(SessionMessageType::ChannelMlsCommit)
        } else if code == 20 {
            Some(SessionMessageType::ChannelMlsAck)
        } else {
            None
        }
    }

    /// How a number on the wire is read: one that has no value is read as `Unspecified`.
    pub open spec fn read(code: i32) -> SessionMessageType {
        match SessionMessageType::from_code(code) {
            Some(v) => v,
            None => SessionMessageType::Unspecified,
        }
    }
}

impl Default for SessionMessageType {
    fn default() -> (r: Self)
        ensures
            r == SessionMessageType::Unspecified,
    {
        SessionMessageType::Unspecified
    }
}

impl TryFrom<i32> for SessionMessageType {
    type Error = UnknownEnumValue;

    fn try_from(code: i32) -> (r: Result<Self, UnknownEnumValue>) {
        match code {
            0 => Ok(SessionMessageType::Unspecified),
            1 => Ok(SessionMessageType::FnfMsg),
            2 => Ok(SessionMessageType::FnfReliable),
            3 => Ok(SessionMessageType::FnfAck),
            4 => Ok(SessionMessageType::Request),
            5 => Ok(SessionMessageType::Reply),
            6 => Ok(SessionMessageType::Stream),
            7 => Ok(SessionMessageType::PubSub),
            8 => Ok(SessionMessageType::RtxRequest),
            9 => Ok(SessionMessageType::RtxReply),
            10 => Ok(SessionMessageType::BeaconStream),
            11 => Ok(SessionMessageType::BeaconPubSub),
            12 => Ok(SessionMessageType::ChannelDiscoveryRequest),
            13 => Ok(SessionMessageType::ChannelDiscoveryReply),
            14 => Ok(SessionMessageType::ChannelJoinRequest),
            15 => Ok(SessionMessageType::ChannelJoinReply),
            16 => Ok(SessionMessageType::ChannelLeaveRequest),
            17 => Ok(SessionMessageType::ChannelLeaveReply),
            18 => Ok(SessionMessageType::ChannelMlsWelcome),
            19 => Ok(SessionMessageType::ChannelMlsCommit),
            20 => Ok(SessionMessageType::ChannelMlsAck),
            _ => Err(UnknownEnumValue(code)),
        }
    }
}

impl vstd::std_specs::convert::TryFromSpecImpl<i32> for SessionMessageType {
    open spec fn obeys_try_from_spec() -> bool {
        true
    }

    open spec fn try_from_spec(code: i32) -> Result<Self, UnknownEnumValue> {
        match SessionMessageType::from_code(code) {
            Some(v) => Ok(v),
            None => Err(UnknownEnumValue(code)),
        }
    }
}

impl From<SessionMessageType> for i32 {
    fn from(value: SessionMessageType) -> (r: i32) {
        match value {
            SessionMessageType::Unspecified => 0,
            SessionMessageType::FnfMsg => 1,
            SessionMessageType::FnfReliable => 2,
            SessionMessageType::FnfAck => 3,
            SessionMessageType::Request => 4,
            SessionMessageType::Reply => 5,
            SessionMessageType::Stream => 6,
            SessionMessageType::PubSub => 7,
            SessionMessageType::RtxRequest => 8,
            SessionMessageType::RtxReply => 9,
            SessionMessageType::BeaconStream => 10,
            SessionMessageType::BeaconPubSub => 11,
            SessionMessageType::ChannelDiscoveryRequest => 12,
            SessionMessageType::ChannelDiscoveryReply => 13,
            SessionMessageType::ChannelJoinRequest => 14,
            SessionMessageType::ChannelJoinReply => 15,
            SessionMessageType::ChannelLeaveRequest => 16,
            SessionMessageType::ChannelLeaveReply => 17,
            SessionMessageType::ChannelMlsWelcome => 18,
            SessionMessageType::ChannelMlsCommit => 19,
            SessionMessageType::ChannelMlsAck => 20,
        }
    }
}

impl vstd::std_specs::convert::FromSpecImpl<SessionMessageType> for i32 {
    open spec fn obeys_from_spec() -> bool {
        true
    }

    open spec fn from_spec(value: SessionMessageType) -> i32 {
        value.code()
    }
}

impl SessionMessageType {
    /// The name of a kind.
    pub open spec fn spec_name(self) -> Seq<char> {
        match self {
            SessionMessageType::Unspecified => "Unspecified"@,
            SessionMessageType::FnfMsg => "FnfMsg"@,
            SessionMessageType::FnfReliable => "FnfReliable"@,
            SessionMessageType::FnfAck => "FnfAck"@,
            SessionMessageType::Request => "Request"@,
            SessionMessageType::Reply => "Reply"@,
            SessionMessageType::Stream => "Stream"@,
            SessionMessageType::PubSub => "PubSub"@,
            SessionMessageType::RtxRequest => "RtxRequest"@,
            SessionMessageType::RtxReply => "RtxReply"@,
            SessionMessageType::BeaconStream => "BeaconStream"@,
            SessionMessageType::BeaconPubSub => "BeaconPubSub"@,
            SessionMessageType::ChannelDiscoveryRequest => "ChannelDiscoveryRequest"@,
            SessionMessageType::ChannelDiscoveryReply => "ChannelDiscoveryReply"@,
            SessionMessageType::ChannelJoinRequest => "ChannelJoinRequest"@,
            SessionMessageType::ChannelJoinReply => "ChannelJoinReply"@,
            SessionMessageType::ChannelLeaveRequest => "ChannelLeaveRequest"@,
            SessionMessageType::ChannelLeaveReply => "ChannelLeaveReply"@,
            SessionMessageType::ChannelMlsWelcome => "ChannelMlsWelcome"@,
            SessionMessageType::ChannelMlsCommit => "ChannelMlsCommit"@,
            SessionMessageType::ChannelMlsAck => "ChannelMlsAck"@,
        }
    }

    /// The name of a kind.
    pub fn name(&self) -> (r: &'static str)
        ensures
            r@ == self.spec_name(),
    {
        match self {
            SessionMessageType::Unspecified => "Unspecified",
            SessionMessageType::FnfMsg => "FnfMsg",
            SessionMessageType::FnfReliable => "FnfReliable",
            SessionMessageType::FnfAck => "FnfAck",
            SessionMessageType::Request => "Request",
            SessionMessageType::Reply => "Reply",
            SessionMessageType::Stream => "Stream",
            SessionMessageType::PubSub => "PubSub",
            SessionMessageType::RtxRequest => "RtxRequest",
            SessionMessageType::RtxReply => "RtxReply",
            SessionMessageType::BeaconStream => "BeaconStream",
            SessionMessageType::BeaconPubSub => "BeaconPubSub",
            SessionMessageType::ChannelDiscoveryRequest => "ChannelDiscoveryRequest",
            SessionMessageType::ChannelDiscoveryReply => "ChannelDiscoveryReply",
            SessionMessageType::ChannelJoinRequest => "ChannelJoinRequest",
            SessionMessageType::ChannelJoinReply => "ChannelJoinReply",
            SessionMessageType::ChannelLeaveRequest => "ChannelLeaveRequest",
            SessionMessageType::ChannelLeaveReply => "ChannelLeaveReply",
            SessionMessageType::ChannelMlsWelcome => "ChannelMlsWelcome",
            SessionMessageType::ChannelMlsCommit => "ChannelMlsCommit",
            SessionMessageType::ChannelMlsAck => "ChannelMlsAck",
        }
    }
}

} // verus!
