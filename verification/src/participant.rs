//! A participant of a channel: it is invited by the moderator, follows the changes of
//! the group, and leaves when told to.

use vstd::prelude::*;
use vstd::string::*;

use crate::encoder::{Agent, AgentType};
use crate::endpoint::{can_answer, has_incoming_conn, no_payload, Endpoint, EndpointView};
use crate::kinds::{ProtoSessionType, SessionMessageType};
use crate::message::ProtoMessage;
use crate::mls::MlsState;
use crate::participant_model::{ParticipantTaskView, ParticipantView};
use crate::payload::{JoinMessagePayload, JoinPayloadView};
use crate::session::{
    MlsRequest, Outcome, OutcomeView, SessionError, SessionErrorView, Step, METADATA_MLS_ENABLED,
};

verus! {

/// What a participant waits for while it handles a message.
#[derive(Debug)]
pub enum ParticipantTask {
    /// The route to the moderator that sent a join request.
    MeetModerator { msg: ProtoMessage, moderator: Agent },
    /// The key package for the answer to a join request.
    MakeKeyPackage { msg: ProtoMessage },
    /// The group of a welcome message.
    EnterGroup { msg: ProtoMessage },
    /// The change of a commit message.
    FollowCommit { msg: ProtoMessage },
    /// The subscription to the channel, before the answer to a message.
    Subscribe { msg: ProtoMessage, answer: SessionMessageType },
    /// The route to the channel, before the answer to a message.
    Route { msg: ProtoMessage, answer: SessionMessageType },
    /// The end of the subscription, for a leave request.
    Unsubscribe { msg: ProtoMessage },
    /// The end of the route to the channel, for a leave request.
    Unroute { msg: ProtoMessage },
    /// The answer to a leave request.
    LeaveReply,
    /// The last message.
    Close,
}

impl View for ParticipantTask {
    type V = ParticipantTaskView;

    open spec fn view(&self) -> ParticipantTaskView {
        match self {
            ParticipantTask::MeetModerator { msg, moderator } => {
                ParticipantTaskView::MeetModerator { msg: msg@, moderator: moderator@ }
            },
            ParticipantTask::MakeKeyPackage { msg } => {
                ParticipantTaskView::MakeKeyPackage { msg: msg@ }
            },
            ParticipantTask::EnterGroup { msg } => ParticipantTaskView::EnterGroup { msg: msg@ },
            ParticipantTask::FollowCommit { msg } => {
                ParticipantTaskView::FollowCommit { msg: msg@ }
            },
            ParticipantTask::Subscribe { msg, answer } => {
                ParticipantTaskView::Subscribe { msg: msg@, answer: *answer }
            },
            ParticipantTask::Route { msg, answer } => {
                ParticipantTaskView::Route { msg: msg@, answer: *answer }
            },
            ParticipantTask::Unsubscribe { msg } => ParticipantTaskView::Unsubscribe { msg: msg@ },
            ParticipantTask::Unroute { msg } => ParticipantTaskView::Unroute { msg: msg@ },
            ParticipantTask::LeaveReply => ParticipantTaskView::LeaveReply,
            ParticipantTask::Close => ParticipantTaskView::Close,
        }
    }
}

/// A participant of a channel.
#[derive(Debug)]
pub struct ChannelParticipant {
    pub moderator_name: Option<Agent>,
    pub endpoint: Endpoint,
    /// What is waited for, while a message is handled.
    pub waiting: Option<ParticipantTask>,
}

impl View for ChannelParticipant {
    type V = ParticipantView;

    open spec fn view(&self) -> ParticipantView {
        ParticipantView {
            moderator_name: match self.moderator_name {
                Some(m) => Some(m@),
                None => None,
            },
            endpoint: self.endpoint@,
            waiting: match self.waiting {
                Some(t) => Some(t@),
                None => None,
            },
        }
    }
}

/// The model of what was read from a join request.
pub open spec fn names_view(names: Result<JoinMessagePayload, SessionError>) -> Result<
    JoinPayloadView,
    SessionErrorView,
> {
    match names {
        Ok(n) => Ok(n@),
        Err(e) => Err(e@),
    }
}

/// Reads the names of a join request.
pub fn read_names(msg: &ProtoMessage) -> (r: Result<JoinMessagePayload, SessionError>)
    requires
        msg@.is_publish(),
    ensures
        crate::participant_model::reads_names(msg@, names_view(r)),
{
    match msg.get_payload() {
        None => Err(
            SessionError::Processing("missing payload in a Join Channel request".to_owned()),
        ),
        Some(content) => match JoinMessagePayload::decode(&content.blob) {
            Ok(names) => Ok(names),
            Err(e) => Err(SessionError::JoinChannelPayload(e)),
        },
    }
}

impl ChannelParticipant {
    pub fn new(
        name: Agent,
        channel_name: AgentType,
        channel_id: Option<u64>,
        session_id: u32,
        session_type: ProtoSessionType,
        mls: Option<MlsState>,
    ) -> (r: Self)
        ensures
            r@ == (ParticipantView {
                moderator_name: None,
                endpoint: EndpointView::initial(
                    name@,
                    channel_name@,
                    channel_id,
                    session_id,
                    session_type,
                    crate::endpoint::mls_view(mls),
                ),
                waiting: None,
            }),
    {
        let endpoint = Endpoint::new(
            name,
            channel_name,
            channel_id,
            session_id,
            session_type,
            mls,
        );
        ChannelParticipant { moderator_name: None, endpoint, waiting: None }
    }

    fn finish(&mut self, result: Result<(), SessionError>) -> (r: Step)
        ensures
            (final(self)@, r@) == old(self)@.finish(crate::session::unit_result(result)),
    {
        self.waiting = None;
        Step::finish(result)
    }

    fn answer(
        &mut self,
        msg: ProtoMessage,
        answer: SessionMessageType,
        payload: Vec<u8>,
    ) -> (r: Step)
        requires
            msg@.can_answer(),
        ensures
            (final(self)@, r@) == old(self)@.answer(msg@, answer, payload@),
    {
        let answer = self.endpoint.answer(&msg, answer, payload);
        self.waiting = Some(ParticipantTask::Close);
        Step::send(answer)
    }

    fn can_join(&self, msg: &ProtoMessage) -> (r: bool)
        ensures
            r == self@.can_join(msg@),
    {
        if self.endpoint.subscribed {
            can_answer(msg)
        } else {
            self.endpoint.can_subscribe()
        }
    }

    /// Joins the channel, but only once, and then answers a message.
    fn join(&mut self, msg: ProtoMessage, answer: SessionMessageType) -> (r: Step)
        requires
            old(self)@.can_join(msg@),
        ensures
            (final(self)@, r@) == old(self)@.join(msg@, answer),
    {
        match self.endpoint.join() {
            None => self.answer(msg, answer, no_payload()),
            Some(subscription) => {
                self.waiting = Some(ParticipantTask::Subscribe { msg, answer });
                Step::send(subscription)
            },
        }
    }

    /// A join request, with what was read from it: the channel is taken from it, and a
    /// route to the moderator is set.
    pub fn on_join_request(
        &mut self,
        msg: ProtoMessage,
        names: Result<JoinMessagePayload, SessionError>,
    ) -> (r: Step)
        requires
            old(self)@.accepts_join(msg@, names_view(names)),
        ensures
            (final(self)@, r@) == old(self)@.on_join_request(msg@, names_view(names)),
    {
        let names = match names {
            Ok(names) => names,
            Err(e) => return self.finish(Err(e)),
        };
        self.endpoint.conn = Some(msg.get_incoming_conn());
        self.endpoint.session_id = msg.get_session_header().get_session_id();
        self.endpoint.channel_name = names.channel_name;
        let moderator = names.moderator_name;
        let route = self.endpoint.set_route(moderator.agent_type(), moderator.agent_id_option());
        self.waiting = Some(ParticipantTask::MeetModerator { msg, moderator });
        Step::send(route)
    }

    fn on_moderator_met(&mut self, msg: ProtoMessage, moderator: Agent) -> (r: Step)
        requires
            msg@.can_answer(),
            !msg@.metadata.contains_key(METADATA_MLS_ENABLED@) ==> old(self)@.can_join(msg@),
        ensures
            (final(self)@, r@) == old(self)@.on_moderator_met(msg@, moderator@),
    {
        self.moderator_name = Some(moderator);
        if !msg.contains_metadata(METADATA_MLS_ENABLED) {
            return self.join(msg, SessionMessageType::ChannelJoinReply);
        }
        if self.endpoint.mls_state.is_none() {
            return self.finish(Err(SessionError::NoMls));
        }
        self.waiting = Some(ParticipantTask::MakeKeyPackage { msg });
        Step::ask(MlsRequest::GenerateKeyPackage)
    }

    /// A welcome message: the first one has the engine enter the group; after it, the
    /// channel is joined and the message acknowledged.
    pub fn on_mls_welcome(&mut self, msg: ProtoMessage) -> (r: Step)
        requires
            old(self)@.accepts_welcome(msg@),
        ensures
            (final(self)@, r@) == old(self)@.on_mls_welcome(msg@),
    {
        let processed = match &mut self.endpoint.mls_state {
            Some(mls) => mls.process_welcome_message(&msg),
            None => return self.finish(Err(SessionError::NoMls)),
        };
        match processed {
            Err(e) => self.finish(Err(e)),
            Ok(None) => self.join(msg, SessionMessageType::ChannelMlsAck),
            Ok(Some(welcome)) => {
                self.waiting = Some(ParticipantTask::EnterGroup { msg });
                Step::ask(MlsRequest::ProcessWelcome(welcome))
            },
        }
    }

    /// A commit message: the next one has the engine follow it.
    pub fn on_mls_commit(&mut self, msg: ProtoMessage) -> (r: Step)
        requires
            old(self)@.accepts_commit(msg@),
        ensures
            (final(self)@, r@) == old(self)@.on_mls_commit(msg@),
    {
        let processed = match &mut self.endpoint.mls_state {
            Some(mls) => mls.process_commit_message(&msg),
            None => return self.finish(Err(SessionError::NoMls)),
        };
        match processed {
            Err(e) => self.finish(Err(e)),
            Ok(commit) => {
                self.waiting = Some(ParticipantTask::FollowCommit { msg });
                Step::ask(MlsRequest::ProcessCommit(commit))
            },
        }
    }

    /// A leave request: the subscription to the channel is ended first.
    pub fn on_leave_request(&mut self, msg: ProtoMessage) -> (r: Step)
        requires
            old(self)@.endpoint.conn is Some,
        ensures
            (final(self)@, r@) == old(self)@.on_leave_request(msg@),
    {
        let unsubscription = self.endpoint.leave();
        self.waiting = Some(ParticipantTask::Unsubscribe { msg });
        Step::send(unsubscription)
    }

    /// Whether a message other than a join request can be handled.
    fn accepts_other(&self, msg: &ProtoMessage) -> (r: bool)
        ensures
            r == self@.accepts_other(msg@),
    {
        if msg.try_get_session_header().is_none() {
            return false;
        }
        match msg.get_session_message_type() {
            SessionMessageType::ChannelMlsWelcome => match &self.endpoint.mls_state {
                Some(mls) => mls.last_commit_id == 0 || self.can_join(msg),
                None => true,
            },
            SessionMessageType::ChannelMlsCommit => match &self.endpoint.mls_state {
                Some(mls) => mls.last_commit_id < u32::MAX,
                None => true,
            },
            SessionMessageType::ChannelLeaveRequest => self.endpoint.conn.is_some(),
            _ => true,
        }
    }

    /// The first step for a message other than a join request. One that is not for a
    /// participant is refused.
    pub fn on_other_message(&mut self, msg: ProtoMessage) -> (r: Step)
        requires
            old(self)@.accepts_other(msg@),
            msg@.kind() != SessionMessageType::ChannelJoinRequest,
        ensures
            (final(self)@, r@) == old(self)@.on_other_message(msg@),
    {
        let msg_type = msg.get_session_header().session_message_type();
        match msg_type {
            SessionMessageType::ChannelDiscoveryRequest => self.finish(
                Err(
                    SessionError::Processing(
                        "Received discovery request message, this should not happen".to_owned(),
                    ),
                ),
            ),
            SessionMessageType::ChannelMlsWelcome => self.on_mls_welcome(msg),
            SessionMessageType::ChannelMlsCommit => self.on_mls_commit(msg),
            SessionMessageType::ChannelLeaveRequest => self.on_leave_request(msg),
            _ => {
                let text = "Received message of type ".to_owned().concat(msg_type.name()).concat(
                    ", drop it",
                );
                self.finish(Err(SessionError::Processing(text)))
            },
        }
    }

    /// The first step for a message. There is none, and nothing changes, where the
    /// message lacks what its kind needs.
    pub fn on_message(&mut self, msg: ProtoMessage) -> (r: Option<Step>)
        ensures
            old(self)@.handles(msg@, crate::session::step_option(r), final(self)@),
    {
        if msg.try_get_session_header().is_none() {
            return None;
        }
        let msg_type = msg.get_session_message_type();
        if msg_type == SessionMessageType::ChannelJoinRequest {
            let names = read_names(&msg);
            assert(crate::participant_model::reads_names(msg@, names_view(names)));
            let ready = match &names {
                Ok(n) => has_incoming_conn(&msg) && n.moderator_name.agent_type.strings.is_some(),
                Err(_) => true,
            };
            if ready {
                return Some(self.on_join_request(msg, names));
            }
        } else if self.accepts_other(&msg) {
            return Some(self.on_other_message(msg));
        }
        None
    }

    /// Whether an outcome is one that is waited for, and what follows can be done.
    fn can_resume(&self, outcome: &Outcome) -> (r: bool)
        ensures
            r == self@.can_resume(outcome@),
    {
        let task = match &self.waiting {
            Some(task) => task,
            None => return false,
        };
        match outcome {
            Outcome::Sent(Err(_)) => match task {
                ParticipantTask::MakeKeyPackage { .. } => false,
                ParticipantTask::EnterGroup { .. } => false,
                ParticipantTask::FollowCommit { .. } => false,
                _ => true,
            },
            Outcome::Sent(Ok(_)) => match task {
                ParticipantTask::MeetModerator { msg, .. } => can_answer(msg) && (
                msg.contains_metadata(METADATA_MLS_ENABLED) || self.can_join(msg)),
                ParticipantTask::Subscribe { .. } => self.endpoint.can_subscribe(),
                ParticipantTask::Route { msg, .. } => can_answer(msg),
                ParticipantTask::Unsubscribe { .. } => self.endpoint.conn.is_some(),
                ParticipantTask::Unroute { msg } => can_answer(msg),
                ParticipantTask::LeaveReply => self.moderator_name.is_none()
                    || self.endpoint.conn.is_some(),
                ParticipantTask::Close => true,
                _ => false,
            },
            Outcome::KeyPackage(r) => match task {
                ParticipantTask::MakeKeyPackage { msg } => r.is_err() || can_answer(msg),
                _ => false,
            },
            Outcome::WelcomeProcessed(r) => match task {
                ParticipantTask::EnterGroup { msg } => self.endpoint.mls_state.is_some() && (
                r.is_err() || self.can_join(msg)),
                _ => false,
            },
            Outcome::CommitProcessed(r) => match task {
                ParticipantTask::FollowCommit { msg } => r.is_err() || can_answer(msg),
                _ => false,
            },
            _ => false,
        }
    }

    /// The step that follows an outcome that is waited for.
    pub fn handle_outcome(&mut self, outcome: Outcome) -> (r: Step)
        requires
            old(self)@.can_resume(outcome@),
        ensures
            (final(self)@, r@) == old(self)@.resume(outcome@),
    {
        let task = match self.waiting.take() {
            Some(task) => task,
            None => vstd::pervasive::unreached(),
        };
        match outcome {
            Outcome::Sent(Err(e)) => self.finish(Err(e)),
            Outcome::Sent(Ok(_)) => self.after_sending(task),
            Outcome::KeyPackage(r) => match MlsState::generate_key_package(r) {
                Ok(package) => match task {
                    ParticipantTask::MakeKeyPackage { msg } => self.answer(
                        msg,
                        SessionMessageType::ChannelJoinReply,
                        package,
                    ),
                    _ => vstd::pervasive::unreached(),
                },
                Err(e) => self.finish(Err(e)),
            },
            Outcome::WelcomeProcessed(r) => {
                let processed = match &mut self.endpoint.mls_state {
                    Some(mls) => mls.welcome_processed(r),
                    None => vstd::pervasive::unreached(),
                };
                match processed {
                    Ok(_) => match task {
                        ParticipantTask::EnterGroup { msg } => self.join(
                            msg,
                            SessionMessageType::ChannelMlsAck,
                        ),
                        _ => vstd::pervasive::unreached(),
                    },
                    Err(e) => self.finish(Err(e)),
                }
            },
            Outcome::CommitProcessed(r) => match MlsState::commit_processed(r) {
                Ok(_) => match task {
                    ParticipantTask::FollowCommit { msg } => self.answer(
                        msg,
                        SessionMessageType::ChannelMlsAck,
                        no_payload(),
                    ),
                    _ => vstd::pervasive::unreached(),
                },
                Err(e) => self.finish(Err(e)),
            },
            _ => vstd::pervasive::unreached(),
        }
    }

    /// The step that follows a message that has been sent for a task.
    fn after_sending(&mut self, task: ParticipantTask) -> (r: Step)
        requires
            old(self)@.wait(task@).can_resume(OutcomeView::Sent(Ok(()))),
        ensures
            (final(self)@, r@) == old(self)@.wait(task@).resume(OutcomeView::Sent(Ok(()))),
    {
        match task {
            ParticipantTask::MeetModerator { msg, moderator } => self.on_moderator_met(
                msg,
                moderator,
            ),
            ParticipantTask::Subscribe { msg, answer } => {
                let route = self.endpoint.set_channel_route();
                self.waiting = Some(ParticipantTask::Route { msg, answer });
                Step::send(route)
            },
            ParticipantTask::Route { msg, answer } => self.answer(msg, answer, no_payload()),
            ParticipantTask::Unsubscribe { msg } => {
                let unroute = self.endpoint.delete_route(&self.endpoint.channel_name, None);
                self.waiting = Some(ParticipantTask::Unroute { msg });
                Step::send(unroute)
            },
            ParticipantTask::Unroute { msg } => {
                let reply = self.endpoint.answer(
                    &msg,
                    SessionMessageType::ChannelLeaveReply,
                    no_payload(),
                );
                self.waiting = Some(ParticipantTask::LeaveReply);
                Step::send(reply)
            },
            ParticipantTask::LeaveReply => {
                let unroute = match &self.moderator_name {
                    Some(m) => self.endpoint.delete_route(m.agent_type(), m.agent_id_option()),
                    None => return self.finish(Ok(())),
                };
                self.waiting = Some(ParticipantTask::Close);
                Step::send(unroute)
            },
            ParticipantTask::Close => self.finish(Ok(())),
            _ => vstd::pervasive::unreached(),
        }
    }

    /// The step that follows an outcome. There is none, and nothing changes, where the
    /// outcome is not one that is waited for or what follows it cannot be done.
    pub fn resume(&mut self, outcome: Outcome) -> (r: Option<Step>)
        ensures
            old(self)@.continues(outcome@, crate::session::step_option(r), final(self)@),
    {
        if self.can_resume(&outcome) {
            Some(self.handle_outcome(outcome))
        } else {
            None
        }
    }
}

} // verus!
