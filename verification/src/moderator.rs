//! The moderator of a channel: it invites participants, tells the group of its
//! changes, and has participants leave.
//!
//! A request stays pending, and is sent again by its timer, until all that are to
//! acknowledge it have done so.

use std::collections::HashMap;
use std::time::Duration;
use vstd::prelude::*;
use vstd::string::*;

use crate::encoder::{Agent, AgentType};
use crate::endpoint::{can_answer, has_incoming_conn, Endpoint, EndpointView};
use crate::kinds::{ProtoSessionType, SessionMessageType};
use crate::message::{MessageView, ProtoMessage};
use crate::mls::MlsState;
use crate::moderator_model::{AfterAckView, ChannelTimerView, ModeratorTaskView, ModeratorView};
use crate::payload::{JoinMessagePayload, JoinPayloadView};
use crate::session::{
    AddedMember, MlsRequest, Outcome, OutcomeView, RequestTimerObserver, SessionError,
    SessionErrorView, Step, TimerOp, METADATA_MLS_ENABLED, METADATA_MLS_INIT_COMMIT_ID,
};
use crate::text::decimal_text;

verus! {

/// The model of a message that may be there.
pub open spec fn message_option(m: Option<ProtoMessage>) -> Option<MessageView> {
    match m {
        Some(m) => Some(m@),
        None => None,
    }
}

/// A pending request. Its timer runs under the same key.
#[derive(Debug)]
pub struct ChannelTimer {
    /// How many acknowledgements are still to come before the timer is stopped.
    pub expected_acks: u32,
    /// The message to forward once they have come.
    pub to_forward: Option<ProtoMessage>,
}

impl View for ChannelTimer {
    type V = ChannelTimerView;

    open spec fn view(&self) -> ChannelTimerView {
        ChannelTimerView {
            expected_acks: self.expected_acks,
            to_forward: message_option(self.to_forward),
        }
    }
}

/// What follows an acknowledgement.
#[derive(Debug)]
pub enum AfterAck {
    /// Nothing.
    Done,
    /// The join request for an agent that has been found.
    Invite { join: ProtoMessage, id: u32 },
    /// The addition to the group of a participant that has answered a join request.
    Add { msg: ProtoMessage },
}

impl View for AfterAck {
    type V = AfterAckView;

    open spec fn view(&self) -> AfterAckView {
        match self {
            AfterAck::Done => AfterAckView::Done,
            AfterAck::Invite { join, id } => AfterAckView::Invite { join: join@, id: *id },
            AfterAck::Add { msg } => AfterAckView::Add { msg: msg@ },
        }
    }
}

/// What a moderator waits for while it handles a message.
#[derive(Debug)]
pub enum ModeratorTask {
    /// A message that is forwarded, and becomes a pending request.
    Forward { msg: ProtoMessage, after: AfterAck },
    /// The subscription to the channel, before a discovery reply is followed up.
    Subscribe { reply: Option<ProtoMessage> },
    /// The route to the channel, before a discovery reply is followed up.
    Route { reply: Option<ProtoMessage> },
    /// The group, before a discovery reply is followed up.
    CreateGroup { reply: Option<ProtoMessage> },
    /// The addition of a participant that has answered a join request.
    AddMember { msg: ProtoMessage },
    /// The welcome of a new participant. The commit is for the others.
    SendWelcome {
        welcome: ProtoMessage,
        welcome_id: u32,
        commit: ProtoMessage,
        commit_id: u32,
        others: u32,
    },
    /// The removal of the participant that a leave request names.
    RemoveMember { msg: ProtoMessage },
    /// A change of the group, to be acknowledged by a number of participants.
    SendCommit {
        commit: ProtoMessage,
        commit_id: u32,
        acks: u32,
        to_forward: Option<ProtoMessage>,
    },
    /// The last message.
    Close,
}

impl View for ModeratorTask {
    type V = ModeratorTaskView;

    open spec fn view(&self) -> ModeratorTaskView {
        match self {
            ModeratorTask::Forward { msg, after } => {
                ModeratorTaskView::Forward { msg: msg@, after: after@ }
            },
            ModeratorTask::Subscribe { reply } => {
                ModeratorTaskView::Subscribe { reply: message_option(*reply) }
            },
            ModeratorTask::Route { reply } => {
                ModeratorTaskView::Route { reply: message_option(*reply) }
            },
            ModeratorTask::CreateGroup { reply } => {
                ModeratorTaskView::CreateGroup { reply: message_option(*reply) }
            },
            ModeratorTask::AddMember { msg } => ModeratorTaskView::AddMember { msg: msg@ },
            ModeratorTask::SendWelcome { welcome, welcome_id, commit, commit_id, others } => {
                ModeratorTaskView::SendWelcome {
                    welcome: welcome@,
                    welcome_id: *welcome_id,
                    commit: commit@,
                    commit_id: *commit_id,
                    others: *others,
                }
            },
            ModeratorTask::RemoveMember { msg } => ModeratorTaskView::RemoveMember { msg: msg@ },
            ModeratorTask::SendCommit { commit, commit_id, acks, to_forward } => {
                ModeratorTaskView::SendCommit {
                    commit: commit@,
                    commit_id: *commit_id,
                    acks: *acks,
                    to_forward: message_option(*to_forward),
                }
            },
            ModeratorTask::Close => ModeratorTaskView::Close,
        }
    }
}

/// The moderator of a channel.
#[derive(Debug)]
pub struct ChannelModerator {
    pub endpoint: Endpoint,
    /// The pending requests, by their message ids.
    pub pending_requests: HashMap<u32, ChannelTimer>,
    /// How often a request is sent again before it is given up.
    pub max_retries: u32,
    /// The time between two retries.
    pub retries_interval: Duration,
    /// The payload of the join requests.
    pub invite_payload: Vec<u8>,
    /// The id of the last change of the group.
    pub mls_msg_id: u32,
    /// What is waited for, while a message is handled.
    pub waiting: Option<ModeratorTask>,
}

/// The model of the pending requests.
pub open spec fn pending_view(m: Map<u32, ChannelTimer>) -> Map<u32, ChannelTimerView> {
    m.map_values(|t: ChannelTimer| t@)
}

impl View for ChannelModerator {
    type V = ModeratorView;

    open spec fn view(&self) -> ModeratorView {
        ModeratorView {
            endpoint: self.endpoint@,
            pending_requests: pending_view(self.pending_requests@),
            max_retries: self.max_retries,
            retries_interval: self.retries_interval,
            invite_payload: self.invite_payload@,
            mls_msg_id: self.mls_msg_id,
            waiting: match self.waiting {
                Some(t) => Some(t@),
                None => None,
            },
        }
    }
}

/// A fresh message id, from `rand::random`. Any number can come.
#[verifier::external_body]
fn random_u32() -> (r: u32) {
    rand::random::<u32>()
}

impl ChannelModerator {
    pub fn new(
        name: Agent,
        channel_name: AgentType,
        channel_id: Option<u64>,
        session_id: u32,
        session_type: ProtoSessionType,
        max_retries: u32,
        retries_interval: Duration,
        mls: Option<MlsState>,
    ) -> (r: Self)
        ensures
            r@ == (ModeratorView {
                endpoint: EndpointView::initial(
                    name@,
                    channel_name@,
                    channel_id,
                    session_id,
                    session_type,
                    crate::endpoint::mls_view(mls),
                ),
                pending_requests: Map::empty(),
                max_retries,
                retries_interval,
                invite_payload: (JoinPayloadView {
                    channel_name: channel_name@,
                    moderator_name: name@,
                }).bytes(),
                mls_msg_id: 0,
                waiting: None,
            }),
            JoinPayloadView::read(r@.invite_payload) == Some(
                JoinPayloadView { channel_name: channel_name@, moderator_name: name@ },
            ),
    {
        let payload = JoinMessagePayload::new(channel_name.clone(), name.clone());
        let invite_payload = payload.encode();
        let endpoint = Endpoint::new(
            name,
            channel_name,
            channel_id,
            session_id,
            session_type,
            mls,
        );
        let pending_requests: HashMap<u32, ChannelTimer> = HashMap::new();
        assert(pending_view(pending_requests@) =~= Map::empty());
        ChannelModerator {
            endpoint,
            pending_requests,
            max_retries,
            retries_interval,
            invite_payload,
            mls_msg_id: 0,
            waiting: None,
        }
    }

    fn finish(&mut self, result: Result<(), SessionError>) -> (r: Step)
        ensures
            (final(self)@, r@) == old(self)@.finish(crate::session::unit_result(result)),
    {
        self.waiting = None;
        Step::finish(result)
    }

    /// Adds a pending request. The start of its timer is handed out.
    pub fn create_timer(
        &mut self,
        key: u32,
        pending_messages: u32,
        msg: ProtoMessage,
        to_forward: Option<ProtoMessage>,
    ) -> (r: TimerOp)
        ensures
            final(self)@ == old(self)@.with_pending(
                key,
                pending_messages,
                message_option(to_forward),
            ),
            r@ == old(self)@.timer(key, msg@),
    {
        broadcast use vstd::std_specs::hash::group_hash_axioms;

        let timer = ChannelTimer { expected_acks: pending_messages, to_forward };
        self.pending_requests.insert(key, timer);
        assert(self@.pending_requests =~= old(self)@.pending_requests.insert(key, timer@));
        TimerOp::Start {
            key,
            interval: self.retries_interval,
            max_retries: self.max_retries,
            observer: RequestTimerObserver { message: msg },
        }
    }

    /// Counts an acknowledgement of a pending request. With the last one the request is
    /// no longer pending: then what waited for it is handed out, and the timer is to be
    /// stopped.
    pub fn delete_timer(&mut self, key: u32) -> (r: Result<
        Option<Option<ProtoMessage>>,
        SessionError,
    >)
        ensures
            match r {
                Err(e) => {
                    &&& !old(self)@.pending_requests.contains_key(key)
                    &&& e@ == SessionErrorView::TimerNotFound(crate::text::decimal(key as nat))
                    &&& final(self)@ == old(self)@
                },
                Ok(None) => {
                    &&& old(self)@.pending_requests.contains_key(key)
                    &&& old(self)@.pending_requests[key].expected_acks > 1
                    &&& final(self)@ == old(self)@.with_pending(
                        key,
                        (old(self)@.pending_requests[key].expected_acks - 1) as u32,
                        old(self)@.pending_requests[key].to_forward,
                    )
                },
                Ok(Some(to_forward)) => {
                    &&& old(self)@.pending_requests.contains_key(key)
                    &&& old(self)@.pending_requests[key].expected_acks <= 1
                    &&& message_option(to_forward) == old(self)@.pending_requests[key].to_forward
                    &&& final(self)@ == old(self)@.without_pending(key)
                },
            },
    {
        broadcast use vstd::std_specs::hash::group_hash_axioms;

        let removed = self.pending_requests.remove(&key);
        match removed {
            Some(timer) => {
                if timer.expected_acks > 1 {
                    let timer = ChannelTimer {
                        expected_acks: timer.expected_acks - 1,
                        to_forward: timer.to_forward,
                    };
                    self.pending_requests.insert(key, timer);
                    assert(self@.pending_requests =~= old(self)@.pending_requests.insert(
                        key,
                        timer@,
                    ));
                    Ok(None)
                } else {
                    assert(self@.pending_requests =~= old(self)@.pending_requests.remove(key));
                    Ok(Some(timer.to_forward))
                }
            },
            None => {
                assert(self@.pending_requests =~= old(self)@.pending_requests);
                Err(SessionError::TimerNotFound(decimal_text(key as u64)))
            },
        }
    }

    /// The id of the next change of the group.
    pub fn get_next_mls_mgs_id(&mut self) -> (r: u32)
        requires
            old(self)@.mls_msg_id < u32::MAX,
        ensures
            r == old(self)@.mls_msg_id + 1,
            final(self)@ == (ModeratorView { mls_msg_id: r, ..old(self)@ }),
    {
        self.mls_msg_id = self.mls_msg_id + 1;
        self.mls_msg_id
    }

    /// Forwards a message. It becomes a pending request once it is sent.
    fn forward(&mut self, msg: ProtoMessage, after: AfterAck) -> (r: Step)
        requires
            msg@.session_header() is Some,
        ensures
            (final(self)@, r@) == old(self)@.forward(msg@, after@),
    {
        let sent = msg.clone();
        self.waiting = Some(ModeratorTask::Forward { msg, after });
        Step::send(sent)
    }

    fn follow_ack(&mut self, after: AfterAck) -> (r: Step)
        requires
            old(self)@.can_follow_ack(after@),
        ensures
            (final(self)@, r@) == old(self)@.follow_ack(after@),
    {
        match after {
            AfterAck::Done => self.finish(Ok(())),
            AfterAck::Invite { join, id } => {
                let timer = self.create_timer(id, 1, join.clone(), None);
                self.waiting = Some(ModeratorTask::Close);
                Step::send(join).after(timer)
            },
            AfterAck::Add { msg } => {
                let package = match &self.endpoint.mls_state {
                    None => return self.finish(Ok(())),
                    Some(mls) => mls.add_participant(&msg),
                };
                match package {
                    Err(e) => self.finish(Err(e)),
                    Ok(package) => {
                        self.waiting = Some(ModeratorTask::AddMember { msg });
                        Step::ask(MlsRequest::AddMember(package))
                    },
                }
            },
        }
    }

    fn count_ack(&mut self, key: u32, after: AfterAck) -> (r: Step)
        requires
            old(self)@.can_count_ack(key, after@),
        ensures
            (final(self)@, r@) == old(self)@.count_ack(key, after@),
    {
        match self.delete_timer(key) {
            Err(e) => self.finish(Err(e)),
            Ok(None) => self.follow_ack(after),
            Ok(Some(Some(msg))) => self.forward(msg, after).after(TimerOp::Stop { key }),
            Ok(Some(None)) => self.follow_ack(after).after(TimerOp::Stop { key }),
        }
    }

    fn follow_join(&mut self, reply: Option<ProtoMessage>, id: u32) -> (r: Step)
        requires
            old(self)@.can_follow_join(message_option(reply)),
        ensures
            (final(self)@, r@) == old(self)@.follow_join(message_option(reply), id),
    {
        let reply = match reply {
            None => return self.finish(Ok(())),
            Some(reply) => reply,
        };
        let src = reply.get_source();
        let payload = self.invite_payload.clone();
        assert(payload@ =~= self.invite_payload@);
        let mut join = self.endpoint.create_channel_message(
            src.agent_type(),
            src.agent_id_option(),
            false,
            SessionMessageType::ChannelJoinRequest,
            id,
            payload,
        );
        if self.endpoint.mls_state.is_some() {
            join.insert_metadata(METADATA_MLS_ENABLED.to_owned(), "true".to_owned());
        }
        self.count_ack(reply.get_id(), AfterAck::Invite { join, id })
    }

    fn start_join(&mut self, reply: Option<ProtoMessage>, id: u32) -> (r: Step)
        requires
            old(self)@.can_join(message_option(reply)),
        ensures
            (final(self)@, r@) == old(self)@.join(message_option(reply), id),
    {
        match self.endpoint.join() {
            None => self.follow_join(reply, id),
            Some(subscription) => {
                self.waiting = Some(ModeratorTask::Subscribe { reply });
                Step::send(subscription)
            },
        }
    }

    /// Joins the channel and creates the group, but only once.
    pub fn join(&mut self) -> (r: Step)
        requires
            old(self)@.can_join(None),
        ensures
            (final(self)@, r@) == old(self)@.join(None, 0),
    {
        self.start_join(None, 0)
    }

    /// A discovery reply: the channel is joined, and the agent that sent it is invited
    /// under a given message id.
    pub fn on_discovery_reply(&mut self, msg: ProtoMessage, id: u32) -> (r: Step)
        requires
            msg@.has_incoming_conn(),
            old(self)@.connected(msg@).can_join(Some(msg@)),
        ensures
            (final(self)@, r@) == old(self)@.connected(msg@).join(Some(msg@), id),
    {
        self.endpoint.conn = Some(msg.get_incoming_conn());
        self.start_join(Some(msg), id)
    }

    /// The answer to a join request: it is no longer pending, and the participant is
    /// added to the group where there is one.
    pub fn on_join_reply(&mut self, msg: ProtoMessage) -> (r: Step)
        requires
            msg@.can_answer(),
            old(self)@.can_count_ack(msg@.id(), AfterAckView::Add { msg: msg@ }),
        ensures
            (final(self)@, r@) == old(self)@.count_ack(
                msg@.id(),
                AfterAckView::Add { msg: msg@ },
            ),
    {
        let msg_id: u32 = msg.get_id();
        self.count_ack(msg_id, AfterAck::Add { msg })
    }

    /// The acknowledgement of a welcome or of a change of the group.
    pub fn on_msl_ack(&mut self, msg: ProtoMessage) -> (r: Step)
        requires
            msg@.session_header() is Some,
            old(self)@.can_count_ack(msg@.id(), AfterAckView::Done),
        ensures
            (final(self)@, r@) == old(self)@.count_ack(msg@.id(), AfterAckView::Done),
    {
        self.count_ack(msg.get_id(), AfterAck::Done)
    }

    /// The answer to a leave request.
    pub fn on_leave_reply(&mut self, msg: ProtoMessage) -> (r: Step)
        requires
            msg@.session_header() is Some,
            old(self)@.can_count_ack(msg@.id(), AfterAckView::Done),
        ensures
            (final(self)@, r@) == old(self)@.count_ack(msg@.id(), AfterAckView::Done),
    {
        self.count_ack(msg.get_id(), AfterAck::Done)
    }

    /// A leave request: with keys, the participant is removed from the group first;
    /// without, the request is forwarded.
    pub fn on_leave_request(&mut self, msg: ProtoMessage) -> (r: Step)
        requires
            old(self)@.endpoint.mls_state is Some ==> msg@.has_destination(),
            old(self)@.endpoint.mls_state is None ==> msg@.session_header() is Some,
        ensures
            (final(self)@, r@) == old(self)@.on_leave_request(msg@),
    {
        let identity = match &self.endpoint.mls_state {
            None => return self.forward(msg, AfterAck::Done),
            Some(mls) => mls.remove_participant(&msg),
        };
        match identity {
            Err(e) => self.finish(Err(e)),
            Ok(identity) => {
                self.waiting = Some(ModeratorTask::RemoveMember { msg });
                Step::ask(MlsRequest::RemoveMember(identity))
            },
        }
    }

    /// A participant was added: it is welcomed first, under a given message id.
    fn on_added(&mut self, msg: ProtoMessage, added: AddedMember, id: u32) -> (r: Step)
        requires
            old(self)@.can_add(msg@, added@),
        ensures
            (final(self)@, r@) == old(self)@.on_added(msg@, added@, id),
    {
        let ghost key = msg@.source().key();
        let src = msg.get_source();
        let (commit_payload, welcome_payload, len) = match &mut self.endpoint.mls_state {
            Some(mls) => {
                let (commit, welcome) = mls.participant_added(&msg, added);
                (commit, welcome, mls.participants.len())
            },
            None => vstd::pervasive::unreached(),
        };
        proof {
            let grown = self@.endpoint.mls_state->0.participants;
            assert(grown.dom().contains(key));
            if grown.dom().len() == 0 {
                assert(grown.dom() =~= Set::empty());
            }
        }
        let others: u32 = (len - 1) as u32;
        let commit_id: u32 = self.get_next_mls_mgs_id();
        let commit = self.endpoint.create_channel_message(
            &self.endpoint.channel_name,
            None,
            true,
            SessionMessageType::ChannelMlsCommit,
            commit_id,
            commit_payload,
        );
        let mut welcome = self.endpoint.create_channel_message(
            src.agent_type(),
            src.agent_id_option(),
            false,
            SessionMessageType::ChannelMlsWelcome,
            id,
            welcome_payload,
        );
        welcome.insert_metadata(
            METADATA_MLS_INIT_COMMIT_ID.to_owned(),
            decimal_text(commit_id as u64),
        );
        let sent = welcome.clone();
        self.waiting = Some(
            ModeratorTask::SendWelcome { welcome, welcome_id: id, commit, commit_id, others },
        );
        Step::send(sent)
    }

    /// A participant was removed: the group is told.
    fn on_removed(&mut self, msg: ProtoMessage, change: Vec<u8>) -> (r: Step)
        requires
            old(self)@.can_remove(msg@),
        ensures
            (final(self)@, r@) == old(self)@.on_removed(msg@, change@),
    {
        let len: usize = match &mut self.endpoint.mls_state {
            Some(mls) => {
                mls.participant_removed(&msg);
                mls.participants.len()
            },
            None => vstd::pervasive::unreached(),
        };
        let acks: u32 = len as u32 + 1;
        let commit_id: u32 = self.get_next_mls_mgs_id();
        let commit = self.endpoint.create_channel_message(
            &self.endpoint.channel_name,
            None,
            true,
            SessionMessageType::ChannelMlsCommit,
            commit_id,
            change,
        );
        let sent = commit.clone();
        self.waiting = Some(
            ModeratorTask::SendCommit { commit, commit_id, acks, to_forward: Some(msg) },
        );
        Step::send(sent)
    }

    /// The first step for a message, with a fresh id for a message that follows from it.
    pub fn handle_message(&mut self, msg: ProtoMessage, id: u32) -> (r: Step)
        requires
            old(self)@.accepts(msg@),
        ensures
            (final(self)@, r@) == old(self)@.on_message(msg@, id),
    {
        let msg_type = msg.get_session_header().session_message_type();
        match msg_type {
            SessionMessageType::ChannelDiscoveryRequest => self.forward(msg, AfterAck::Done),
            SessionMessageType::ChannelDiscoveryReply => self.on_discovery_reply(msg, id),
            SessionMessageType::ChannelJoinReply => self.on_join_reply(msg),
            SessionMessageType::ChannelMlsAck => self.on_msl_ack(msg),
            SessionMessageType::ChannelLeaveRequest => self.on_leave_request(msg),
            SessionMessageType::ChannelLeaveReply => self.on_leave_reply(msg),
            _ => {
                let text = "received unexpected packet type: ".to_owned().concat(msg_type.name());
                self.finish(Err(SessionError::Processing(text)))
            },
        }
    }

    /// The step that follows a message that has been sent for a task.
    fn after_sending(&mut self, task: ModeratorTask, id: u32) -> (r: Step)
        requires
            old(self)@.wait(task@).can_resume(OutcomeView::Sent(Ok(()))),
        ensures
            (final(self)@, r@) == old(self)@.wait(task@).resume(OutcomeView::Sent(Ok(())), id),
    {
        match task {
            ModeratorTask::Forward { msg, after } => {
                let timer = self.create_timer(msg.get_id(), 1, msg, None);
                self.follow_ack(after).after(timer)
            },
            ModeratorTask::Subscribe { reply } => {
                let route = self.endpoint.set_channel_route();
                self.waiting = Some(ModeratorTask::Route { reply });
                Step::send(route)
            },
            ModeratorTask::Route { reply } => {
                if self.endpoint.mls_state.is_some() {
                    self.waiting = Some(ModeratorTask::CreateGroup { reply });
                    Step::ask(MlsRequest::CreateGroup)
                } else {
                    self.follow_join(reply, id)
                }
            },
            ModeratorTask::SendWelcome { welcome, welcome_id, commit, commit_id, others } => {
                let timer = self.create_timer(welcome_id, 1, welcome, None);
                if others > 0 {
                    let sent = commit.clone();
                    self.waiting = Some(
                        ModeratorTask::SendCommit {
                            commit,
                            commit_id,
                            acks: others,
                            to_forward: None,
                        },
                    );
                    Step::send(sent).after(timer)
                } else {
                    self.finish(Ok(())).after(timer)
                }
            },
            ModeratorTask::SendCommit { commit, commit_id, acks, to_forward } => {
                let timer = self.create_timer(commit_id, acks, commit, to_forward);
                self.finish(Ok(())).after(timer)
            },
            ModeratorTask::Close => self.finish(Ok(())),
            _ => vstd::pervasive::unreached(),
        }
    }

    /// The step that follows an outcome that is waited for, with a fresh id for a message
    /// that follows from it.
    pub fn handle_outcome(&mut self, outcome: Outcome, id: u32) -> (r: Step)
        requires
            old(self)@.can_resume(outcome@),
        ensures
            (final(self)@, r@) == old(self)@.resume(outcome@, id),
    {
        let task = match self.waiting.take() {
            Some(task) => task,
            None => vstd::pervasive::unreached(),
        };
        match outcome {
            Outcome::Sent(Err(e)) => self.finish(Err(e)),
            Outcome::Sent(Ok(_)) => self.after_sending(task, id),
            Outcome::GroupCreated(r) => match MlsState::init_moderator(r) {
                Err(e) => self.finish(Err(e)),
                Ok(_) => match task {
                    ModeratorTask::CreateGroup { reply } => self.follow_join(reply, id),
                    _ => vstd::pervasive::unreached(),
                },
            },
            Outcome::MemberAdded(Err(e)) => self.finish(Err(SessionError::AddParticipant(e))),
            Outcome::MemberAdded(Ok(added)) => match task {
                ModeratorTask::AddMember { msg } => self.on_added(msg, added, id),
                _ => vstd::pervasive::unreached(),
            },
            Outcome::MemberRemoved(Err(e)) => self.finish(Err(SessionError::RemoveParticipant(e))),
            Outcome::MemberRemoved(Ok(change)) => match task {
                ModeratorTask::RemoveMember { msg } => self.on_removed(msg, change),
                _ => vstd::pervasive::unreached(),
            },
            _ => vstd::pervasive::unreached(),
        }
    }

    fn can_follow_ack(&self, msg: Option<&ProtoMessage>) -> (r: bool)
        ensures
            r == self@.can_follow_ack(
                match msg {
                    Some(msg) => AfterAckView::Add { msg: msg@ },
                    None => AfterAckView::Done,
                },
            ),
    {
        match msg {
            Some(msg) => self.endpoint.mls_state.is_none() || (msg.message_type.is_some()
                && msg.is_publish()),
            None => true,
        }
    }

    /// Whether an acknowledgement can be counted, and the addition of a participant that
    /// follows it, if one does, can be done.
    fn can_count_ack(&self, key: u32, msg: Option<&ProtoMessage>) -> (r: bool)
        ensures
            r == self@.can_count_ack(
                key,
                match msg {
                    Some(msg) => AfterAckView::Add { msg: msg@ },
                    None => AfterAckView::Done,
                },
            ),
    {
        broadcast use vstd::std_specs::hash::group_hash_axioms;

        match self.pending_requests.get(&key) {
            Some(timer) => match &timer.to_forward {
                Some(forwarded) if timer.expected_acks <= 1 => {
                    forwarded.try_get_session_header().is_some()
                },
                _ => self.can_follow_ack(msg),
            },
            None => true,
        }
    }

    fn can_follow_join(&self, reply: &Option<ProtoMessage>) -> (r: bool)
        ensures
            r == self@.can_follow_join(message_option(*reply)),
    {
        match reply {
            Some(reply) => can_answer(reply) && self.can_count_ack(reply.get_id(), None),
            None => true,
        }
    }

    fn can_add(&self, msg: &ProtoMessage, added: &AddedMember) -> (r: bool)
        ensures
            r == self@.can_add(msg@, added@),
    {
        let mls = match &self.endpoint.mls_state {
            Some(mls) => mls,
            None => return false,
        };
        let source = match msg.try_get_slim_header() {
            Some(h) => h.source.is_some(),
            None => false,
        };
        if !source || self.mls_msg_id == u32::MAX {
            return false;
        }
        let len: usize = mls.participants.len();
        let known = mls.participants.get(&msg.get_source()).is_some();
        let others: usize = if known {
            proof {
                let participants = mls@.participants;
                assert(participants.dom().contains(msg@.source().key()));
                assert(participants.insert(msg@.source().key(), added.member_identity@).dom()
                    =~= participants.dom());
                if participants.dom().len() == 0 {
                    assert(participants.dom() =~= Set::empty());
                }
            }
            len - 1
        } else {
            len
        };
        others as u64 <= u32::MAX as u64
    }

    fn can_remove(&self, msg: &ProtoMessage) -> (r: bool)
        ensures
            r == self@.can_remove(msg@),
    {
        let mls = match &self.endpoint.mls_state {
            Some(mls) => mls,
            None => return false,
        };
        let destination = match msg.try_get_slim_header() {
            Some(h) => h.destination.is_some(),
            None => false,
        };
        if !destination || self.mls_msg_id == u32::MAX {
            return false;
        }
        let len: usize = mls.participants.len();
        let known = mls.participants.get(&msg.get_name_as_agent()).is_some();
        let others: usize = if known {
            proof {
                let participants = mls@.participants;
                assert(participants.dom().contains(msg@.destination_agent().key()));
                assert(participants.remove(msg@.destination_agent().key()).dom()
                    =~= participants.dom().remove(msg@.destination_agent().key()));
                if participants.dom().len() == 0 {
                    assert(participants.dom() =~= Set::empty());
                }
            }
            len - 1
        } else {
            proof {
                let participants = mls@.participants;
                assert(participants.remove(msg@.destination_agent().key()) =~= participants);
            }
            len
        };
        (others as u64) < u32::MAX as u64
    }

    /// Whether a message can be handled.
    fn accepts(&self, msg: &ProtoMessage) -> (r: bool)
        ensures
            r == self@.accepts(msg@),
    {
        if msg.try_get_session_header().is_none() {
            return false;
        }
        match msg.get_session_message_type() {
            SessionMessageType::ChannelDiscoveryReply => {
                if self.endpoint.subscribed {
                    has_incoming_conn(msg) && can_answer(msg) && self.can_count_ack(
                        msg.get_id(),
                        None,
                    )
                } else {
                    has_incoming_conn(msg) && self.endpoint.channel_name.strings.is_some()
                }
            },
            SessionMessageType::ChannelJoinReply => can_answer(msg) && self.can_count_ack(
                msg.get_id(),
                Some(msg),
            ),
            SessionMessageType::ChannelMlsAck => self.can_count_ack(msg.get_id(), None),
            SessionMessageType::ChannelLeaveRequest => self.endpoint.mls_state.is_none()
                || match msg.try_get_slim_header() {
                Some(h) => h.destination.is_some(),
                None => false,
            },
            SessionMessageType::ChannelLeaveReply => self.can_count_ack(msg.get_id(), None),
            _ => true,
        }
    }

    /// The first step for a message. There is none, and nothing changes, where the
    /// message lacks what its kind needs.
    pub fn on_message(&mut self, msg: ProtoMessage) -> (r: Option<Step>)
        ensures
            old(self)@.handles(msg@, crate::session::step_option(r), final(self)@),
    {
        if self.accepts(&msg) {
            Some(self.handle_message(msg, random_u32()))
        } else {
            None
        }
    }

    /// Whether an outcome is one that is waited for, and what follows can be done.
    fn can_resume(&self, outcome: &Outcome) -> (r: bool)
        ensures
            r == self@.can_resume(outcome@),
    {
        let task = match &self.waiting {
            Some(task) => task,
            None => return false,
        };
        match outcome {
            Outcome::Sent(Err(_)) => match task {
                ModeratorTask::CreateGroup { .. } => false,
                ModeratorTask::AddMember { .. } => false,
                ModeratorTask::RemoveMember { .. } => false,
                _ => true,
            },
            Outcome::Sent(Ok(_)) => match task {
                ModeratorTask::Forward { msg, after } => msg.try_get_session_header().is_some()
                    && match after {
                    AfterAck::Add { msg } => self.can_follow_ack(Some(msg)),
                    _ => true,
                },
                ModeratorTask::Subscribe { .. } => self.endpoint.can_subscribe(),
                ModeratorTask::Route { reply } => self.endpoint.mls_state.is_some()
                    || self.can_follow_join(reply),
                ModeratorTask::SendWelcome { .. } => true,
                ModeratorTask::SendCommit { .. } => true,
                ModeratorTask::Close => true,
                _ => false,
            },
            Outcome::GroupCreated(r) => match task {
                ModeratorTask::CreateGroup { reply } => r.is_err() || self.can_follow_join(reply),
                _ => false,
            },
            Outcome::MemberAdded(r) => match task {
                ModeratorTask::AddMember { msg } => match r {
                    Ok(added) => self.can_add(msg, added),
                    Err(_) => true,
                },
                _ => false,
            },
            Outcome::MemberRemoved(r) => match task {
                ModeratorTask::RemoveMember { msg } => r.is_err() || self.can_remove(msg),
                _ => false,
            },
            _ => false,
        }
    }

    /// The step that follows an outcome. There is none, and nothing changes, where the
    /// outcome is not one that is waited for or what follows it cannot be done.
    pub fn resume(&mut self, outcome: Outcome) -> (r: Option<Step>)
        ensures
            old(self)@.continues(outcome@, crate::session::step_option(r), final(self)@),
    {
        if self.can_resume(&outcome) {
            Some(self.handle_outcome(outcome, random_u32()))
        } else {
            None
        }
    }
}

} // verus!
